use vstd::prelude::*;

use crate::error::TokenTransferHook;
use crate::fees::{FeeSchedule, BPS_DENOMINATOR};
use crate::state::AssetConfig;

verus! {

/// Assembles the configuration of a newly created asset: its fee schedule,
/// its two authorities, and the derivation bumps shared by every entry of
/// its ledger.  The runtime creates the asset and its redeem asset around
/// this value; a rate above 100% is rejected before anything is created.
pub fn create_mint_handler(
    mint: u64,
    decimals: u8,
    fee_basis_pts: u16,
    max_fee: u64,
    program_authority: u64,
    external_update_authority: u64,
    pda_authority_bump: u8,
    extra_meta_bump: u8,
    redeem_mint_bump: u8,
) -> (result: Result<AssetConfig, TokenTransferHook>)
    ensures
        fee_basis_pts > BPS_DENOMINATOR ==> result == Err::<AssetConfig, TokenTransferHook>(
            TokenTransferHook::InvalidFeeRate,
        ),
        fee_basis_pts <= BPS_DENOMINATOR ==> result == Ok::<AssetConfig, TokenTransferHook>(
            AssetConfig {
                mint,
                decimals,
                program_authority,
                external_update_authority,
                fee_schedule: Some(FeeSchedule { fee_basis_pts, max_fee }),
                pda_authority_bump,
                extra_meta_bump,
                redeem_mint_bump,
            },
        ),
        result is Ok ==> result->Ok_0.wf(),
{
    let fee_schedule = match FeeSchedule::new(fee_basis_pts, max_fee) {
        Ok(schedule) => schedule,
        Err(error) => {
            return Err(error);
        },
    };
    Ok(
        AssetConfig {
            mint,
            decimals,
            program_authority,
            external_update_authority,
            fee_schedule: Some(fee_schedule),
            pda_authority_bump,
            extra_meta_bump,
            redeem_mint_bump,
        },
    )
}

} // verus!
