use vstd::prelude::*;

use crate::error::TokenTransferHook;
use crate::ledger::FeeLedger;
use crate::state::{AssetConfig, FeeAccount, ROOT_SENTINEL};

verus! {

/// How the address of one extra account the interceptor requires is found.
/// In the interceptor's account list, positions 0 to 4 are the transfer's
/// source holding, the mint, the destination holding, the owner, and the
/// resolution record itself; the extra accounts follow from position 5, so
/// an index below points into that combined list.
#[derive(Clone, Copy, PartialEq, Eq, Structural, Debug)]
pub enum AccountAddress {
    /// A fixed address, given outright.
    Program { address: u64 },
    /// This program itself.
    CurrentProgram,
    /// The asset's program authority, derived from its label and the mint.
    PdaAuthority,
    /// The fee entry of an owner, derived from the fee label, the mint, and
    /// the owner identifier read out of the data of the account at
    /// `account_index` — a derivation from data found in another account of
    /// the same call.
    FeeAccountFor { account_index: u8, data_offset: u8 },
    /// The asset's redeem mint, derived from its label and the mint.
    RedeemMint,
    /// An associated token account derived under the program at
    /// `program_index`, for the owner read out of the data of the account at
    /// `owner_account_index` — a second-order derivation.
    AssociatedTokenAccountFor {
        program_index: u8,
        owner_account_index: u8,
        owner_data_offset: u8,
        token_program_index: u8,
        mint_index: u8,
    },
}

/// One extra account the interceptor requires: where its address comes from
/// and how it is passed.
#[derive(Clone, Copy, PartialEq, Eq, Structural, Debug)]
pub struct ExtraAccountSpec {
    pub address: AccountAddress,
    pub is_signer: bool,
    pub is_writable: bool,
}

/// Every extra account the interceptor requires, in the order the token
/// ledger must append them: the three programs it re-enters through, the
/// asset's program authority, the source and destination owners' fee
/// entries, the redeem mint, this program, the boss's redeem-asset holding,
/// and this program again.
pub open spec fn spec_extra_account_metas(
    associated_token_program: u64,
    token_program: u64,
    system_program: u64,
) -> Seq<ExtraAccountSpec> {
    seq![
        ExtraAccountSpec {
            address: AccountAddress::Program { address: associated_token_program },
            is_signer: false,
            is_writable: false,
        },
        ExtraAccountSpec {
            address: AccountAddress::Program { address: token_program },
            is_signer: false,
            is_writable: false,
        },
        ExtraAccountSpec {
            address: AccountAddress::Program { address: system_program },
            is_signer: false,
            is_writable: false,
        },
        ExtraAccountSpec {
            address: AccountAddress::PdaAuthority,
            is_signer: false,
            is_writable: true,
        },
        ExtraAccountSpec {
            address: AccountAddress::FeeAccountFor { account_index: 0, data_offset: 32 },
            is_signer: false,
            is_writable: true,
        },
        ExtraAccountSpec {
            address: AccountAddress::FeeAccountFor { account_index: 2, data_offset: 32 },
            is_signer: false,
            is_writable: true,
        },
        ExtraAccountSpec { address: AccountAddress::RedeemMint, is_signer: false, is_writable: true },
        ExtraAccountSpec {
            address: AccountAddress::CurrentProgram,
            is_signer: false,
            is_writable: false,
        },
        ExtraAccountSpec {
            address: AccountAddress::AssociatedTokenAccountFor {
                program_index: 5,
                owner_account_index: 9,
                owner_data_offset: 8,
                token_program_index: 6,
                mint_index: 11,
            },
            is_signer: false,
            is_writable: true,
        },
        ExtraAccountSpec {
            address: AccountAddress::CurrentProgram,
            is_signer: false,
            is_writable: false,
        },
    ]
}

/// One-shot bootstrap of an asset's interception: creates the fee entries of
/// the paying caller and of the program authority, both attributed to the
/// root, and enumerates the extra accounts every later transfer of the asset
/// will require.  Run a second time for the same asset it changes nothing
/// and fails.
pub fn initialize_extra_account_meta_list_handler(
    ledger: &mut FeeLedger,
    config: &AssetConfig,
    payer: u64,
    payer_fee_bump: u8,
    pda_authority_fee_bump: u8,
    associated_token_program: u64,
    token_program: u64,
    system_program: u64,
) -> (result: Result<Vec<ExtraAccountSpec>, TokenTransferHook>)
    requires
        old(ledger).wf(),
        config.mint == old(ledger).mint_spec(),
    ensures
        final(ledger).wf(),
        final(ledger).mint_spec() == old(ledger).mint_spec(),
        old(ledger).entries().contains_key(payer) || old(ledger).entries().contains_key(
            config.program_authority,
        ) ==> result is Err && result->Err_0 == TokenTransferHook::AccountAlreadyInitialized
            && final(ledger).entries() == old(ledger).entries(),
        !old(ledger).entries().contains_key(payer) && !old(ledger).entries().contains_key(
            config.program_authority,
        ) ==> {
            &&& final(ledger).entries() == old(ledger).entries().insert(
                payer,
                FeeAccount::spec_init(
                    payer_fee_bump,
                    config.redeem_mint_bump,
                    config.extra_meta_bump,
                    config.pda_authority_bump,
                ),
            ).insert(
                config.program_authority,
                FeeAccount::spec_init(
                    pda_authority_fee_bump,
                    config.redeem_mint_bump,
                    config.extra_meta_bump,
                    config.pda_authority_bump,
                ),
            )
            &&& result is Ok
            &&& result->Ok_0@ == spec_extra_account_metas(
                associated_token_program,
                token_program,
                system_program,
            )
        },
{
    if ledger.contains(payer) || ledger.contains(config.program_authority) {
        return Err(TokenTransferHook::AccountAlreadyInitialized);
    }

    ledger.set(
        payer,
        FeeAccount {
            boss: ROOT_SENTINEL,
            unclaimed_fees: 0,
            claimed_fees: 0,
            bump: payer_fee_bump,
            redeem_mint_bump: config.redeem_mint_bump,
            extra_meta_bump: config.extra_meta_bump,
            pda_authority_bump: config.pda_authority_bump,
        },
    );
    ledger.set(
        config.program_authority,
        FeeAccount {
            boss: ROOT_SENTINEL,
            unclaimed_fees: 0,
            claimed_fees: 0,
            bump: pda_authority_fee_bump,
            redeem_mint_bump: config.redeem_mint_bump,
            extra_meta_bump: config.extra_meta_bump,
            pda_authority_bump: config.pda_authority_bump,
        },
    );

    let mut metas: Vec<ExtraAccountSpec> = Vec::new();
    metas.push(
        ExtraAccountSpec {
            address: AccountAddress::Program { address: associated_token_program },
            is_signer: false,
            is_writable: false,
        },
    );
    metas.push(
        ExtraAccountSpec {
            address: AccountAddress::Program { address: token_program },
            is_signer: false,
            is_writable: false,
        },
    );
    metas.push(
        ExtraAccountSpec {
            address: AccountAddress::Program { address: system_program },
            is_signer: false,
            is_writable: false,
        },
    );
    metas.push(
        ExtraAccountSpec {
            address: AccountAddress::PdaAuthority,
            is_signer: false,
            is_writable: true,
        },
    );
    metas.push(
        ExtraAccountSpec {
            address: AccountAddress::FeeAccountFor { account_index: 0, data_offset: 32 },
            is_signer: false,
            is_writable: true,
        },
    );
    metas.push(
        ExtraAccountSpec {
            address: AccountAddress::FeeAccountFor { account_index: 2, data_offset: 32 },
            is_signer: false,
            is_writable: true,
        },
    );
    metas.push(
        ExtraAccountSpec { address: AccountAddress::RedeemMint, is_signer: false, is_writable: true },
    );
    metas.push(
        ExtraAccountSpec {
            address: AccountAddress::CurrentProgram,
            is_signer: false,
            is_writable: false,
        },
    );
    metas.push(
        ExtraAccountSpec {
            address: AccountAddress::AssociatedTokenAccountFor {
                program_index: 5,
                owner_account_index: 9,
                owner_data_offset: 8,
                token_program_index: 6,
                mint_index: 11,
            },
            is_signer: false,
            is_writable: true,
        },
    );
    metas.push(
        ExtraAccountSpec {
            address: AccountAddress::CurrentProgram,
            is_signer: false,
            is_writable: false,
        },
    );
    proof {
        assert(metas@ =~= spec_extra_account_metas(
            associated_token_program,
            token_program,
            system_program,
        ));
    }
    Ok(metas)
}

} // verus!
