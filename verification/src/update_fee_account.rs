use vstd::prelude::*;

use crate::error::TokenTransferHook;
use crate::ledger::FeeLedger;
use crate::state::{AssetConfig, FeeAccount, FeeUpdateEvent, ROOT_SENTINEL};

verus! {

/// The entry the gateway works on: `address`'s existing entry, or a fresh
/// one attributed to the root, carrying the given derivation bump and the
/// asset-shared bumps from the asset's configuration.
pub open spec fn spec_gateway_entry(
    entries: Map<u64, FeeAccount>,
    address: u64,
    bump: u8,
    config: AssetConfig,
) -> FeeAccount {
    if entries.contains_key(address) {
        entries[address]
    } else {
        FeeAccount {
            boss: ROOT_SENTINEL,
            unclaimed_fees: 0,
            claimed_fees: 0,
            bump,
            redeem_mint_bump: config.redeem_mint_bump,
            extra_meta_bump: config.extra_meta_bump,
            pda_authority_bump: config.pda_authority_bump,
        }
    }
}

/// What one authorized correction does to the entry: a boss reassignment
/// clears both fee totals; otherwise the two deltas are added on.
pub open spec fn spec_apply_external_update(
    current: FeeAccount,
    boss: Option<u64>,
    additional_claimed_fees: u64,
    additional_unclaimed_fees: u64,
) -> FeeAccount {
    match boss {
        Some(new_boss) => FeeAccount { boss: new_boss, unclaimed_fees: 0, claimed_fees: 0, ..current },
        None => FeeAccount {
            claimed_fees: (current.claimed_fees + additional_claimed_fees) as u64,
            unclaimed_fees: (current.unclaimed_fees + additional_unclaimed_fees) as u64,
            ..current
        },
    }
}

/// Whether the correction would overflow a fee counter.  Only the additive
/// form can: a boss reassignment clears the counters.
pub open spec fn spec_external_update_overflows(
    current: FeeAccount,
    boss: Option<u64>,
    additional_claimed_fees: u64,
    additional_unclaimed_fees: u64,
) -> bool {
    boss is None && (current.claimed_fees + additional_claimed_fees > u64::MAX
        || current.unclaimed_fees + additional_unclaimed_fees > u64::MAX)
}

/// The external update gateway: the one entry point outside the transfer
/// path that may correct the ledger.
///
/// Only the single external system of record named by the asset's
/// configuration may call it; the caller's identity is taken from the
/// introspected originating instruction of the current call, and any other
/// identity is rejected outright, whatever the payload.  An authorized call
/// either resets `address`'s boss (clearing both fee totals) or credits the
/// two totals; the entry is created on the spot if `address` has none.  On
/// any failure the ledger is exactly as it was.
pub fn update_fee_account_handler(
    ledger: &mut FeeLedger,
    config: &AssetConfig,
    calling_program: u64,
    address: u64,
    boss: Option<u64>,
    additional_claimed_fees: u64,
    additional_unclaimed_fees: u64,
    bump: u8,
) -> (result: Result<FeeUpdateEvent, TokenTransferHook>)
    requires
        old(ledger).wf(),
    ensures
        final(ledger).wf(),
        final(ledger).mint_spec() == old(ledger).mint_spec(),
        calling_program != config.external_update_authority ==> result == Err::<
            FeeUpdateEvent,
            TokenTransferHook,
        >(TokenTransferHook::Unauthorized) && final(ledger).entries() == old(ledger).entries(),
        ({
            let current = spec_gateway_entry(old(ledger).entries(), address, bump, *config);
            let updated = spec_apply_external_update(
                current,
                boss,
                additional_claimed_fees,
                additional_unclaimed_fees,
            );
            &&& calling_program == config.external_update_authority
                && spec_external_update_overflows(
                current,
                boss,
                additional_claimed_fees,
                additional_unclaimed_fees,
            ) ==> result == Err::<FeeUpdateEvent, TokenTransferHook>(TokenTransferHook::Overflow)
                && final(ledger).entries() == old(ledger).entries()
            &&& calling_program == config.external_update_authority
                && !spec_external_update_overflows(
                current,
                boss,
                additional_claimed_fees,
                additional_unclaimed_fees,
            ) ==> final(ledger).entries() == old(ledger).entries().insert(address, updated)
                && result == Ok::<FeeUpdateEvent, TokenTransferHook>(
                FeeUpdateEvent {
                    address,
                    boss: updated.boss,
                    unclaimed_fees: updated.unclaimed_fees,
                    claimed_fees: updated.claimed_fees,
                },
            )
        }),
{
    if calling_program != config.external_update_authority {
        return Err(TokenTransferHook::Unauthorized);
    }

    let current = match ledger.get(address) {
        Some(account) => account,
        None => FeeAccount {
            boss: ROOT_SENTINEL,
            unclaimed_fees: 0,
            claimed_fees: 0,
            bump,
            redeem_mint_bump: config.redeem_mint_bump,
            extra_meta_bump: config.extra_meta_bump,
            pda_authority_bump: config.pda_authority_bump,
        },
    };

    let updated = match boss {
        Some(new_boss) => FeeAccount { boss: new_boss, unclaimed_fees: 0, claimed_fees: 0, ..current },
        None => {
            if additional_claimed_fees > u64::MAX - current.claimed_fees {
                return Err(TokenTransferHook::Overflow);
            }
            if additional_unclaimed_fees > u64::MAX - current.unclaimed_fees {
                return Err(TokenTransferHook::Overflow);
            }
            FeeAccount {
                claimed_fees: current.claimed_fees + additional_claimed_fees,
                unclaimed_fees: current.unclaimed_fees + additional_unclaimed_fees,
                ..current
            }
        },
    };

    ledger.set(address, updated);
    Ok(
        FeeUpdateEvent {
            address,
            boss: updated.boss,
            unclaimed_fees: updated.unclaimed_fees,
            claimed_fees: updated.claimed_fees,
        },
    )
}

} // verus!
