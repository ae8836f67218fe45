use vstd::prelude::*;

use crate::error::TokenTransferHook;
use crate::ledger::FeeLedger;
use crate::state::{AssetConfig, RedeemTokenAccount, TransferEvent};
use crate::transfer_hook::RelayedFees;
use crate::update_fees::{
    spec_posting_overflows, spec_transfer_event, spec_update_fees, update_fees_handler,
    UpdateFeesCtx,
};

verus! {

/// Crediting redemption rights: the boss's redeem-asset holding is created
/// if the runtime has not made it yet, receives the fee, and is left frozen
/// so the rights only move by redemption.
pub open spec fn spec_credit_redemption(
    account: RedeemTokenAccount,
    fee: u64,
) -> RedeemTokenAccount {
    let base: int = if account.initialized {
        account.amount as int
    } else {
        0
    };
    RedeemTokenAccount { initialized: true, amount: (base + fee) as u64, frozen: true }
}

/// Whether crediting `fee` would overflow the holding.
pub open spec fn spec_redemption_credit_overflows(account: RedeemTokenAccount, fee: u64) -> bool {
    (if account.initialized {
        account.amount as int
    } else {
        0
    }) + fee > u64::MAX
}

/// The relay hands the interceptor's fee split to the asset.
pub open spec fn spec_relay_authorized(relay: RelayedFees, config: AssetConfig) -> bool {
    relay.signer_spec() == config.program_authority && relay.mint_spec() == config.mint
}

/// The privileged fee-commit handler, reachable only through the relay: it
/// takes the interceptor's sealed fee split, and commits, atomically with
/// the transfer, the boss-attribution update together with the matching
/// redemption rights.
///
/// A relay value whose signer is not the asset's program authority, or that
/// was built for another asset, is rejected outright.  Otherwise the
/// boss-attribution state machine runs with the packaged fee, and when a
/// boss holding is supplied the same fee is minted to it one-to-one and the
/// holding is frozen again.  Any failure leaves the ledger and the holding
/// exactly as they were.
pub fn transfer_fees_handler(
    ledger: &mut FeeLedger,
    config: &AssetConfig,
    relay: &RelayedFees,
    ctx: UpdateFeesCtx,
    boss_redemption_token_account: &mut Option<RedeemTokenAccount>,
) -> (result: Result<TransferEvent, TokenTransferHook>)
    requires
        old(ledger).wf(),
        config.mint == old(ledger).mint_spec(),
    ensures
        final(ledger).wf(),
        final(ledger).mint_spec() == old(ledger).mint_spec(),
        !spec_relay_authorized(*relay, *config) ==> result == Err::<
            TransferEvent,
            TokenTransferHook,
        >(TokenTransferHook::Unauthorized) && final(ledger).entries() == old(ledger).entries()
            && *final(boss_redemption_token_account) == *old(boss_redemption_token_account),
        result is Err ==> final(ledger).entries() == old(ledger).entries()
            && *final(boss_redemption_token_account) == *old(boss_redemption_token_account),
        ({
            let fee = relay.fee_spec();
            let amount_after_fee = relay.amount_after_fee_spec();
            let e0 = old(ledger).entries();
            spec_relay_authorized(*relay, *config) ==> match *old(boss_redemption_token_account) {
                Some(account) if spec_redemption_credit_overflows(account, fee) => result == Err::<
                    TransferEvent,
                    TokenTransferHook,
                >(TokenTransferHook::Overflow),
                _ => {
                    &&& !e0.contains_key(ctx.source_owner) ==> result == Err::<
                        TransferEvent,
                        TokenTransferHook,
                    >(TokenTransferHook::AccountNotInitialized)
                    &&& e0.contains_key(ctx.source_owner) && spec_posting_overflows(
                        e0,
                        ctx,
                        fee,
                        amount_after_fee,
                    ) ==> result == Err::<TransferEvent, TokenTransferHook>(
                        TokenTransferHook::Overflow,
                    )
                    &&& e0.contains_key(ctx.source_owner) && !spec_posting_overflows(
                        e0,
                        ctx,
                        fee,
                        amount_after_fee,
                    ) ==> {
                        &&& final(ledger).entries() == spec_update_fees(
                            e0,
                            ctx,
                            fee,
                            amount_after_fee,
                        )
                        &&& result == Ok::<TransferEvent, TokenTransferHook>(
                            spec_transfer_event(
                                e0,
                                ctx,
                                fee,
                                amount_after_fee,
                                old(ledger).mint_spec(),
                            ),
                        )
                        &&& *final(boss_redemption_token_account) == match *old(
                            boss_redemption_token_account
                        ) {
                            Some(account) => Some(spec_credit_redemption(account, fee)),
                            None => None,
                        }
                    }
                },
            }
        }),
{
    if relay.signer() != config.program_authority || relay.mint() != config.mint {
        return Err(TokenTransferHook::Unauthorized);
    }
    let fee = relay.fee();
    let amount_after_fee = relay.amount_after_fee();

    // The credit to the boss holding is checked up front so that a failure
    // commits nothing.
    let credited: Option<RedeemTokenAccount> = match boss_redemption_token_account {
        Some(account) => {
            let base: u64 = if account.initialized {
                account.amount
            } else {
                0
            };
            if fee > u64::MAX - base {
                return Err(TokenTransferHook::Overflow);
            }
            Some(RedeemTokenAccount { initialized: true, amount: base + fee, frozen: true })
        },
        None => None,
    };

    let event = match update_fees_handler(ledger, ctx, fee, amount_after_fee) {
        Ok(event) => event,
        Err(error) => {
            return Err(error);
        },
    };

    *boss_redemption_token_account = credited;
    Ok(event)
}

} // verus!
