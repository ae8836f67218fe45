use vstd::prelude::*;

use crate::error::TokenTransferHook;
use crate::state::RedeemTokenAccount;

verus! {

/// Everything the redemption engine reads and writes, as plain values: the
/// caller's redeem-asset holding and the redeem asset's supply on one side,
/// and on the other the underlying asset's withheld fees (inside the
/// caller's and the custody holdings, and in the asset's central pool), the
/// program authority's custody balance, and the caller's own balance.
#[derive(Clone, Copy, PartialEq, Eq, Structural, Debug)]
pub struct RedeemMintCtx {
    /// The caller's redeem-asset holding: the redemption rights exercised.
    pub payer_redeem_mint: RedeemTokenAccount,
    /// Total supply of the redeem asset.
    pub redeem_supply: u64,
    /// Fees withheld inside the caller's underlying holding.
    pub payer_mint_withheld: u64,
    /// Fees withheld inside the custody holding.
    pub pda_authority_mint_withheld: u64,
    /// The asset's central withheld-fee pool.
    pub mint_withheld: u64,
    /// Underlying balance of the program authority's custody holding.
    pub pda_authority_mint_amount: u64,
    /// Underlying balance of the caller's holding.
    pub payer_mint_amount: u64,
}

impl RedeemMintCtx {
    /// A holding never exceeds the supply, and an account the runtime has
    /// not created holds nothing.
    pub open spec fn wf(self) -> bool {
        &&& self.payer_redeem_mint.amount <= self.redeem_supply
        &&& !self.payer_redeem_mint.initialized ==> self.payer_redeem_mint.amount == 0
    }
}

/// Everything the harvest gathers into the central pool.
pub open spec fn spec_harvest_total(state: RedeemMintCtx) -> int {
    state.mint_withheld + state.payer_mint_withheld + state.pda_authority_mint_withheld
}

/// What the custody holding holds once the whole withheld pool is withdrawn
/// into it.
pub open spec fn spec_custody_after_withdraw(state: RedeemMintCtx) -> int {
    state.pda_authority_mint_amount + spec_harvest_total(state)
}

/// Whether any accumulation along the redemption would overflow a counter.
pub open spec fn spec_redemption_overflows(state: RedeemMintCtx) -> bool {
    ||| spec_harvest_total(state) > u64::MAX
    ||| spec_custody_after_withdraw(state) > u64::MAX
    ||| state.payer_mint_amount + state.payer_redeem_mint.amount > u64::MAX
}

/// The redemption engine: converts the caller's entire redeem-asset balance
/// into withdrawable underlying asset, one to one.
///
/// With a zero balance the call is a no-op and succeeds.  Otherwise the
/// holding is thawed and its whole balance burned, every withheld fee is
/// harvested into the central pool and withdrawn into the program
/// authority's custody, and exactly the burned amount moves from custody to
/// the caller.  The call is all-or-nothing: an overflowing counter or a
/// custody short of the burned amount aborts it with every balance exactly
/// as it was.
pub fn redeem_mint_handler(state: &mut RedeemMintCtx) -> (result: Result<u64, TokenTransferHook>)
    requires
        old(state).wf(),
    ensures
        final(state).wf(),
        result is Ok ==> result->Ok_0 == old(state).payer_redeem_mint.amount,
        // Redemption conserves value: what was burned equals what was
        // released, and nothing else mints or destroys either asset.
        result is Ok ==> old(state).redeem_supply - final(state).redeem_supply == result->Ok_0
            && final(state).payer_mint_amount - old(state).payer_mint_amount == result->Ok_0,
        old(state).payer_redeem_mint.amount == 0 ==> result == Ok::<u64, TokenTransferHook>(0)
            && *final(state) == *old(state),
        result is Err ==> *final(state) == *old(state),
        ({
            let amount = old(state).payer_redeem_mint.amount;
            amount > 0 ==> {
                if spec_redemption_overflows(*old(state)) {
                    result == Err::<u64, TokenTransferHook>(TokenTransferHook::Overflow)
                } else if spec_custody_after_withdraw(*old(state)) < amount {
                    result == Err::<u64, TokenTransferHook>(TokenTransferHook::InsufficientFunds)
                } else {
                    &&& result == Ok::<u64, TokenTransferHook>(amount)
                    &&& *final(state) == (RedeemMintCtx {
                        payer_redeem_mint: RedeemTokenAccount {
                            initialized: true,
                            amount: 0,
                            frozen: false,
                        },
                        redeem_supply: (old(state).redeem_supply - amount) as u64,
                        payer_mint_withheld: 0,
                        pda_authority_mint_withheld: 0,
                        mint_withheld: 0,
                        pda_authority_mint_amount: (spec_custody_after_withdraw(*old(state))
                            - amount) as u64,
                        payer_mint_amount: (old(state).payer_mint_amount + amount) as u64,
                    })
                }
            }
        }),
{
    let amount = state.payer_redeem_mint.amount;
    if amount == 0 {
        return Ok(0);
    }

    // Harvest: every withheld fee joins the central pool.
    if state.payer_mint_withheld > u64::MAX - state.mint_withheld {
        return Err(TokenTransferHook::Overflow);
    }
    let harvested = state.mint_withheld + state.payer_mint_withheld;
    if state.pda_authority_mint_withheld > u64::MAX - harvested {
        return Err(TokenTransferHook::Overflow);
    }
    let pool = harvested + state.pda_authority_mint_withheld;

    // Withdraw: the pool joins the program authority's custody.
    if pool > u64::MAX - state.pda_authority_mint_amount {
        return Err(TokenTransferHook::Overflow);
    }
    let custody = state.pda_authority_mint_amount + pool;

    // Release: exactly the burned amount reaches the caller.
    if amount > u64::MAX - state.payer_mint_amount {
        return Err(TokenTransferHook::Overflow);
    }
    if custody < amount {
        return Err(TokenTransferHook::InsufficientFunds);
    }

    *state = RedeemMintCtx {
        payer_redeem_mint: RedeemTokenAccount { initialized: true, amount: 0, frozen: false },
        redeem_supply: state.redeem_supply - amount,
        payer_mint_withheld: 0,
        pda_authority_mint_withheld: 0,
        mint_withheld: 0,
        pda_authority_mint_amount: custody - amount,
        payer_mint_amount: state.payer_mint_amount + amount,
    };
    Ok(amount)
}

} // verus!
