use vstd::prelude::*;

use crate::error::TokenTransferHook;

verus! {

/// Fee rates are quoted in basis points: this many units make 100%.
pub const BPS_DENOMINATOR: u64 = 10000;

/// The fee schedule configured on an asset: a basis-point rate and a cap on
/// the fee charged for any single transfer.
#[derive(Clone, Copy, PartialEq, Eq, Structural, Debug)]
pub struct FeeSchedule {
    pub fee_basis_pts: u16,
    pub max_fee: u64,
}

impl FeeSchedule {
    /// A schedule never charges more than 100%.  [`FeeSchedule::new`]
    /// establishes this; with it the fee for a transfer never exceeds the
    /// transferred amount ([`lemma_fee_le_amount`]).
    pub open spec fn wf(self) -> bool {
        self.fee_basis_pts <= BPS_DENOMINATOR
    }

    /// Builds a schedule, rejecting rates above 100%, as the asset creation
    /// path does.
    pub fn new(fee_basis_pts: u16, max_fee: u64) -> (r: Result<FeeSchedule, TokenTransferHook>)
        ensures
            fee_basis_pts <= BPS_DENOMINATOR ==> r == Ok::<FeeSchedule, TokenTransferHook>(
                FeeSchedule { fee_basis_pts, max_fee },
            ),
            fee_basis_pts > BPS_DENOMINATOR ==> r == Err::<FeeSchedule, TokenTransferHook>(
                TokenTransferHook::InvalidFeeRate,
            ),
            r is Ok ==> r->Ok_0.wf(),
    {
        if fee_basis_pts as u64 <= BPS_DENOMINATOR {
            Ok(FeeSchedule { fee_basis_pts, max_fee })
        } else {
            Err(TokenTransferHook::InvalidFeeRate)
        }
    }
}

/// The fee `schedule` owes on a transfer of `amount`: the rate applied and
/// rounded down, then capped.
pub open spec fn spec_fee(schedule: FeeSchedule, amount: u64) -> int {
    let scaled = amount * schedule.fee_basis_pts / BPS_DENOMINATOR as int;
    if scaled <= schedule.max_fee {
        scaled
    } else {
        schedule.max_fee as int
    }
}

/// The fee owed on a transfer of `amount` by an asset whose schedule is
/// `schedule`: zero when the asset carries no schedule at all.
pub open spec fn spec_calculate_fee(schedule: Option<FeeSchedule>, amount: u64) -> int {
    match schedule {
        Some(s) => spec_fee(s, amount),
        None => 0,
    }
}

/// Computes the fee for one transfer: `min(floor(amount * rate / 10000), cap)`
/// under a schedule, zero without one.
pub fn calculate_fee(schedule: &Option<FeeSchedule>, amount: u64) -> (fee: u64)
    ensures
        fee == spec_calculate_fee(*schedule, amount),
{
    match schedule {
        None => 0,
        Some(s) => {
            proof {
                assert((amount as int) * (s.fee_basis_pts as int) <= (u64::MAX as int) * (
                u16::MAX as int)) by (nonlinear_arith)
                    requires
                        amount <= u64::MAX,
                        s.fee_basis_pts <= u16::MAX,
                ;
            }
            let scaled: u128 = (amount as u128) * (s.fee_basis_pts as u128);
            let raw: u128 = scaled / (BPS_DENOMINATOR as u128);
            if raw <= s.max_fee as u128 {
                raw as u64
            } else {
                s.max_fee
            }
        },
    }
}

/// Under a well-formed schedule the fee never exceeds the transferred amount,
/// so the amount after the fee is an ordinary subtraction.
pub proof fn lemma_fee_le_amount(schedule: FeeSchedule, amount: u64)
    requires
        schedule.wf(),
    ensures
        0 <= spec_fee(schedule, amount) <= amount,
{
    let bps = schedule.fee_basis_pts as int;
    let a = amount as int;
    assert(a * bps <= a * (BPS_DENOMINATOR as int)) by (nonlinear_arith)
        requires
            0 <= a,
            bps <= BPS_DENOMINATOR as int,
    ;
    assert(a * (BPS_DENOMINATOR as int) / (BPS_DENOMINATOR as int) == a) by (nonlinear_arith);
    vstd::arithmetic::div_mod::lemma_div_is_ordered(
        a * bps,
        a * (BPS_DENOMINATOR as int),
        BPS_DENOMINATOR as int,
    );
    assert(0 <= a * bps) by (nonlinear_arith)
        requires
            0 <= a,
            0 <= bps,
    ;
    vstd::arithmetic::div_mod::lemma_div_pos_is_pos(a * bps, BPS_DENOMINATOR as int);
}

} // verus!
