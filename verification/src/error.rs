use vstd::prelude::*;

verus! {

/// The error codes the handlers abort with.  Every failure is fatal for the
/// enclosing operation: a handler that returns one of these leaves its state
/// arguments exactly as it found them.
#[derive(Clone, Copy, PartialEq, Eq, Structural, Debug)]
pub enum TokenTransferHook {
    /// A privileged entry point was invoked by an identity other than the one
    /// it accepts.
    Unauthorized,
    /// A fee or balance accumulation would overflow its fixed-width counter.
    Overflow,
    /// A fee schedule was configured with a rate above 100%.
    InvalidFeeRate,
    /// A fee ledger entry that must already exist (the source entry of a
    /// transfer) was not found.
    AccountNotInitialized,
    /// A one-shot initialization was attempted a second time.
    AccountAlreadyInitialized,
    /// Instruction bytes did not carry a recognized instruction.
    InvalidInstructionData,
    /// The fee custody account does not hold enough of the underlying asset
    /// to release what was burned.
    InsufficientFunds,
}

} // verus!
