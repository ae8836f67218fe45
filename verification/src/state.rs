use vstd::prelude::*;

use crate::fees::FeeSchedule;

verus! {

/// The root of the attribution graph.  An entry whose `boss` is this value is
/// attributed to the protocol itself rather than to an upstream owner: new
/// entries start here, and a source that empties its balance is detached back
/// to it.  It stands for the program's own identity, which no owner uses.
pub const ROOT_SENTINEL: u64 = 0;

/// One fee ledger entry, kept per (asset, owner) pair.
///
/// `boss` points at the owner currently entitled to fees attributed through
/// this entry, or at [`ROOT_SENTINEL`].  `unclaimed_fees` and `claimed_fees`
/// accumulate what that attribution has earned.  The bump fields record the
/// derivation parameters with which this entry's address and its asset's
/// authority addresses were derived, so the program can re-derive its signer
/// authority without external input; every entry of one asset carries the
/// same three shared bumps.
#[derive(Clone, Copy, PartialEq, Eq, Structural, Debug)]
pub struct FeeAccount {
    pub boss: u64,
    pub unclaimed_fees: u64,
    pub claimed_fees: u64,
    pub bump: u8,
    pub redeem_mint_bump: u8,
    pub extra_meta_bump: u8,
    pub pda_authority_bump: u8,
}

impl FeeAccount {
    /// A freshly initialized entry: attributed to the root, with nothing
    /// accumulated, carrying its own derivation bump and the three bumps
    /// shared across the asset.
    pub open spec fn spec_init(
        bump: u8,
        redeem_mint_bump: u8,
        extra_meta_bump: u8,
        pda_authority_bump: u8,
    ) -> FeeAccount {
        FeeAccount {
            boss: ROOT_SENTINEL,
            unclaimed_fees: 0,
            claimed_fees: 0,
            bump,
            redeem_mint_bump,
            extra_meta_bump,
            pda_authority_bump,
        }
    }
}

/// The per-asset configuration fixed when the asset is created.
///
/// `program_authority` is the asset's deterministic program-derived signer:
/// the only identity the privileged fee-commit path accepts.
/// `external_update_authority` is the one external system of record allowed
/// to push corrections through the update gateway.  Both are explicit
/// configuration rather than compiled-in constants, so they can be checked
/// and rotated.
#[derive(Clone, Copy, PartialEq, Eq, Structural, Debug)]
pub struct AssetConfig {
    pub mint: u64,
    pub decimals: u8,
    pub program_authority: u64,
    pub external_update_authority: u64,
    pub fee_schedule: Option<FeeSchedule>,
    pub pda_authority_bump: u8,
    pub extra_meta_bump: u8,
    pub redeem_mint_bump: u8,
}

impl AssetConfig {
    /// Any schedule the asset carries charges at most 100%.
    pub open spec fn wf(self) -> bool {
        match self.fee_schedule {
            Some(s) => s.wf(),
            None => true,
        }
    }
}

/// One holding of the redeem asset, as the commit and redemption paths see
/// it: whether the runtime has created the account at all, what it holds,
/// and whether it is frozen.  Credited redemption rights are held frozen, so
/// they only move by redemption.
#[derive(Clone, Copy, PartialEq, Eq, Structural, Debug)]
pub struct RedeemTokenAccount {
    pub initialized: bool,
    pub amount: u64,
    pub frozen: bool,
}

/// What a fee-bearing transfer did to the attribution graph, emitted for
/// downstream indexers.
#[derive(Clone, Copy, PartialEq, Eq, Structural, Debug)]
pub struct TransferEvent {
    pub mint: u64,
    pub source: u64,
    pub source_boss: u64,
    pub destination: u64,
    pub destination_boss: Option<u64>,
    pub destination_token_account: u64,
    pub boss: u64,
    pub boss_unclaimed_fee: u64,
}

/// What an external correction did to one entry, emitted for downstream
/// indexers.
#[derive(Clone, Copy, PartialEq, Eq, Structural, Debug)]
pub struct FeeUpdateEvent {
    pub address: u64,
    pub boss: u64,
    pub unclaimed_fees: u64,
    pub claimed_fees: u64,
}

} // verus!
