//! Fee attribution for a token ledger with transfer interception.
//!
//! The ledger itself moves balances; this library holds the protocol layered
//! on top of each transfer: it computes the protocol fee for the transfer,
//! attributes that fee to an accumulating per-owner fee balance, and maintains
//! the referral graph (each owner's `boss`) that decides who is entitled to
//! those fees.  Accumulated fees are represented one-to-one by an auxiliary
//! redeem asset and are withdrawn by burning it.
//!
//! Everything here works on plain values: identifiers are `u64`, balances are
//! `u64`, and the per-asset fee ledger is a finite map from owner identifier
//! to [`state::FeeAccount`].  The surrounding runtime (account loading,
//! cross-program calls, signatures) stays outside; it hands the handlers the
//! values they decide on and carries their results back out.

pub mod create_mint;
pub mod error;
pub mod fees;
pub mod initialize_extra_meta;
pub mod ledger;
pub mod redeem_mint;
pub mod state;
pub mod transfer_fees;
pub mod transfer_hook;
pub mod update_fee_account;
pub mod update_fees;
