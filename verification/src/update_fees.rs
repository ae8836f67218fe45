use vstd::prelude::*;

use crate::error::TokenTransferHook;
use crate::ledger::FeeLedger;
use crate::state::{FeeAccount, TransferEvent, ROOT_SENTINEL};

verus! {

/// What the privileged updater learns about one transfer, beyond the fee and
/// the amount after the fee: the plain values the runtime read from the
/// transfer's accounts.  Balances are the post-transfer balances, since the
/// interceptor runs after the ledger has already moved the amount.
#[derive(Clone, Copy, PartialEq, Eq, Structural, Debug)]
pub struct UpdateFeesCtx {
    /// Owner of the transfer's source holding.
    pub source_owner: u64,
    /// Source holding's balance after the transfer.
    pub source_post_balance: u64,
    /// Owner of the transfer's destination holding.
    pub destination_owner: u64,
    /// Destination holding's balance after the transfer.
    pub destination_post_balance: u64,
    /// Address of the destination holding itself, reported in the event.
    pub destination_token_account: u64,
    /// Derivation bump of the destination owner's fee entry, should it have
    /// to be created.
    pub destination_bump: u8,
    /// Derivation bump of the attributed boss's fee entry, should it have to
    /// be created.
    pub boss_bump: u8,
}

/// A transfer lands on a fresh holding exactly when the destination's
/// post-transfer balance equals what this transfer delivered.
pub open spec fn first_receipt(destination_post_balance: u64, amount_after_fee: u64) -> bool {
    destination_post_balance == amount_after_fee
}

/// The owner a fee posted for `source_owner` is attributed to: the source
/// entry's boss as it stands when the transfer is processed.
pub open spec fn spec_attributed_boss(entries: Map<u64, FeeAccount>, source_owner: u64) -> u64
    recommends
        entries.contains_key(source_owner),
{
    entries[source_owner].boss
}

/// `owner`'s accumulated unclaimed fees, zero for an owner without an entry.
pub open spec fn spec_unclaimed_of(entries: Map<u64, FeeAccount>, owner: u64) -> int {
    if entries.contains_key(owner) {
        entries[owner].unclaimed_fees as int
    } else {
        0
    }
}

/// Destination-boss assignment: on first receipt the destination's entry is
/// re-attributed to the transfer's source owner.  Fee totals carry over (zero
/// for a fresh entry); the asset-shared bumps are inherited from the source
/// entry, the entry's own bump is the given one.
pub open spec fn spec_assign_destination(
    entries: Map<u64, FeeAccount>,
    source: FeeAccount,
    ctx: UpdateFeesCtx,
) -> Map<u64, FeeAccount> {
    let unclaimed = if entries.contains_key(ctx.destination_owner) {
        entries[ctx.destination_owner].unclaimed_fees
    } else {
        0
    };
    let claimed = if entries.contains_key(ctx.destination_owner) {
        entries[ctx.destination_owner].claimed_fees
    } else {
        0
    };
    entries.insert(
        ctx.destination_owner,
        FeeAccount {
            boss: ctx.source_owner,
            unclaimed_fees: unclaimed,
            claimed_fees: claimed,
            bump: ctx.destination_bump,
            redeem_mint_bump: source.redeem_mint_bump,
            extra_meta_bump: source.extra_meta_bump,
            pda_authority_bump: source.pda_authority_bump,
        },
    )
}

/// Source-exhaustion: a source that holds nothing any more is detached from
/// the attribution graph, its boss reset to the root sentinel.
pub open spec fn spec_detach_source(
    entries: Map<u64, FeeAccount>,
    source_owner: u64,
) -> Map<u64, FeeAccount>
    recommends
        entries.contains_key(source_owner),
{
    entries.insert(source_owner, FeeAccount { boss: ROOT_SENTINEL, ..entries[source_owner] })
}

/// Both boss rules of one transfer, in order: destination-boss assignment on
/// first receipt, then source detachment when the source is empty.
pub open spec fn spec_apply_boss_rules(
    entries: Map<u64, FeeAccount>,
    ctx: UpdateFeesCtx,
    amount_after_fee: u64,
) -> Map<u64, FeeAccount>
    recommends
        entries.contains_key(ctx.source_owner),
{
    let e1 = if first_receipt(ctx.destination_post_balance, amount_after_fee) {
        spec_assign_destination(entries, entries[ctx.source_owner], ctx)
    } else {
        entries
    };
    if ctx.source_post_balance == 0 {
        spec_detach_source(e1, ctx.source_owner)
    } else {
        e1
    }
}

/// A fee entry created on the spot for a boss seen for the first time:
/// attributed to the root, empty, inheriting the asset-shared bumps from the
/// source entry resolved in the same call.
pub open spec fn spec_fresh_boss_entry(boss_bump: u8, source: FeeAccount) -> FeeAccount {
    FeeAccount {
        boss: ROOT_SENTINEL,
        unclaimed_fees: 0,
        claimed_fees: 0,
        bump: boss_bump,
        redeem_mint_bump: source.redeem_mint_bump,
        extra_meta_bump: source.extra_meta_bump,
        pda_authority_bump: source.pda_authority_bump,
    }
}

/// The entry the fee is posted to: the boss's entry as the boss rules left
/// it, or a fresh one if that owner has none yet.
pub open spec fn spec_boss_entry(
    entries: Map<u64, FeeAccount>,
    boss: u64,
    boss_bump: u8,
    source: FeeAccount,
) -> FeeAccount {
    if entries.contains_key(boss) {
        entries[boss]
    } else {
        spec_fresh_boss_entry(boss_bump, source)
    }
}

/// Whether posting `fee` to the attributed boss would overflow that entry's
/// unclaimed-fee counter.
pub open spec fn spec_posting_overflows(
    entries: Map<u64, FeeAccount>,
    ctx: UpdateFeesCtx,
    fee: u64,
    amount_after_fee: u64,
) -> bool
    recommends
        entries.contains_key(ctx.source_owner),
{
    let source0 = entries[ctx.source_owner];
    let mid = spec_apply_boss_rules(entries, ctx, amount_after_fee);
    spec_boss_entry(mid, source0.boss, ctx.boss_bump, source0).unclaimed_fees + fee > u64::MAX
}

/// The ledger after one successful transfer update: the boss rules, then the
/// fee posted to the entry of the boss captured before any reset.
pub open spec fn spec_update_fees(
    entries: Map<u64, FeeAccount>,
    ctx: UpdateFeesCtx,
    fee: u64,
    amount_after_fee: u64,
) -> Map<u64, FeeAccount>
    recommends
        entries.contains_key(ctx.source_owner),
        !spec_posting_overflows(entries, ctx, fee, amount_after_fee),
{
    let source0 = entries[ctx.source_owner];
    let mid = spec_apply_boss_rules(entries, ctx, amount_after_fee);
    let target = spec_boss_entry(mid, source0.boss, ctx.boss_bump, source0);
    mid.insert(
        source0.boss,
        FeeAccount { unclaimed_fees: (target.unclaimed_fees + fee) as u64, ..target },
    )
}

/// The event a successful transfer update emits.
pub open spec fn spec_transfer_event(
    entries: Map<u64, FeeAccount>,
    ctx: UpdateFeesCtx,
    fee: u64,
    amount_after_fee: u64,
    mint: u64,
) -> TransferEvent
    recommends
        entries.contains_key(ctx.source_owner),
{
    let source0 = entries[ctx.source_owner];
    let mid = spec_apply_boss_rules(entries, ctx, amount_after_fee);
    let target = spec_boss_entry(mid, source0.boss, ctx.boss_bump, source0);
    TransferEvent {
        mint,
        source: ctx.source_owner,
        source_boss: mid[ctx.source_owner].boss,
        destination: ctx.destination_owner,
        destination_boss: if first_receipt(ctx.destination_post_balance, amount_after_fee) {
            Some(ctx.source_owner)
        } else {
            None
        },
        destination_token_account: ctx.destination_token_account,
        boss: source0.boss,
        boss_unclaimed_fee: (target.unclaimed_fees + fee) as u64,
    }
}

/// The boss-attribution state machine, run once per transfer by the
/// privileged path.
///
/// On first receipt the destination entry's boss becomes the source owner; a
/// source left empty is detached to the root sentinel; the fee is posted to
/// the entry of the boss the source had when the call began.  Entries touched
/// for the first time are created on the spot.  The call is all-or-nothing: a
/// missing source entry or an overflowing fee counter aborts it with the
/// ledger exactly as it was.
pub fn update_fees_handler(
    ledger: &mut FeeLedger,
    ctx: UpdateFeesCtx,
    fee: u64,
    amount_after_fee: u64,
) -> (result: Result<TransferEvent, TokenTransferHook>)
    requires
        old(ledger).wf(),
    ensures
        final(ledger).wf(),
        final(ledger).mint_spec() == old(ledger).mint_spec(),
        !old(ledger).entries().contains_key(ctx.source_owner) ==> result == Err::<
            TransferEvent,
            TokenTransferHook,
        >(TokenTransferHook::AccountNotInitialized) && final(ledger).entries() == old(
            ledger,
        ).entries(),
        old(ledger).entries().contains_key(ctx.source_owner) && spec_posting_overflows(
            old(ledger).entries(),
            ctx,
            fee,
            amount_after_fee,
        ) ==> result == Err::<TransferEvent, TokenTransferHook>(TokenTransferHook::Overflow)
            && final(ledger).entries() == old(ledger).entries(),
        old(ledger).entries().contains_key(ctx.source_owner) && !spec_posting_overflows(
            old(ledger).entries(),
            ctx,
            fee,
            amount_after_fee,
        ) ==> final(ledger).entries() == spec_update_fees(
            old(ledger).entries(),
            ctx,
            fee,
            amount_after_fee,
        ) && result == Ok::<TransferEvent, TokenTransferHook>(
            spec_transfer_event(
                old(ledger).entries(),
                ctx,
                fee,
                amount_after_fee,
                old(ledger).mint_spec(),
            ),
        ),
{
    let ghost e0: Map<u64, FeeAccount> = ledger.entries();
    let source0 = match ledger.get(ctx.source_owner) {
        Some(account) => account,
        None => {
            return Err(TokenTransferHook::AccountNotInitialized);
        },
    };
    let current_boss = source0.boss;

    // The posting is checked up front so that a failure commits nothing.
    // The boss rules never change any entry's unclaimed total, so the
    // counter the posting lands on already holds its final prior value.
    let prior_unclaimed = match ledger.get(current_boss) {
        Some(account) => account.unclaimed_fees,
        None => 0,
    };
    proof {
        let mid = spec_apply_boss_rules(e0, ctx, amount_after_fee);
        assert(spec_boss_entry(mid, current_boss, ctx.boss_bump, source0).unclaimed_fees
            == prior_unclaimed);
    }
    if fee > u64::MAX - prior_unclaimed {
        return Err(TokenTransferHook::Overflow);
    }

    if ctx.destination_post_balance == amount_after_fee {
        let (prior_u, prior_c) = match ledger.get(ctx.destination_owner) {
            Some(account) => (account.unclaimed_fees, account.claimed_fees),
            None => (0, 0),
        };
        ledger.set(
            ctx.destination_owner,
            FeeAccount {
                boss: ctx.source_owner,
                unclaimed_fees: prior_u,
                claimed_fees: prior_c,
                bump: ctx.destination_bump,
                redeem_mint_bump: source0.redeem_mint_bump,
                extra_meta_bump: source0.extra_meta_bump,
                pda_authority_bump: source0.pda_authority_bump,
            },
        );
    }

    if ctx.source_post_balance == 0 {
        let source_now = match ledger.get(ctx.source_owner) {
            Some(account) => account,
            None => vstd::pervasive::unreached(),
        };
        ledger.set(ctx.source_owner, FeeAccount { boss: ROOT_SENTINEL, ..source_now });
    }
    proof {
        assert(ledger.entries() =~= spec_apply_boss_rules(e0, ctx, amount_after_fee));
    }

    let target = match ledger.get(current_boss) {
        Some(account) => account,
        None => FeeAccount {
            boss: ROOT_SENTINEL,
            unclaimed_fees: 0,
            claimed_fees: 0,
            bump: ctx.boss_bump,
            redeem_mint_bump: source0.redeem_mint_bump,
            extra_meta_bump: source0.extra_meta_bump,
            pda_authority_bump: source0.pda_authority_bump,
        },
    };
    let posted = FeeAccount { unclaimed_fees: target.unclaimed_fees + fee, ..target };
    ledger.set(current_boss, posted);
    proof {
        assert(ledger.entries() =~= spec_update_fees(e0, ctx, fee, amount_after_fee));
    }

    let source_boss_now = match ledger.get(ctx.source_owner) {
        Some(account) => account.boss,
        None => vstd::pervasive::unreached(),
    };
    Ok(
        TransferEvent {
            mint: ledger.mint(),
            source: ctx.source_owner,
            source_boss: source_boss_now,
            destination: ctx.destination_owner,
            destination_boss: if ctx.destination_post_balance == amount_after_fee {
                Some(ctx.source_owner)
            } else {
                None
            },
            destination_token_account: ctx.destination_token_account,
            boss: current_boss,
            boss_unclaimed_fee: posted.unclaimed_fees,
        },
    )
}

/// On first receipt the destination entry's boss becomes the source's owner
/// — and the assignment is idempotently re-derivable: deriving it a second
/// time from the same source entry changes nothing further.
pub proof fn lemma_destination_assignment_idempotent(
    entries: Map<u64, FeeAccount>,
    source: FeeAccount,
    ctx: UpdateFeesCtx,
)
    ensures
        spec_assign_destination(entries, source, ctx)[ctx.destination_owner].boss
            == ctx.source_owner,
        spec_assign_destination(spec_assign_destination(entries, source, ctx), source, ctx)
            == spec_assign_destination(entries, source, ctx),
{
    assert(spec_assign_destination(spec_assign_destination(entries, source, ctx), source, ctx)
        =~= spec_assign_destination(entries, source, ctx));
}

/// A transfer that empties its source detaches it: the source entry's boss
/// is the root sentinel afterwards, a following transfer from the same
/// source attributes its fee to the root, and the boss the source had
/// before earns nothing further from that source.
pub proof fn lemma_source_exhaustion_detaches(
    entries: Map<u64, FeeAccount>,
    ctx1: UpdateFeesCtx,
    fee1: u64,
    amount_after_fee1: u64,
    ctx2: UpdateFeesCtx,
    fee2: u64,
    amount_after_fee2: u64,
)
    requires
        entries.contains_key(ctx1.source_owner),
        ctx1.source_post_balance == 0,
        ctx2.source_owner == ctx1.source_owner,
        !spec_posting_overflows(entries, ctx1, fee1, amount_after_fee1),
    ensures
        ({
            let m1 = spec_update_fees(entries, ctx1, fee1, amount_after_fee1);
            let m2 = spec_update_fees(m1, ctx2, fee2, amount_after_fee2);
            let old_boss = spec_attributed_boss(entries, ctx1.source_owner);
            &&& m1.contains_key(ctx1.source_owner)
            &&& spec_attributed_boss(m1, ctx1.source_owner) == ROOT_SENTINEL
            &&& old_boss != ROOT_SENTINEL ==> spec_unclaimed_of(m2, old_boss)
                == spec_unclaimed_of(m1, old_boss)
            &&& !spec_posting_overflows(m1, ctx2, fee2, amount_after_fee2)
                ==> spec_unclaimed_of(m2, ROOT_SENTINEL) == spec_unclaimed_of(m1, ROOT_SENTINEL)
                + fee2
        }),
{
}

} // verus!
