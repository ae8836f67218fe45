use token_transfer_hook::error::TokenTransferHook;
use token_transfer_hook::ledger::FeeLedger;
use token_transfer_hook::state::{AssetConfig, FeeAccount, FeeUpdateEvent, ROOT_SENTINEL};
use token_transfer_hook::update_fee_account::update_fee_account_handler;
use token_transfer_hook::update_fees::{update_fees_handler, UpdateFeesCtx};

const MINT: u64 = 9;
const ALICE: u64 = 100;
const BOB: u64 = 200;
const CAROL: u64 = 7;

fn entry(boss: u64, unclaimed: u64, claimed: u64) -> FeeAccount {
    FeeAccount {
        boss,
        unclaimed_fees: unclaimed,
        claimed_fees: claimed,
        bump: 1,
        redeem_mint_bump: 2,
        extra_meta_bump: 3,
        pda_authority_bump: 4,
    }
}

fn seeded_ledger() -> FeeLedger {
    let mut ledger = FeeLedger::new(MINT);
    ledger.set(ALICE, entry(CAROL, 0, 0));
    ledger
}

fn ctx(source: u64, source_post: u64, destination: u64, destination_post: u64) -> UpdateFeesCtx {
    UpdateFeesCtx {
        source_owner: source,
        source_post_balance: source_post,
        destination_owner: destination,
        destination_post_balance: destination_post,
        destination_token_account: 555,
        destination_bump: 8,
        boss_bump: 9,
    }
}

fn config() -> AssetConfig {
    AssetConfig {
        mint: MINT,
        decimals: 6,
        program_authority: 11,
        external_update_authority: 22,
        fee_schedule: None,
        pda_authority_bump: 4,
        extra_meta_bump: 3,
        redeem_mint_bump: 2,
    }
}

#[test]
fn first_receipt_assigns_destination_boss() {
    let mut ledger = seeded_ledger();
    let event =
        update_fees_handler(&mut ledger, ctx(ALICE, 5000, BOB, 99_500), 500, 99_500).unwrap();
    let destination = ledger.get(BOB).unwrap();
    assert_eq!(destination.boss, ALICE);
    assert_eq!(destination.unclaimed_fees, 0);
    assert_eq!(destination.bump, 8);
    // The asset-shared bumps are inherited from the source entry.
    assert_eq!(destination.redeem_mint_bump, 2);
    assert_eq!(destination.extra_meta_bump, 3);
    assert_eq!(destination.pda_authority_bump, 4);
    assert_eq!(event.destination_boss, Some(ALICE));
    assert_eq!(event.mint, MINT);
    assert_eq!(event.source, ALICE);
    assert_eq!(event.destination, BOB);
    assert_eq!(event.destination_token_account, 555);
}

#[test]
fn later_receipt_leaves_destination_alone() {
    let mut ledger = seeded_ledger();
    ledger.set(BOB, entry(42, 17, 3));
    // Bob already held 1000 before receiving 99_500.
    let event =
        update_fees_handler(&mut ledger, ctx(ALICE, 5000, BOB, 100_500), 500, 99_500).unwrap();
    assert_eq!(ledger.get(BOB).unwrap(), entry(42, 17, 3));
    assert_eq!(event.destination_boss, None);
}

#[test]
fn emptied_source_detaches_to_root() {
    let mut ledger = seeded_ledger();
    let event = update_fees_handler(&mut ledger, ctx(ALICE, 0, BOB, 99_500), 500, 99_500).unwrap();
    assert_eq!(ledger.get(ALICE).unwrap().boss, ROOT_SENTINEL);
    assert_eq!(event.source_boss, ROOT_SENTINEL);
    // The fee still went to the boss Alice had when the transfer began.
    assert_eq!(event.boss, CAROL);
    assert_eq!(ledger.get(CAROL).unwrap().unclaimed_fees, 500);
}

#[test]
fn part_spent_source_keeps_boss() {
    let mut ledger = seeded_ledger();
    let event =
        update_fees_handler(&mut ledger, ctx(ALICE, 4000, BOB, 99_500), 500, 99_500).unwrap();
    assert_eq!(ledger.get(ALICE).unwrap().boss, CAROL);
    assert_eq!(event.source_boss, CAROL);
}

#[test]
fn fee_posts_to_boss_entry_created_on_the_spot() {
    let mut ledger = seeded_ledger();
    assert!(ledger.get(CAROL).is_none());
    update_fees_handler(&mut ledger, ctx(ALICE, 4000, BOB, 1), 500, 99_500).unwrap();
    let boss = ledger.get(CAROL).unwrap();
    assert_eq!(boss.unclaimed_fees, 500);
    assert_eq!(boss.claimed_fees, 0);
    assert_eq!(boss.boss, ROOT_SENTINEL);
    assert_eq!(boss.bump, 9);
    assert_eq!(boss.redeem_mint_bump, 2);
    assert_eq!(boss.extra_meta_bump, 3);
    assert_eq!(boss.pda_authority_bump, 4);
}

#[test]
fn detached_source_no_longer_feeds_old_boss() {
    let mut ledger = seeded_ledger();
    // First transfer empties Alice and detaches her from Carol.
    update_fees_handler(&mut ledger, ctx(ALICE, 0, BOB, 99_500), 500, 99_500).unwrap();
    assert_eq!(ledger.get(CAROL).unwrap().unclaimed_fees, 500);
    // A later transfer from Alice posts its fee to the root, not to Carol.
    let event = update_fees_handler(&mut ledger, ctx(ALICE, 100, BOB, 300), 40, 260).unwrap();
    assert_eq!(event.boss, ROOT_SENTINEL);
    assert_eq!(ledger.get(CAROL).unwrap().unclaimed_fees, 500);
    assert_eq!(ledger.get(ROOT_SENTINEL).unwrap().unclaimed_fees, 40);
}

#[test]
fn missing_source_entry_is_rejected() {
    let mut ledger = FeeLedger::new(MINT);
    let result = update_fees_handler(&mut ledger, ctx(ALICE, 0, BOB, 99_500), 500, 99_500);
    assert_eq!(result, Err(TokenTransferHook::AccountNotInitialized));
    assert!(ledger.get(ALICE).is_none());
    assert!(ledger.get(BOB).is_none());
}

#[test]
fn fee_posting_overflow_aborts_whole_update() {
    let mut ledger = seeded_ledger();
    ledger.set(CAROL, entry(ROOT_SENTINEL, u64::MAX, 0));
    // The transfer would also assign Bob's boss and detach Alice; the
    // overflow aborts all of it.
    let result = update_fees_handler(&mut ledger, ctx(ALICE, 0, BOB, 99_500), 1, 99_500);
    assert_eq!(result, Err(TokenTransferHook::Overflow));
    assert_eq!(ledger.get(CAROL).unwrap().unclaimed_fees, u64::MAX);
    assert_eq!(ledger.get(ALICE).unwrap().boss, CAROL);
    assert!(ledger.get(BOB).is_none());
}

#[test]
fn fee_posting_at_exact_capacity_succeeds() {
    let mut ledger = seeded_ledger();
    ledger.set(CAROL, entry(ROOT_SENTINEL, u64::MAX - 500, 0));
    update_fees_handler(&mut ledger, ctx(ALICE, 4000, BOB, 1), 500, 99_500).unwrap();
    assert_eq!(ledger.get(CAROL).unwrap().unclaimed_fees, u64::MAX);
}

#[test]
fn zero_fee_transfer_still_runs_boss_rules() {
    let mut ledger = seeded_ledger();
    let event = update_fees_handler(&mut ledger, ctx(ALICE, 0, BOB, 250), 0, 250).unwrap();
    assert_eq!(ledger.get(BOB).unwrap().boss, ALICE);
    assert_eq!(ledger.get(ALICE).unwrap().boss, ROOT_SENTINEL);
    assert_eq!(event.boss_unclaimed_fee, 0);
}

#[test]
fn external_update_from_stranger_is_rejected() {
    let mut ledger = seeded_ledger();
    let result = update_fee_account_handler(
        &mut ledger,
        &config(),
        23, // not the configured external update authority
        ALICE,
        Some(BOB),
        5,
        7,
        13,
    );
    assert_eq!(result, Err(TokenTransferHook::Unauthorized));
    assert_eq!(ledger.get(ALICE).unwrap(), entry(CAROL, 0, 0));
}

#[test]
fn external_boss_reset_clears_totals() {
    let mut ledger = seeded_ledger();
    ledger.set(ALICE, entry(CAROL, 41, 12));
    let event =
        update_fee_account_handler(&mut ledger, &config(), 22, ALICE, Some(BOB), 5, 7, 13).unwrap();
    let updated = ledger.get(ALICE).unwrap();
    assert_eq!(updated.boss, BOB);
    assert_eq!(updated.unclaimed_fees, 0);
    assert_eq!(updated.claimed_fees, 0);
    assert_eq!(
        event,
        FeeUpdateEvent { address: ALICE, boss: BOB, unclaimed_fees: 0, claimed_fees: 0 }
    );
}

#[test]
fn external_additive_credits() {
    let mut ledger = seeded_ledger();
    ledger.set(ALICE, entry(CAROL, 41, 12));
    let event =
        update_fee_account_handler(&mut ledger, &config(), 22, ALICE, None, 5, 7, 13).unwrap();
    let updated = ledger.get(ALICE).unwrap();
    assert_eq!(updated.boss, CAROL);
    assert_eq!(updated.claimed_fees, 17);
    assert_eq!(updated.unclaimed_fees, 48);
    assert_eq!(
        event,
        FeeUpdateEvent { address: ALICE, boss: CAROL, unclaimed_fees: 48, claimed_fees: 17 }
    );
}

#[test]
fn external_update_creates_missing_entry() {
    let mut ledger = FeeLedger::new(MINT);
    update_fee_account_handler(&mut ledger, &config(), 22, BOB, None, 0, 30, 13).unwrap();
    let created = ledger.get(BOB).unwrap();
    assert_eq!(created.boss, ROOT_SENTINEL);
    assert_eq!(created.unclaimed_fees, 30);
    assert_eq!(created.claimed_fees, 0);
    assert_eq!(created.bump, 13);
    assert_eq!(created.redeem_mint_bump, 2);
    assert_eq!(created.extra_meta_bump, 3);
    assert_eq!(created.pda_authority_bump, 4);
}

#[test]
fn external_credit_overflow_changes_nothing() {
    let mut ledger = seeded_ledger();
    ledger.set(ALICE, entry(CAROL, u64::MAX, 12));
    let result = update_fee_account_handler(&mut ledger, &config(), 22, ALICE, None, 5, 1, 13);
    assert_eq!(result, Err(TokenTransferHook::Overflow));
    assert_eq!(ledger.get(ALICE).unwrap(), entry(CAROL, u64::MAX, 12));
}

#[test]
fn self_transfer_first_receipt_points_source_at_itself() {
    let mut ledger = seeded_ledger();
    // Source and destination are the same owner; the post-transfer balance
    // happens to equal the delivered amount, so the assignment rule fires,
    // while the fee still goes to the boss captured at the start.
    let event =
        update_fees_handler(&mut ledger, ctx(ALICE, 99_500, ALICE, 99_500), 500, 99_500).unwrap();
    assert_eq!(ledger.get(ALICE).unwrap().boss, ALICE);
    assert_eq!(event.boss, CAROL);
    assert_eq!(ledger.get(CAROL).unwrap().unclaimed_fees, 500);
}

#[test]
fn transfer_to_own_boss_assigns_then_posts() {
    let mut ledger = seeded_ledger();
    // Alice pays her own boss, who receives on a fresh holding: the boss's
    // entry is first re-attributed to Alice, then earns the fee.
    let event =
        update_fees_handler(&mut ledger, ctx(ALICE, 400, CAROL, 99_500), 500, 99_500).unwrap();
    let carol = ledger.get(CAROL).unwrap();
    assert_eq!(carol.boss, ALICE);
    assert_eq!(carol.unclaimed_fees, 500);
    assert_eq!(event.destination_boss, Some(ALICE));
    assert_eq!(event.boss, CAROL);
}
