use token_transfer_hook::create_mint::create_mint_handler;
use token_transfer_hook::error::TokenTransferHook;
use token_transfer_hook::fees::{calculate_fee, FeeSchedule, BPS_DENOMINATOR};

fn schedule(fee_basis_pts: u16, max_fee: u64) -> Option<FeeSchedule> {
    Some(FeeSchedule { fee_basis_pts, max_fee })
}

#[test]
fn fee_under_cap() {
    assert_eq!(calculate_fee(&schedule(50, 1000), 100_000), 500);
}

#[test]
fn fee_hits_cap() {
    assert_eq!(calculate_fee(&schedule(50, 1000), 1_000_000), 1000);
}

#[test]
fn fee_rounds_down() {
    // 99 * 50 / 10000 = 0.495, rounded down.
    assert_eq!(calculate_fee(&schedule(50, 1000), 99), 0);
    // 333 * 100 / 10000 = 3.33, rounded down.
    assert_eq!(calculate_fee(&schedule(100, 1000), 333), 3);
}

#[test]
fn fee_without_schedule_is_zero() {
    assert_eq!(calculate_fee(&None, 123_456), 0);
}

#[test]
fn fee_on_zero_amount_is_zero() {
    assert_eq!(calculate_fee(&schedule(50, 1000), 0), 0);
}

#[test]
fn fee_at_full_rate_is_amount_up_to_cap() {
    assert_eq!(calculate_fee(&schedule(10_000, u64::MAX), 77_777), 77_777);
    assert_eq!(calculate_fee(&schedule(10_000, 10), 77_777), 10);
}

#[test]
fn fee_on_largest_amount() {
    // u64::MAX * 10000 / 10000 capped by the cap.
    assert_eq!(calculate_fee(&schedule(10_000, u64::MAX), u64::MAX), u64::MAX);
    assert_eq!(calculate_fee(&schedule(1, u64::MAX), u64::MAX), u64::MAX / 10_000);
}

#[test]
fn schedule_rejects_rate_above_full() {
    assert_eq!(
        FeeSchedule::new(10_001, 5),
        Err(TokenTransferHook::InvalidFeeRate)
    );
    assert_eq!(
        FeeSchedule::new(10_000, 5),
        Ok(FeeSchedule { fee_basis_pts: 10_000, max_fee: 5 })
    );
    assert_eq!(BPS_DENOMINATOR, 10_000);
}

#[test]
fn create_mint_builds_config() {
    let config = create_mint_handler(9, 6, 50, 1000, 11, 22, 254, 253, 252).unwrap();
    assert_eq!(config.mint, 9);
    assert_eq!(config.decimals, 6);
    assert_eq!(
        config.fee_schedule,
        Some(FeeSchedule { fee_basis_pts: 50, max_fee: 1000 })
    );
    assert_eq!(config.program_authority, 11);
    assert_eq!(config.external_update_authority, 22);
    assert_eq!(config.pda_authority_bump, 254);
    assert_eq!(config.extra_meta_bump, 253);
    assert_eq!(config.redeem_mint_bump, 252);
}

#[test]
fn create_mint_rejects_bad_rate() {
    assert_eq!(
        create_mint_handler(9, 6, 10_001, 1000, 11, 22, 254, 253, 252),
        Err(TokenTransferHook::InvalidFeeRate)
    );
}
