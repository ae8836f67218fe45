use token_transfer_hook::error::TokenTransferHook;
use token_transfer_hook::redeem_mint::{redeem_mint_handler, RedeemMintCtx};
use token_transfer_hook::state::RedeemTokenAccount;

fn state(amount: u64) -> RedeemMintCtx {
    RedeemMintCtx {
        payer_redeem_mint: RedeemTokenAccount { initialized: true, amount, frozen: true },
        redeem_supply: amount + 300,
        payer_mint_withheld: 120,
        pda_authority_mint_withheld: 80,
        mint_withheld: 400,
        pda_authority_mint_amount: 50,
        payer_mint_amount: 1000,
    }
}

#[test]
fn zero_balance_is_a_noop() {
    let mut s = state(0);
    let before = s;
    assert_eq!(redeem_mint_handler(&mut s), Ok(0));
    assert_eq!(s, before);
}

#[test]
fn redemption_conserves_value() {
    let mut s = state(500);
    let burned = redeem_mint_handler(&mut s).unwrap();
    assert_eq!(burned, 500);
    // Burned equals released, one to one.
    assert_eq!(state(500).redeem_supply - s.redeem_supply, 500);
    assert_eq!(s.payer_mint_amount - state(500).payer_mint_amount, 500);
    // The holding was thawed, emptied, and left thawed.
    assert_eq!(
        s.payer_redeem_mint,
        RedeemTokenAccount { initialized: true, amount: 0, frozen: false }
    );
    // Every withheld fee was harvested and withdrawn, then the release paid
    // out of custody: 50 + (400 + 120 + 80) - 500.
    assert_eq!(s.payer_mint_withheld, 0);
    assert_eq!(s.pda_authority_mint_withheld, 0);
    assert_eq!(s.mint_withheld, 0);
    assert_eq!(s.pda_authority_mint_amount, 150);
}

#[test]
fn short_custody_aborts_everything() {
    let mut s = state(701);
    // Custody after withdrawal holds 50 + 600 = 650 < 701.
    let before = s;
    assert_eq!(
        redeem_mint_handler(&mut s),
        Err(TokenTransferHook::InsufficientFunds)
    );
    assert_eq!(s, before);
}

#[test]
fn exact_custody_redeems_fully() {
    let mut s = state(650);
    assert_eq!(redeem_mint_handler(&mut s), Ok(650));
    assert_eq!(s.pda_authority_mint_amount, 0);
    assert_eq!(s.payer_mint_amount, 1650);
}

#[test]
fn harvest_overflow_aborts_everything() {
    let mut s = state(500);
    s.mint_withheld = u64::MAX;
    let before = s;
    assert_eq!(redeem_mint_handler(&mut s), Err(TokenTransferHook::Overflow));
    assert_eq!(s, before);
}

#[test]
fn withdraw_overflow_aborts_everything() {
    let mut s = state(500);
    s.mint_withheld = u64::MAX - 150;
    s.payer_mint_withheld = 100;
    s.pda_authority_mint_withheld = 50;
    s.pda_authority_mint_amount = 1;
    let before = s;
    assert_eq!(redeem_mint_handler(&mut s), Err(TokenTransferHook::Overflow));
    assert_eq!(s, before);
}

#[test]
fn release_overflow_aborts_everything() {
    let mut s = state(500);
    s.payer_mint_amount = u64::MAX;
    let before = s;
    assert_eq!(redeem_mint_handler(&mut s), Err(TokenTransferHook::Overflow));
    assert_eq!(s, before);
}
