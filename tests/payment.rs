use std::str::FromStr;

use sakura_fee_router::config::{
    percolator_insurance_vault, percolator_vault_authority, sakura_mint, token_program_id,
};
use sakura_fee_router::{
    process_payment, split_amount, split_payment, ErrorCode, ProcessPayment, Pubkey, Split,
    Subscription, TokenAccount, BPS_DENOMINATOR, BURN_BPS, INSURANCE_BPS, SUBSCRIPTION_TIME,
};

fn key(fill: u8) -> Pubkey {
    Pubkey::new_from_array([fill; 32])
}

fn key_of(text: &str) -> Pubkey {
    Pubkey::new_from_array(anchor_lang::prelude::Pubkey::from_str(text).unwrap().to_bytes())
}

fn valid_ctx(subscription: Option<Subscription>) -> ProcessPayment {
    let user = key(7);
    ProcessPayment {
        user,
        user_token_account: TokenAccount {
            key: key(8),
            mint: sakura_mint(),
            owner: user,
            program_owner: token_program_id(),
        },
        insurance_vault: TokenAccount {
            key: percolator_insurance_vault(),
            mint: sakura_mint(),
            owner: percolator_vault_authority(),
            program_owner: token_program_id(),
        },
        mint: sakura_mint(),
        subscription,
    }
}

fn existing(expires_at: i64) -> Option<Subscription> {
    Some(Subscription { user: key(7), expires_at })
}

fn assert_record(ctx: &ProcessPayment, expected: Option<(Pubkey, i64)>) {
    match (&ctx.subscription, expected) {
        (None, None) => {}
        (Some(s), Some((user, expires_at))) => {
            assert_eq!(s.user, user);
            assert_eq!(s.expires_at, expires_at);
        }
        _ => panic!("record differs"),
    }
}

fn refused_with(mut ctx: ProcessPayment, amount: u64, now: i64, expected: ErrorCode) {
    let before = ctx.subscription.map(|s| (s.user, s.expires_at));
    assert_eq!(process_payment(&mut ctx, amount, now), Err(expected));
    assert_record(&ctx, before);
}

#[test]
fn configured_weights_make_a_whole() {
    assert_eq!(INSURANCE_BPS + BURN_BPS, BPS_DENOMINATOR);
    assert_eq!(SUBSCRIPTION_TIME, 2_592_000);
}

#[test]
fn split_even_thousand() {
    let expected = Split { insurance_amount: 500, burn_amount: 500 };
    assert_eq!(split_amount(1000, 5000, 5000), Ok(expected));
    assert_eq!(split_payment(1000), Ok(expected));
}

#[test]
fn split_odd_three_rounds_custodial_share_down() {
    assert_eq!(split_payment(3), Ok(Split { insurance_amount: 1, burn_amount: 2 }));
}

#[test]
fn split_one_goes_to_burn() {
    assert_eq!(split_payment(1), Ok(Split { insurance_amount: 0, burn_amount: 1 }));
}

#[test]
fn split_conserves_amount() {
    for amount in [1u64, 2, 3, 7, 999, 1001, 123_456_789, u64::MAX / 5000] {
        let s = split_payment(amount).unwrap();
        assert_eq!(s.insurance_amount + s.burn_amount, amount);
        assert_eq!(s.insurance_amount, amount * 5000 / 10_000);
    }
}

#[test]
fn split_uneven_weights() {
    assert_eq!(split_amount(10, 3000, 7000), Ok(Split { insurance_amount: 3, burn_amount: 7 }));
    assert_eq!(split_amount(9, 10_000, 0), Ok(Split { insurance_amount: 9, burn_amount: 0 }));
    assert_eq!(split_amount(9, 0, 10_000), Ok(Split { insurance_amount: 0, burn_amount: 9 }));
}

#[test]
fn split_invalid_weights_refused() {
    assert_eq!(split_amount(1000, 6000, 5000), Err(ErrorCode::InvalidSplit));
    assert_eq!(split_amount(1000, 4999, 5000), Err(ErrorCode::InvalidSplit));
    assert_eq!(split_amount(0, 6000, 5000), Err(ErrorCode::InvalidSplit));
    assert_eq!(split_amount(1000, u64::MAX, 10_001), Err(ErrorCode::InvalidSplit));
}

#[test]
fn split_zero_amount_refused() {
    assert_eq!(split_amount(0, 5000, 5000), Err(ErrorCode::InvalidAmount));
    assert_eq!(split_payment(0), Err(ErrorCode::InvalidAmount));
}

#[test]
fn split_product_overflow_refused() {
    assert_eq!(split_payment(u64::MAX), Err(ErrorCode::ArithmeticOverflow));
    assert_eq!(split_payment(u64::MAX / 5000 + 1), Err(ErrorCode::ArithmeticOverflow));
}

#[test]
fn renewal_before_expiry_stacks() {
    let mut ctx = valid_ctx(existing(1_000_000));
    assert_eq!(
        process_payment(&mut ctx, 1000, 900_000),
        Ok(Split { insurance_amount: 500, burn_amount: 500 })
    );
    assert_record(&ctx, Some((key(7), 3_592_000)));
}

#[test]
fn renewal_after_expiry_restarts() {
    let mut ctx = valid_ctx(existing(1_000_000));
    assert_eq!(
        process_payment(&mut ctx, 3, 2_000_000),
        Ok(Split { insurance_amount: 1, burn_amount: 2 })
    );
    assert_record(&ctx, Some((key(7), 4_592_000)));
}

#[test]
fn renewal_at_expiry_stacks() {
    let mut ctx = valid_ctx(existing(1_000_000));
    assert!(process_payment(&mut ctx, 10, 1_000_000).is_ok());
    assert_record(&ctx, Some((key(7), 3_592_000)));
}

#[test]
fn first_payment_creates_record() {
    let mut ctx = valid_ctx(None);
    assert!(process_payment(&mut ctx, 1000, 1_700_000_000).is_ok());
    assert_record(&ctx, Some((key(7), 1_700_000_000 + 2_592_000)));
}

#[test]
fn repeated_payments_accumulate() {
    let mut ctx = valid_ctx(None);
    assert!(process_payment(&mut ctx, 1000, 100).is_ok());
    assert!(process_payment(&mut ctx, 1000, 200).is_ok());
    assert_record(&ctx, Some((key(7), 100 + 2 * 2_592_000)));
}

#[test]
fn zero_payment_changes_nothing() {
    refused_with(valid_ctx(existing(1_000_000)), 0, 900_000, ErrorCode::InvalidAmount);
    refused_with(valid_ctx(None), 0, 900_000, ErrorCode::InvalidAmount);
}

#[test]
fn wrong_payer_owner_refused() {
    let mut ctx = valid_ctx(existing(5));
    ctx.user_token_account.owner = key(9);
    refused_with(ctx, 1000, 10, ErrorCode::InvalidOwner);
}

#[test]
fn wrong_payer_mint_refused() {
    let mut ctx = valid_ctx(existing(5));
    ctx.user_token_account.mint = key(9);
    refused_with(ctx, 1000, 10, ErrorCode::InvalidMint);
}

#[test]
fn wrong_vault_address_refused() {
    let mut ctx = valid_ctx(existing(5));
    ctx.insurance_vault.key = key(9);
    refused_with(ctx, 1000, 10, ErrorCode::InvalidVault);
}

#[test]
fn wrong_vault_mint_refused() {
    let mut ctx = valid_ctx(None);
    ctx.insurance_vault.mint = key(9);
    refused_with(ctx, 1000, 10, ErrorCode::InvalidVaultMint);
}

#[test]
fn wrong_vault_program_refused() {
    let mut ctx = valid_ctx(None);
    ctx.insurance_vault.program_owner = key(9);
    refused_with(ctx, 1000, 10, ErrorCode::InvalidVaultOwner);
}

#[test]
fn wrong_vault_authority_refused() {
    let mut ctx = valid_ctx(None);
    ctx.insurance_vault.owner = key(9);
    refused_with(ctx, 1000, 10, ErrorCode::InvalidVaultAuthority);
}

#[test]
fn wrong_mint_account_refused() {
    let mut ctx = valid_ctx(None);
    ctx.mint = key(9);
    refused_with(ctx, 1000, 10, ErrorCode::InvalidMint);
}

#[test]
fn record_of_another_user_refused() {
    let mut ctx = valid_ctx(None);
    ctx.subscription = Some(Subscription { user: key(9), expires_at: 5 });
    refused_with(ctx, 1000, 10, ErrorCode::InvalidSubscription);
}

#[test]
fn zero_amount_checked_before_accounts() {
    let mut ctx = valid_ctx(None);
    ctx.mint = key(9);
    refused_with(ctx, 0, 10, ErrorCode::InvalidAmount);
}

#[test]
fn split_overflow_refused_in_payment() {
    refused_with(valid_ctx(existing(5)), u64::MAX, 10, ErrorCode::ArithmeticOverflow);
}

#[test]
fn expiry_overflow_refused() {
    refused_with(valid_ctx(existing(i64::MAX - 10)), 1000, 10, ErrorCode::ArithmeticOverflow);
    refused_with(valid_ctx(None), 1000, i64::MAX - 2_591_999, ErrorCode::ArithmeticOverflow);
    let mut ctx = valid_ctx(None);
    assert!(process_payment(&mut ctx, 1000, i64::MAX - 2_592_000).is_ok());
    assert_record(&ctx, Some((key(7), i64::MAX)));
}

#[test]
fn subscription_renew_directly() {
    let mut s = Subscription::zeroed();
    assert_eq!(s.user, key(0));
    assert_eq!(s.renew(key(3), 50), Ok(()));
    assert_eq!(s.user, key(3));
    assert_eq!(s.expires_at, 50 + 2_592_000);
    let mut lapsed = Subscription { user: key(3), expires_at: i64::MAX };
    assert_eq!(lapsed.renew(key(4), 0), Err(ErrorCode::ArithmeticOverflow));
    assert_eq!(lapsed.user, key(3));
    assert_eq!(lapsed.expires_at, i64::MAX);
}

#[test]
fn configured_keys_match_their_text() {
    assert_eq!(sakura_mint(), key_of("EWiVNxCqNatzV2paBHyfKUwGLnk7WKs9uZTA5jkTpump"));
    assert_eq!(
        percolator_insurance_vault(),
        key_of("63juJmvm1XHCHveWv9WdanxqJX6tD6DLFTZD7dvH12dc")
    );
    assert_eq!(percolator_vault_authority(), key_of("11111111111111111111111111111111"));
}

#[test]
fn token_program_id_is_spl_token() {
    let id = token_program_id();
    assert_eq!(id, key_of("TokenkegQfeZyiNwAJbNbGKPFXCWuBvf9Ss623VQ5DA"));
    assert_ne!(id, key(0));
}

#[test]
fn keys_compare_by_bytes() {
    let mut bytes = [1u8; 32];
    let a = Pubkey::new_from_array(bytes);
    bytes[31] = 2;
    let b = Pubkey::new_from_array(bytes);
    assert!(a.same_as(&a));
    assert!(!a.same_as(&b));
    assert_eq!(b.to_bytes(), bytes);
}

#[test]
fn error_messages() {
    assert_eq!(ErrorCode::InvalidAmount.message(), "Payment amount must be greater than zero");
    assert_eq!(
        ErrorCode::InvalidSplit.message(),
        "Invalid split percentages, must sum to 10000 BPS"
    );
    assert_eq!(ErrorCode::ArithmeticOverflow.message(), "Arithmetic overflow");
}
