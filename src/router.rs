use crate::config::{
    insurance_vault_bytes, percolator_insurance_vault, percolator_vault_authority, sakura_mint,
    sakura_mint_bytes, token_program_bytes, token_program_id, vault_authority_bytes,
    BPS_DENOMINATOR, BURN_BPS, INSURANCE_BPS,
};
use crate::error::ErrorCode;
use crate::pubkey::Pubkey;
use crate::split::{split_amount, split_outcome, Split};
use crate::config::SUBSCRIPTION_TIME;
use crate::subscription::{renewed_expiry, Subscription};
use vstd::prelude::*;

verus! {

/// What a payment needs to know of a token account.
#[derive(Clone, Copy, Debug)]
pub struct TokenAccount {
    /// The account's own address.
    pub key: Pubkey,
    /// The token the account holds.
    pub mint: Pubkey,
    /// The authority that may move the account's tokens.
    pub owner: Pubkey,
    /// The program that owns the account's storage.
    pub program_owner: Pubkey,
}

/// The accounts of one payment: the paying user, their token account, the
/// custodial vault, the token mint and the user's subscription record, absent
/// when the user has never paid.
#[derive(Clone, Copy, Debug)]
pub struct ProcessPayment {
    pub user: Pubkey,
    pub user_token_account: TokenAccount,
    pub insurance_vault: TokenAccount,
    pub mint: Pubkey,
    pub subscription: Option<Subscription>,
}

/// The first account check that fails, in the order they are made.
pub open spec fn account_error(ctx: ProcessPayment) -> Option<ErrorCode> {
    if ctx.user_token_account.owner@ != ctx.user@ {
        Some(ErrorCode::InvalidOwner)
    } else if ctx.user_token_account.mint@ != sakura_mint_bytes() {
        Some(ErrorCode::InvalidMint)
    } else if ctx.insurance_vault.key@ != insurance_vault_bytes() {
        Some(ErrorCode::InvalidVault)
    } else if ctx.insurance_vault.mint@ != sakura_mint_bytes() {
        Some(ErrorCode::InvalidVaultMint)
    } else if ctx.insurance_vault.program_owner@ != token_program_bytes() {
        Some(ErrorCode::InvalidVaultOwner)
    } else if ctx.insurance_vault.owner@ != vault_authority_bytes() {
        Some(ErrorCode::InvalidVaultAuthority)
    } else if ctx.mint@ != sakura_mint_bytes() {
        Some(ErrorCode::InvalidMint)
    } else if ctx.subscription is Some && ctx.subscription->Some_0.user@ != ctx.user@ {
        Some(ErrorCode::InvalidSubscription)
    } else {
        None
    }
}

/// The expiry a record holds before the payment: zero for a new record.
pub open spec fn previous_expiry(subscription: Option<Subscription>) -> i64 {
    match subscription {
        Some(s) => s.expires_at,
        None => 0,
    }
}

/// Why a payment of `amount` at `current_time` is refused, if it is.
pub open spec fn payment_error(ctx: ProcessPayment, amount: u64, current_time: i64) -> Option<
    ErrorCode,
> {
    if INSURANCE_BPS + BURN_BPS != BPS_DENOMINATOR {
        Some(ErrorCode::InvalidSplit)
    } else if amount == 0 {
        Some(ErrorCode::InvalidAmount)
    } else if account_error(ctx) is Some {
        account_error(ctx)
    } else if amount * INSURANCE_BPS > u64::MAX {
        Some(ErrorCode::ArithmeticOverflow)
    } else if renewed_expiry(previous_expiry(ctx.subscription), current_time) > i64::MAX {
        Some(ErrorCode::ArithmeticOverflow)
    } else {
        None
    }
}

/// The accounts after a successful payment: the record, created if absent,
/// belongs to the user and runs one more period.
pub open spec fn paid_context(ctx: ProcessPayment, current_time: i64) -> ProcessPayment {
    ProcessPayment {
        subscription: Some(
            Subscription {
                user: ctx.user,
                expires_at: renewed_expiry(previous_expiry(ctx.subscription), current_time) as i64,
            },
        ),
        ..ctx
    }
}

/// Checks the accounts in order and returns the first failure.
pub fn check_accounts(ctx: &ProcessPayment) -> (r: Option<ErrorCode>)
    ensures
        r == account_error(*ctx),
{
    let expected_mint = sakura_mint();
    if !ctx.user_token_account.owner.same_as(&ctx.user) {
        return Some(ErrorCode::InvalidOwner);
    }
    if !ctx.user_token_account.mint.same_as(&expected_mint) {
        return Some(ErrorCode::InvalidMint);
    }
    if !ctx.insurance_vault.key.same_as(&percolator_insurance_vault()) {
        return Some(ErrorCode::InvalidVault);
    }
    if !ctx.insurance_vault.mint.same_as(&expected_mint) {
        return Some(ErrorCode::InvalidVaultMint);
    }
    if !ctx.insurance_vault.program_owner.same_as(&token_program_id()) {
        return Some(ErrorCode::InvalidVaultOwner);
    }
    if !ctx.insurance_vault.owner.same_as(&percolator_vault_authority()) {
        return Some(ErrorCode::InvalidVaultAuthority);
    }
    if !ctx.mint.same_as(&expected_mint) {
        return Some(ErrorCode::InvalidMint);
    }
    match &ctx.subscription {
        Some(s) => {
            if !s.user.same_as(&ctx.user) {
                return Some(ErrorCode::InvalidSubscription);
            }
        },
        None => {},
    }
    None
}

/// Processes one payment of `amount` at `current_time`. On success it returns
/// the split to carry out (the custodial transfer, then the burn) and extends
/// the user's record, creating it if absent. On any failure nothing changes.
pub fn process_payment(ctx: &mut ProcessPayment, amount: u64, current_time: i64) -> (r: Result<
    Split,
    ErrorCode,
>)
    ensures
        payment_error(*old(ctx), amount, current_time) is Some ==> {
            &&& r == Err::<Split, ErrorCode>(payment_error(*old(ctx), amount, current_time)->Some_0)
            &&& *final(ctx) == *old(ctx)
        },
        payment_error(*old(ctx), amount, current_time) is None ==> {
            &&& r == split_outcome(amount, INSURANCE_BPS, BURN_BPS)
            &&& r is Ok
            &&& r->Ok_0.insurance_amount + r->Ok_0.burn_amount == amount
            &&& *final(ctx) == paid_context(*old(ctx), current_time)
        },
{
    match INSURANCE_BPS.checked_add(BURN_BPS) {
        Some(total) => {
            if total != BPS_DENOMINATOR {
                return Err(ErrorCode::InvalidSplit);
            }
        },
        None => {
            return Err(ErrorCode::InvalidSplit);
        },
    }
    if amount == 0 {
        return Err(ErrorCode::InvalidAmount);
    }
    match check_accounts(ctx) {
        Some(e) => {
            return Err(e);
        },
        None => {},
    }
    let split = match split_amount(amount, INSURANCE_BPS, BURN_BPS) {
        Ok(s) => s,
        Err(e) => {
            return Err(e);
        },
    };
    let mut record = match ctx.subscription {
        Some(s) => s,
        None => Subscription::zeroed(),
    };
    match record.renew(ctx.user, current_time) {
        Ok(()) => {},
        Err(e) => {
            return Err(e);
        },
    }
    ctx.subscription = Some(record);
    Ok(split)
}

/// A payment of zero is refused as an invalid amount, whatever the accounts.
pub proof fn lemma_zero_payment_refused(ctx: ProcessPayment, current_time: i64)
    ensures
        payment_error(ctx, 0, current_time) == Some(ErrorCode::InvalidAmount),
{
}

/// A user's first payment, made at a time that is not negative, creates a
/// record that belongs to the user and runs one period from that time.
pub proof fn lemma_first_payment_creates_record(ctx: ProcessPayment, amount: u64, current_time: i64)
    requires
        ctx.subscription is None,
        payment_error(ctx, amount, current_time) is None,
        current_time >= 0,
    ensures
        paid_context(ctx, current_time).subscription == Some(
            Subscription { user: ctx.user, expires_at: (current_time + SUBSCRIPTION_TIME) as i64 },
        ),
{
}

/// A renewal of an existing record extends it by one period from its expiry
/// while it runs, or from the present once it has lapsed; it never shortens it.
pub proof fn lemma_renewal_extends_record(ctx: ProcessPayment, amount: u64, current_time: i64)
    requires
        ctx.subscription is Some,
        payment_error(ctx, amount, current_time) is None,
    ensures
        ({
            let before = ctx.subscription->Some_0.expires_at;
            let after = paid_context(ctx, current_time).subscription->Some_0.expires_at;
            &&& current_time <= before ==> after == before + SUBSCRIPTION_TIME
            &&& current_time > before ==> after == current_time + SUBSCRIPTION_TIME
            &&& after >= before
        }),
{
}

/// A user token account of another token is refused as an invalid mint, once
/// the amount and the account's holder pass.
pub proof fn lemma_wrong_payer_mint_refused(ctx: ProcessPayment, amount: u64, current_time: i64)
    requires
        amount > 0,
        ctx.user_token_account.owner@ == ctx.user@,
        ctx.user_token_account.mint@ != sakura_mint_bytes(),
    ensures
        payment_error(ctx, amount, current_time) == Some(ErrorCode::InvalidMint),
{
}

/// A custodial destination other than the designated vault is refused as an
/// invalid vault, once the amount and the user's token account pass.
pub proof fn lemma_wrong_vault_refused(ctx: ProcessPayment, amount: u64, current_time: i64)
    requires
        amount > 0,
        ctx.user_token_account.owner@ == ctx.user@,
        ctx.user_token_account.mint@ == sakura_mint_bytes(),
        ctx.insurance_vault.key@ != insurance_vault_bytes(),
    ensures
        payment_error(ctx, amount, current_time) == Some(ErrorCode::InvalidVault),
{
}

/// When extending the record would pass the largest time, the payment is
/// refused as an overflow instead of wrapping.
pub proof fn lemma_expiry_overflow_refused(ctx: ProcessPayment, amount: u64, current_time: i64)
    requires
        amount > 0,
        amount * INSURANCE_BPS <= u64::MAX,
        account_error(ctx) is None,
        renewed_expiry(previous_expiry(ctx.subscription), current_time) > i64::MAX,
    ensures
        payment_error(ctx, amount, current_time) == Some(ErrorCode::ArithmeticOverflow),
{
}

} // verus!
