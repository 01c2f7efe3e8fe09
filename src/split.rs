use crate::config::BPS_DENOMINATOR;
use crate::error::ErrorCode;
use vstd::prelude::*;

verus! {

/// How one payment divides: the custodial share and the share to burn.
#[derive(Clone, Copy, Debug, PartialEq, Eq, Structural)]
pub struct Split {
    pub insurance_amount: u64,
    pub burn_amount: u64,
}

/// The two weights make up exactly one whole.
pub open spec fn weights_valid(insurance_bps: u64, burn_bps: u64) -> bool {
    insurance_bps + burn_bps == BPS_DENOMINATOR
}

/// The custodial share of `amount`, rounded down.
pub open spec fn insurance_share(amount: u64, insurance_bps: u64) -> int {
    (amount * insurance_bps) / (BPS_DENOMINATOR as int)
}

/// The outcome of splitting `amount` under the given weights: the weights are
/// checked first, then the amount, then the product for overflow.
pub open spec fn split_outcome(amount: u64, insurance_bps: u64, burn_bps: u64) -> Result<Split, ErrorCode> {
    if !weights_valid(insurance_bps, burn_bps) {
        Err(ErrorCode::InvalidSplit)
    } else if amount == 0 {
        Err(ErrorCode::InvalidAmount)
    } else if amount * insurance_bps > u64::MAX {
        Err(ErrorCode::ArithmeticOverflow)
    } else {
        Ok(
            Split {
                insurance_amount: insurance_share(amount, insurance_bps) as u64,
                burn_amount: (amount - insurance_share(amount, insurance_bps)) as u64,
            },
        )
    }
}

/// Splits `amount` under the given basis-point weights. The custodial share is
/// the rounded-down product; the burn share is the remainder, so the two always
/// add up to `amount`. Every step is checked: an overflow is an error.
pub fn split_amount(amount: u64, insurance_bps: u64, burn_bps: u64) -> (r: Result<Split, ErrorCode>)
    ensures
        r == split_outcome(amount, insurance_bps, burn_bps),
        r is Ok ==> r->Ok_0.insurance_amount + r->Ok_0.burn_amount == amount,
{
    match insurance_bps.checked_add(burn_bps) {
        Some(total) => {
            if total != BPS_DENOMINATOR {
                return Err(ErrorCode::InvalidSplit);
            }
        },
        None => {
            return Err(ErrorCode::InvalidSplit);
        },
    }
    if amount == 0 {
        return Err(ErrorCode::InvalidAmount);
    }
    let product = match amount.checked_mul(insurance_bps) {
        Some(p) => p,
        None => {
            return Err(ErrorCode::ArithmeticOverflow);
        },
    };
    let insurance_amount = product / BPS_DENOMINATOR;
    proof {
        assert(amount * insurance_bps <= amount * BPS_DENOMINATOR) by (nonlinear_arith)
            requires
                insurance_bps <= BPS_DENOMINATOR,
        ;
        assert((amount * insurance_bps) / (BPS_DENOMINATOR as int) <= amount) by (nonlinear_arith)
            requires
                amount * insurance_bps <= amount * BPS_DENOMINATOR,
                BPS_DENOMINATOR == 10_000,
        ;
    }
    let burn_amount = match amount.checked_sub(insurance_amount) {
        Some(b) => b,
        None => {
            return Err(ErrorCode::ArithmeticOverflow);
        },
    };
    Ok(Split { insurance_amount, burn_amount })
}

/// Splits `amount` under the configured weights.
pub fn split_payment(amount: u64) -> (r: Result<Split, ErrorCode>)
    ensures
        r == split_outcome(amount, crate::config::INSURANCE_BPS, crate::config::BURN_BPS),
{
    split_amount(amount, crate::config::INSURANCE_BPS, crate::config::BURN_BPS)
}

/// Under valid weights, every accepted amount is split into two shares that
/// add up to it, the custodial one being the rounded-down weighted product.
pub proof fn lemma_split_conserves(amount: u64, insurance_bps: u64, burn_bps: u64)
    requires
        weights_valid(insurance_bps, burn_bps),
        amount > 0,
        amount * insurance_bps <= u64::MAX,
    ensures
        split_outcome(amount, insurance_bps, burn_bps) is Ok,
        split_outcome(amount, insurance_bps, burn_bps)->Ok_0.insurance_amount
            + split_outcome(amount, insurance_bps, burn_bps)->Ok_0.burn_amount == amount,
        split_outcome(amount, insurance_bps, burn_bps)->Ok_0.insurance_amount == (amount
            * insurance_bps) / 10_000,
{
    assert(amount * insurance_bps <= amount * 10_000) by (nonlinear_arith)
        requires
            insurance_bps <= 10_000,
    ;
    assert((amount * insurance_bps) / 10_000 <= amount) by (nonlinear_arith)
        requires
            amount * insurance_bps <= amount * 10_000,
    ;
}

/// Weights that do not make up one whole are refused whatever the amount.
pub proof fn lemma_invalid_weights_refused(amount: u64, insurance_bps: u64, burn_bps: u64)
    requires
        insurance_bps + burn_bps != 10_000,
    ensures
        split_outcome(amount, insurance_bps, burn_bps) == Err::<Split, ErrorCode>(ErrorCode::InvalidSplit),
{
}

/// A zero amount under valid weights is refused as an invalid amount.
pub proof fn lemma_zero_amount_refused(insurance_bps: u64, burn_bps: u64)
    requires
        weights_valid(insurance_bps, burn_bps),
    ensures
        split_outcome(0, insurance_bps, burn_bps) == Err::<Split, ErrorCode>(ErrorCode::InvalidAmount),
{
}

} // verus!
