use crate::config::SUBSCRIPTION_TIME;
use crate::error::ErrorCode;
use crate::pubkey::Pubkey;
use vstd::prelude::*;

verus! {

/// A payer's entitlement: who it belongs to and when it lapses.
#[derive(Clone, Copy, Debug)]
pub struct Subscription {
    pub user: Pubkey,
    pub expires_at: i64,
}

/// The later of two points in time.
pub open spec fn later(a: i64, b: i64) -> i64 {
    if a >= b {
        a
    } else {
        b
    }
}

/// The expiry after one renewal: a period added to the current expiry while it
/// is still running, or to the present once it has lapsed.
pub open spec fn renewed_expiry(expires_at: i64, current_time: i64) -> int {
    later(current_time, expires_at) + SUBSCRIPTION_TIME
}

impl Subscription {
    /// A record as freshly allocated storage holds it: zero key, zero expiry.
    pub fn zeroed() -> (r: Subscription)
        ensures
            r.user@ == Seq::new(32, |i: int| 0u8),
            r.expires_at == 0,
    {
        Subscription { user: Pubkey::zeroed(), expires_at: 0 }
    }

    /// Extends the record by one period for `user` at `current_time`. The
    /// addition is checked: on overflow the record is left as it was.
    pub fn renew(&mut self, user: Pubkey, current_time: i64) -> (r: Result<(), ErrorCode>)
        ensures
            renewed_expiry(old(self).expires_at, current_time) <= i64::MAX ==> {
                &&& r is Ok
                &&& final(self).expires_at == renewed_expiry(old(self).expires_at, current_time)
                &&& final(self).user == user
            },
            renewed_expiry(old(self).expires_at, current_time) > i64::MAX ==> {
                &&& r == Err::<(), ErrorCode>(ErrorCode::ArithmeticOverflow)
                &&& *final(self) == *old(self)
            },
    {
        let base = if current_time >= self.expires_at {
            current_time
        } else {
            self.expires_at
        };
        match base.checked_add(SUBSCRIPTION_TIME) {
            Some(expires_at) => {
                self.expires_at = expires_at;
                self.user = user;
                Ok(())
            },
            None => Err(ErrorCode::ArithmeticOverflow),
        }
    }
}

/// A renewal never shortens an entitlement: before expiry it stacks a period on
/// the current expiry, after expiry it starts a period from the present.
pub proof fn lemma_renewal_monotonic(expires_at: i64, current_time: i64)
    ensures
        current_time <= expires_at ==> renewed_expiry(expires_at, current_time) == expires_at
            + SUBSCRIPTION_TIME,
        current_time > expires_at ==> renewed_expiry(expires_at, current_time) == current_time
            + SUBSCRIPTION_TIME,
        renewed_expiry(expires_at, current_time) >= expires_at,
        renewed_expiry(expires_at, current_time) > current_time,
{
}

} // verus!
