//! Payment routing for a token subscription: each payment is split between a
//! custodial vault and a burn, and extends the payer's subscription record.

pub mod config;
pub mod error;
pub mod pubkey;
pub mod router;
pub mod split;
pub mod subscription;

pub use config::{BPS_DENOMINATOR, BURN_BPS, INSURANCE_BPS, SUBSCRIPTION_TIME};
pub use error::ErrorCode;
pub use pubkey::Pubkey;
pub use split::{split_amount, split_payment, Split};
pub use subscription::Subscription;
pub use router::{process_payment, ProcessPayment, TokenAccount};
