use vstd::prelude::*;

verus! {

/// Why a payment was refused. Every refusal aborts the whole payment.
#[derive(Clone, Copy, Debug, PartialEq, Eq, Structural)]
pub enum ErrorCode {
    /// The two split weights do not sum to the basis-point denominator.
    InvalidSplit,
    /// The payment amount is zero.
    InvalidAmount,
    /// The payer's token account is held by someone other than the payer.
    InvalidOwner,
    /// A token account or the mint is not of the expected token.
    InvalidMint,
    /// The custodial destination is not the designated vault address.
    InvalidVault,
    /// The vault holds another token.
    InvalidVaultMint,
    /// The vault is not owned by the token program.
    InvalidVaultOwner,
    /// The vault is under another authority.
    InvalidVaultAuthority,
    /// An existing subscription record belongs to another payer.
    InvalidSubscription,
    /// A checked arithmetic step overflowed.
    ArithmeticOverflow,
}

/// The message that each error carries.
pub open spec fn error_message(e: ErrorCode) -> Seq<char> {
    match e {
        ErrorCode::InvalidSplit => "Invalid split percentages, must sum to 10000 BPS"@,
        ErrorCode::InvalidAmount => "Payment amount must be greater than zero"@,
        ErrorCode::InvalidOwner => "Invalid user token account owner"@,
        ErrorCode::InvalidMint => "Invalid token mint, must be the official SAKURA_MINT"@,
        ErrorCode::InvalidVault => "Invalid insurance vault, must match the designated Percolator vault"@,
        ErrorCode::InvalidVaultMint => "Invalid insurance vault mint"@,
        ErrorCode::InvalidVaultOwner => "Invalid insurance vault owner"@,
        ErrorCode::InvalidVaultAuthority => "Invalid insurance vault authority"@,
        ErrorCode::InvalidSubscription => "Subscription record belongs to another user"@,
        ErrorCode::ArithmeticOverflow => "Arithmetic overflow"@,
    }
}

impl ErrorCode {
    /// The human-readable message of the error.
    pub fn message(&self) -> (r: &'static str)
        ensures
            r@ == error_message(*self),
    {
        match self {
            ErrorCode::InvalidSplit => "Invalid split percentages, must sum to 10000 BPS",
            ErrorCode::InvalidAmount => "Payment amount must be greater than zero",
            ErrorCode::InvalidOwner => "Invalid user token account owner",
            ErrorCode::InvalidMint => "Invalid token mint, must be the official SAKURA_MINT",
            ErrorCode::InvalidVault => "Invalid insurance vault, must match the designated Percolator vault",
            ErrorCode::InvalidVaultMint => "Invalid insurance vault mint",
            ErrorCode::InvalidVaultOwner => "Invalid insurance vault owner",
            ErrorCode::InvalidVaultAuthority => "Invalid insurance vault authority",
            ErrorCode::InvalidSubscription => "Subscription record belongs to another user",
            ErrorCode::ArithmeticOverflow => "Arithmetic overflow",
        }
    }
}

} // verus!
