use vstd::prelude::*;

verus! {

/// The errors that the trading program reports on its own account.
#[derive(Clone, Copy, Debug, PartialEq, Eq, Structural)]
pub enum PoolError {
    TokenMintToFailed,
    TokenSetAuthorityFailed,
    TokenTransferFailed,
    SOLTransferFailed,
    InsufficentFunds,
    InvalidUser,
    NotAdmin,
    NotBuyer,
    InvalidToken,
    NotCreater,
    IsCompleted,
    IsDestroyed,
    InvalidBuyAmount,
    BuyerNotConfirm,
    InvalidOfferLimits,
}

impl PoolError {
    /// The human-readable message attached to each error.
    pub fn message(&self) -> (r: &'static str)
        ensures
            *self == PoolError::TokenMintToFailed ==> r@ == "Token mint to failed"@,
            *self == PoolError::TokenSetAuthorityFailed ==> r@ == "Token set authority failed"@,
            *self == PoolError::TokenTransferFailed ==> r@ == "Token transfer failed"@,
            *self == PoolError::SOLTransferFailed ==> r@ == "SOL transfer failed"@,
            *self == PoolError::InsufficentFunds ==> r@ == "Don't have enough SOL"@,
            *self == PoolError::InvalidUser ==> r@ == "Invalid User"@,
            *self == PoolError::NotAdmin ==> r@ == "Not Admin"@,
            *self == PoolError::NotBuyer ==> r@ == "Not Buyer"@,
            *self == PoolError::InvalidToken ==> r@ == "Token is invalid"@,
            *self == PoolError::NotCreater ==> r@ == "Not Creater"@,
            *self == PoolError::IsCompleted ==> r@ == "Trade is completed"@,
            *self == PoolError::IsDestroyed ==> r@ == "Trade is destroyed"@,
            *self == PoolError::InvalidBuyAmount ==> r@ == "Buy amount is not Correct"@,
            *self == PoolError::BuyerNotConfirm ==> r@ == "Buy not confirm order"@,
            *self == PoolError::InvalidOfferLimits ==> r@ == "Offer amount is not within its limits"@,
    {
        match self {
            PoolError::TokenMintToFailed => "Token mint to failed",
            PoolError::TokenSetAuthorityFailed => "Token set authority failed",
            PoolError::TokenTransferFailed => "Token transfer failed",
            PoolError::SOLTransferFailed => "SOL transfer failed",
            PoolError::InsufficentFunds => "Don't have enough SOL",
            PoolError::InvalidUser => "Invalid User",
            PoolError::NotAdmin => "Not Admin",
            PoolError::NotBuyer => "Not Buyer",
            PoolError::InvalidToken => "Token is invalid",
            PoolError::NotCreater => "Not Creater",
            PoolError::IsCompleted => "Trade is completed",
            PoolError::IsDestroyed => "Trade is destroyed",
            PoolError::InvalidBuyAmount => "Buy amount is not Correct",
            PoolError::BuyerNotConfirm => "Buy not confirm order",
            PoolError::InvalidOfferLimits => "Offer amount is not within its limits",
        }
    }
}

/// The numeric code of the runtime's "incorrect program id" error, the one
/// error that building a token instruction can produce.
pub const INCORRECT_PROGRAM_ID: u64 = 0x7_0000_0000u64;

/// Why an instruction of the program failed: one of its own errors, or an
/// error of the runtime given by its numeric code.
#[derive(Clone, Copy, Debug, PartialEq, Eq, Structural)]
pub enum Failure {
    Pool(PoolError),
    Program(u64),
}

} // verus!
