use vstd::prelude::*;

verus! {

/// Why an operation on a listing was rejected. Every rejection leaves the
/// ledger as it was.
#[derive(Clone, Copy, Debug, PartialEq, Eq, Structural)]
pub enum ErrorCode {
    /// The listing has already been sold.
    AlreadySold,
    /// The caller is not the listing's seller.
    Unauthorized,
    /// A listing already occupies the seller's slot.
    DuplicateListing,
    /// The description does not fit the listing's storage.
    InvalidInput,
    /// The paying account holds less than the amount to move.
    InsufficientFunds,
    /// The receiving account's balance would overflow.
    TransferFailed,
    /// No listing occupies the seller's slot.
    ListingNotFound,
    /// No program address could be derived for the seller's slot.
    NoViableAddress,
}

impl ErrorCode {
    /// The message shown for the error.
    pub fn message(&self) -> &'static str {
        match self {
            ErrorCode::AlreadySold => "This listing has already been sold",
            ErrorCode::Unauthorized => "Unauthorized: Only the seller can cancel this listing",
            ErrorCode::DuplicateListing => "A listing already exists for this seller",
            ErrorCode::InvalidInput => "The listing description is too long",
            ErrorCode::InsufficientFunds => "Insufficient funds for the transfer",
            ErrorCode::TransferFailed => "The transfer could not be completed",
            ErrorCode::ListingNotFound => "No listing exists for this seller",
            ErrorCode::NoViableAddress => "Unable to find a viable program address for the listing",
        }
    }
}

} // verus!
