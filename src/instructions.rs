//! The three transitions of a listing: creation, purchase and cancellation.

pub mod buy_listing;
pub mod cancel_listing;
pub mod create_listing;

pub use buy_listing::BuyListing;
pub use cancel_listing::CancelListing;
pub use create_listing::CreateListing;
