//! A fixed-price marketplace listing: a seller opens one listing per identity,
//! a buyer pays the price and takes the listing, and the seller may withdraw an
//! unsold listing and recover its storage deposit.

pub mod address;
pub mod error;
pub mod escrow_project;
pub mod instructions;
pub mod ledger;
pub mod pubkey;
pub mod state;

pub use address::id;
pub use error::ErrorCode;
pub use ledger::Ledger;
pub use pubkey::Pubkey;
pub use state::Listing;
