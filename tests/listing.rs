use escrow_project::address::listing_address;
use escrow_project::escrow_project::{buy_listing, cancel_listing, create_listing};
use escrow_project::instructions::buy_listing::BuyListing;
use escrow_project::instructions::cancel_listing::CancelListing;
use escrow_project::instructions::create_listing::{self, CreateListing};
use escrow_project::state::MAX_DESCRIPTION_LEN;
use escrow_project::{id, ErrorCode, Ledger, Pubkey};

const RENT: u64 = 2_000_000;

fn seller() -> Pubkey {
    Pubkey::new([1u8; 32])
}

fn buyer() -> Pubkey {
    Pubkey::new([2u8; 32])
}

fn slot_of(k: &Pubkey) -> Pubkey {
    listing_address(k).expect("a listing address exists")
}

/// A ledger where the seller holds 10 000 000 lamports and has listed a bike
/// for 500.
fn with_bike() -> Ledger {
    let mut ledger = Ledger::new();
    ledger.fund(&seller(), 10_000_000).unwrap();
    let ctx = CreateListing { seller: seller(), rent: RENT };
    assert_eq!(create_listing(&mut ledger, &ctx, 500, "Bike".to_string()), Ok(()));
    ledger
}

fn buy(ledger: &mut Ledger, who: Pubkey) -> Result<(), ErrorCode> {
    buy_listing(ledger, &BuyListing { buyer: who, seller: seller() })
}

fn cancel(ledger: &mut Ledger, who: Pubkey) -> Result<(), ErrorCode> {
    cancel_listing(ledger, &CancelListing { caller: who, seller: seller() })
}

#[test]
fn create_yields_open_listing() {
    let ledger = with_bike();
    let slot = slot_of(&seller());
    let l = ledger.listing(&slot).unwrap();
    assert_eq!(l.seller, seller());
    assert_eq!(l.buyer, None);
    assert_eq!(l.price, 500);
    assert_eq!(l.description, "Bike");
    assert!(!l.sold);
    assert_eq!(ledger.lamports(&seller()), 10_000_000 - RENT);
    assert_eq!(ledger.lamports(&slot), RENT);
}

#[test]
fn purchase_pays_seller_and_records_buyer() {
    let mut ledger = with_bike();
    ledger.fund(&buyer(), 800).unwrap();
    let before = ledger.lamports(&seller());
    assert_eq!(buy(&mut ledger, buyer()), Ok(()));
    assert_eq!(ledger.lamports(&seller()), before + 500);
    assert_eq!(ledger.lamports(&buyer()), 300);
    let l = ledger.listing(&slot_of(&seller())).unwrap();
    assert_eq!(l.seller, seller());
    assert_eq!(l.buyer, Some(buyer()));
    assert_eq!(l.price, 500);
    assert_eq!(l.description, "Bike");
    assert!(l.sold);
}

#[test]
fn purchase_with_exact_balance() {
    let mut ledger = with_bike();
    ledger.fund(&buyer(), 500).unwrap();
    assert_eq!(buy(&mut ledger, buyer()), Ok(()));
    assert_eq!(ledger.lamports(&buyer()), 0);
}

#[test]
fn second_purchase_is_already_sold() {
    let mut ledger = with_bike();
    ledger.fund(&buyer(), 2_000).unwrap();
    let other = Pubkey::new([3u8; 32]);
    ledger.fund(&other, 2_000).unwrap();
    assert_eq!(buy(&mut ledger, buyer()), Ok(()));
    let seller_after = ledger.lamports(&seller());
    assert_eq!(buy(&mut ledger, buyer()), Err(ErrorCode::AlreadySold));
    assert_eq!(buy(&mut ledger, other), Err(ErrorCode::AlreadySold));
    assert_eq!(ledger.lamports(&buyer()), 1_500);
    assert_eq!(ledger.lamports(&other), 2_000);
    assert_eq!(ledger.lamports(&seller()), seller_after);
    let l = ledger.listing(&slot_of(&seller())).unwrap();
    assert_eq!(l.buyer, Some(buyer()));
    assert!(l.sold);
}

#[test]
fn cancel_by_other_is_unauthorized() {
    let mut ledger = with_bike();
    let slot = slot_of(&seller());
    assert_eq!(cancel(&mut ledger, buyer()), Err(ErrorCode::Unauthorized));
    let l = ledger.listing(&slot).unwrap();
    assert!(!l.sold);
    assert_eq!(l.buyer, None);
    assert_eq!(ledger.lamports(&slot), RENT);
    assert_eq!(ledger.lamports(&buyer()), 0);
}

#[test]
fn cancel_by_other_of_sold_listing_is_unauthorized() {
    let mut ledger = with_bike();
    ledger.fund(&buyer(), 500).unwrap();
    assert_eq!(buy(&mut ledger, buyer()), Ok(()));
    assert_eq!(cancel(&mut ledger, buyer()), Err(ErrorCode::Unauthorized));
}

#[test]
fn failed_payment_leaves_listing_open() {
    let mut ledger = with_bike();
    ledger.fund(&buyer(), 499).unwrap();
    let seller_before = ledger.lamports(&seller());
    assert_eq!(buy(&mut ledger, buyer()), Err(ErrorCode::InsufficientFunds));
    let l = ledger.listing(&slot_of(&seller())).unwrap();
    assert!(!l.sold);
    assert_eq!(l.buyer, None);
    assert_eq!(ledger.lamports(&buyer()), 499);
    assert_eq!(ledger.lamports(&seller()), seller_before);
}

#[test]
fn payment_overflowing_seller_fails() {
    let mut ledger = with_bike();
    let room = u64::MAX - ledger.lamports(&seller());
    ledger.fund(&seller(), room - 100).unwrap();
    ledger.fund(&buyer(), 500).unwrap();
    assert_eq!(buy(&mut ledger, buyer()), Err(ErrorCode::TransferFailed));
    let l = ledger.listing(&slot_of(&seller())).unwrap();
    assert!(!l.sold);
    assert_eq!(ledger.lamports(&buyer()), 500);
}

#[test]
fn cancel_removes_listing_and_frees_slot() {
    let mut ledger = with_bike();
    let slot = slot_of(&seller());
    assert_eq!(cancel(&mut ledger, seller()), Ok(()));
    assert!(ledger.listing(&slot).is_none());
    assert_eq!(ledger.lamports(&slot), 0);
    assert_eq!(ledger.lamports(&seller()), 10_000_000);
    let ctx = CreateListing { seller: seller(), rent: RENT };
    assert_eq!(create_listing(&mut ledger, &ctx, 900, "Lamp".to_string()), Ok(()));
    let l = ledger.listing(&slot).unwrap();
    assert_eq!(l.price, 900);
    assert_eq!(l.description, "Lamp");
}

#[test]
fn cancel_after_sale_is_already_sold() {
    let mut ledger = with_bike();
    ledger.fund(&buyer(), 500).unwrap();
    assert_eq!(buy(&mut ledger, buyer()), Ok(()));
    assert_eq!(cancel(&mut ledger, seller()), Err(ErrorCode::AlreadySold));
    let l = ledger.listing(&slot_of(&seller())).unwrap();
    assert!(l.sold);
    assert_eq!(l.buyer, Some(buyer()));
}

#[test]
fn second_create_is_duplicate() {
    let mut ledger = with_bike();
    let ctx = CreateListing { seller: seller(), rent: RENT };
    assert_eq!(
        create_listing(&mut ledger, &ctx, 7, "Chair".to_string()),
        Err(ErrorCode::DuplicateListing)
    );
    let l = ledger.listing(&slot_of(&seller())).unwrap();
    assert_eq!(l.price, 500);
    assert_eq!(l.description, "Bike");
}

#[test]
fn create_after_sale_is_duplicate() {
    let mut ledger = with_bike();
    ledger.fund(&buyer(), 500).unwrap();
    assert_eq!(buy(&mut ledger, buyer()), Ok(()));
    let ctx = CreateListing { seller: seller(), rent: RENT };
    assert_eq!(
        create_listing(&mut ledger, &ctx, 7, "Chair".to_string()),
        Err(ErrorCode::DuplicateListing)
    );
}

#[test]
fn description_length_limit() {
    assert_eq!(MAX_DESCRIPTION_LEN, 195);
    let mut ledger = Ledger::new();
    ledger.fund(&seller(), 10_000_000).unwrap();
    let ctx = CreateListing { seller: seller(), rent: RENT };
    assert_eq!(
        create_listing(&mut ledger, &ctx, 1, "x".repeat(196)),
        Err(ErrorCode::InvalidInput)
    );
    assert_eq!(ledger.lamports(&seller()), 10_000_000);
    assert_eq!(create_listing(&mut ledger, &ctx, 1, "x".repeat(195)), Ok(()));
}

#[test]
fn description_length_counts_bytes() {
    let mut ledger = Ledger::new();
    ledger.fund(&seller(), 10_000_000).unwrap();
    let ctx = CreateListing { seller: seller(), rent: RENT };
    assert_eq!(
        create_listing(&mut ledger, &ctx, 1, "\u{e9}".repeat(98)),
        Err(ErrorCode::InvalidInput)
    );
    assert_eq!(create_listing(&mut ledger, &ctx, 1, "\u{e9}".repeat(97)), Ok(()));
}

#[test]
fn empty_description_and_zero_price() {
    let mut ledger = Ledger::new();
    ledger.fund(&seller(), RENT).unwrap();
    let ctx = CreateListing { seller: seller(), rent: RENT };
    assert_eq!(create_listing(&mut ledger, &ctx, 0, String::new()), Ok(()));
    assert_eq!(buy(&mut ledger, buyer()), Ok(()));
    assert_eq!(ledger.lamports(&seller()), 0);
}

#[test]
fn create_without_deposit_fails() {
    let mut ledger = Ledger::new();
    ledger.fund(&seller(), RENT - 1).unwrap();
    let ctx = CreateListing { seller: seller(), rent: RENT };
    assert_eq!(
        create_listing(&mut ledger, &ctx, 500, "Bike".to_string()),
        Err(ErrorCode::InsufficientFunds)
    );
    assert!(ledger.listing(&slot_of(&seller())).is_none());
    assert_eq!(ledger.lamports(&seller()), RENT - 1);
}

#[test]
fn no_listing_to_buy_or_cancel() {
    let mut ledger = Ledger::new();
    ledger.fund(&buyer(), 500).unwrap();
    assert_eq!(buy(&mut ledger, buyer()), Err(ErrorCode::ListingNotFound));
    assert_eq!(cancel(&mut ledger, seller()), Err(ErrorCode::ListingNotFound));
}

#[test]
fn handler_at_uses_given_slot() {
    let mut ledger = Ledger::new();
    ledger.fund(&seller(), 100).unwrap();
    let slot = Pubkey::new([9u8; 32]);
    let ctx = CreateListing { seller: seller(), rent: 40 };
    assert_eq!(create_listing::handler_at(&mut ledger, &slot, &ctx, 5, "Pen".to_string()), Ok(()));
    assert_eq!(ledger.listing(&slot).unwrap().price, 5);
    assert_eq!(ledger.lamports(&slot), 40);
    assert_eq!(ledger.lamports(&seller()), 60);
}

#[test]
fn fund_overflow_fails() {
    let mut ledger = Ledger::new();
    ledger.fund(&buyer(), u64::MAX).unwrap();
    assert_eq!(ledger.fund(&buyer(), 1), Err(ErrorCode::TransferFailed));
    assert_eq!(ledger.lamports(&buyer()), u64::MAX);
}

#[test]
fn transfer_to_self_keeps_balance() {
    let mut ledger = Ledger::new();
    ledger.fund(&buyer(), 10).unwrap();
    assert_eq!(ledger.transfer(&buyer(), &buyer(), 10), Ok(()));
    assert_eq!(ledger.lamports(&buyer()), 10);
    assert_eq!(ledger.transfer(&buyer(), &buyer(), 11), Err(ErrorCode::InsufficientFunds));
}

#[test]
fn listing_address_is_derived() {
    let a = slot_of(&seller());
    assert_eq!(
        a.to_bytes(),
        [
            17, 74, 186, 98, 182, 238, 132, 208, 248, 171, 112, 243, 234, 93, 128, 146, 92, 150,
            134, 182, 57, 42, 103, 101, 98, 115, 40, 233, 54, 180, 117, 138
        ]
    );
    assert_ne!(a, seller());
    assert_eq!(slot_of(&seller()), a);
    assert_ne!(slot_of(&buyer()), a);
}

#[test]
fn program_id_bytes() {
    assert_eq!(
        id().to_bytes(),
        [
            152, 151, 122, 70, 71, 126, 243, 73, 120, 167, 146, 212, 78, 65, 51, 141, 76, 163,
            206, 37, 148, 129, 138, 134, 131, 207, 55, 25, 104, 215, 88, 15
        ]
    );
}

#[test]
fn error_messages() {
    assert_eq!(ErrorCode::AlreadySold.message(), "This listing has already been sold");
    assert_eq!(
        ErrorCode::Unauthorized.message(),
        "Unauthorized: Only the seller can cancel this listing"
    );
}
