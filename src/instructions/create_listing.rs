use crate::address::{listing_address, listing_address_of};
use crate::error::ErrorCode;
use crate::ledger::{
    lemma_transfer_keeps_listings, listing_of, listings_consistent, transfer_result, with_listing,
    AccountView, Ledger,
};
use crate::pubkey::Pubkey;
use crate::state::{check_description, description_fits, Listing, ListingView};
use vstd::prelude::*;

verus! {

/// Who opens a listing: the signing seller, who also pays `rent` lamports
/// into the listing's slot as its storage deposit.
pub struct CreateListing {
    pub seller: Pubkey,
    pub rent: u64,
}

/// The result and the ledger after `seller` opens a listing in `slot`.
/// Rejected, with the ledger unchanged, where the slot is taken, the
/// description does not fit, or the seller cannot pay the deposit.
pub open spec fn create_outcome(
    m: Map<Seq<u8>, AccountView>,
    slot: Seq<u8>,
    seller: Seq<u8>,
    rent: u64,
    price: u64,
    description: Seq<char>,
) -> (Result<(), ErrorCode>, Map<Seq<u8>, AccountView>) {
    if listing_of(m, slot) is Some {
        (Err(ErrorCode::DuplicateListing), m)
    } else if !description_fits(description) {
        (Err(ErrorCode::InvalidInput), m)
    } else {
        match transfer_result(m, seller, slot, rent) {
            Err(e) => (Err(e), m),
            Ok(m1) => (
                Ok(()),
                with_listing(
                    m1,
                    slot,
                    Some(
                        ListingView {
                            seller,
                            buyer: None,
                            price,
                            description,
                            sold: false,
                        },
                    ),
                ),
            ),
        }
    }
}

/// Opening a listing keeps every stored listing sold exactly when it
/// records a buyer.
pub proof fn lemma_create_keeps_sold_iff_buyer(
    m: Map<Seq<u8>, AccountView>,
    slot: Seq<u8>,
    seller: Seq<u8>,
    rent: u64,
    price: u64,
    description: Seq<char>,
)
    requires
        listings_consistent(m),
    ensures
        listings_consistent(create_outcome(m, slot, seller, rent, price, description).1),
{
    lemma_transfer_keeps_listings(m, seller, slot, rent);
    let m2 = create_outcome(m, slot, seller, rent, price, description).1;
    assert forall|k: Seq<u8>| #[trigger] listing_of(m2, k) is Some implies listing_of(
        m2,
        k,
    ).unwrap().sold_iff_buyer() by {
        if m2 != m && k != slot {
            assert(listing_of(m2, k) == listing_of(transfer_result(m, seller, slot, rent)->Ok_0, k));
        }
    }
}

/// Opens `ctx.seller`'s listing in `slot`.
pub fn handler_at(
    ledger: &mut Ledger,
    slot: &Pubkey,
    ctx: &CreateListing,
    price: u64,
    description: String,
) -> (r: Result<(), ErrorCode>)
    requires
        old(ledger).wf(),
    ensures
        final(ledger).wf(),
        (r, final(ledger)@) == create_outcome(
            old(ledger)@,
            slot@,
            ctx.seller@,
            ctx.rent,
            price,
            description@,
        ),
{
    if ledger.listing(slot).is_some() {
        return Err(ErrorCode::DuplicateListing);
    }
    if !check_description(&description) {
        return Err(ErrorCode::InvalidInput);
    }
    match ledger.transfer(&ctx.seller, slot, ctx.rent) {
        Err(e) => Err(e),
        Ok(()) => {
            let listing = Listing {
                seller: ctx.seller,
                buyer: None,
                price,
                description,
                sold: false,
            };
            ledger.set_listing(slot, Some(listing));
            Ok(())
        },
    }
}

/// Opens `ctx.seller`'s listing, with the given price and description, in the
/// slot derived from the seller's identity.
pub fn handler(ledger: &mut Ledger, ctx: &CreateListing, price: u64, description: String) -> (r:
    Result<(), ErrorCode>)
    requires
        old(ledger).wf(),
    ensures
        final(ledger).wf(),
        listings_consistent(old(ledger)@) ==> listings_consistent(final(ledger)@),
        match listing_address_of(ctx.seller@) {
            None => r == Err::<(), ErrorCode>(ErrorCode::NoViableAddress) && final(ledger)@ == old(
                ledger,
            )@,
            Some(slot) => (r, final(ledger)@) == create_outcome(
                old(ledger)@,
                slot,
                ctx.seller@,
                ctx.rent,
                price,
                description@,
            ),
        },
{
    match listing_address(&ctx.seller) {
        None => Err(ErrorCode::NoViableAddress),
        Some(slot) => {
            let r = handler_at(ledger, &slot, ctx, price, description);
            proof {
                if listings_consistent(old(ledger)@) {
                    lemma_create_keeps_sold_iff_buyer(
                        old(ledger)@,
                        slot@,
                        ctx.seller@,
                        ctx.rent,
                        price,
                        description@,
                    );
                }
            }
            r
        },
    }
}

} // verus!
