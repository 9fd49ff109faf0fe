use crate::address::{listing_address, listing_address_of};
use crate::ledger::{
    lemma_transfer_keeps_listings, listing_of, listings_consistent, transfer_result, with_listing,
    AccountView, Ledger,
};
use crate::pubkey::Pubkey;
use crate::state::{Listing, ListingView};
use vstd::prelude::*;

pub use crate::error::ErrorCode;

verus! {

/// Who takes part in a purchase: the signing buyer, who pays, and the seller,
/// whose slot holds the listing and who is paid.
pub struct BuyListing {
    pub buyer: Pubkey,
    pub seller: Pubkey,
}

/// The listing `l` once `buyer` has bought it.
pub open spec fn sold_to(l: ListingView, buyer: Seq<u8>) -> ListingView {
    ListingView {
        seller: l.seller,
        buyer: Some(buyer),
        price: l.price,
        description: l.description,
        sold: true,
    }
}

/// The result and the ledger after `buyer` buys the listing in `slot`,
/// paying its price to `seller`. Rejected, with the ledger unchanged, where
/// the slot is empty, the listing is already sold (checked before any
/// payment), or the payment cannot be made. A seller may buy their own
/// listing: the payment then leaves their balance as it was.
pub open spec fn buy_outcome(
    m: Map<Seq<u8>, AccountView>,
    slot: Seq<u8>,
    buyer: Seq<u8>,
    seller: Seq<u8>,
) -> (Result<(), ErrorCode>, Map<Seq<u8>, AccountView>) {
    match listing_of(m, slot) {
        None => (Err(ErrorCode::ListingNotFound), m),
        Some(l) => if l.sold {
            (Err(ErrorCode::AlreadySold), m)
        } else {
            match transfer_result(m, buyer, seller, l.price) {
                Err(e) => (Err(e), m),
                Ok(m1) => (Ok(()), with_listing(m1, slot, Some(sold_to(l, buyer)))),
            }
        },
    }
}

/// A purchase keeps every stored listing sold exactly when it records a
/// buyer.
pub proof fn lemma_buy_keeps_sold_iff_buyer(
    m: Map<Seq<u8>, AccountView>,
    slot: Seq<u8>,
    buyer: Seq<u8>,
    seller: Seq<u8>,
)
    requires
        listings_consistent(m),
    ensures
        listings_consistent(buy_outcome(m, slot, buyer, seller).1),
{
    let m2 = buy_outcome(m, slot, buyer, seller).1;
    if let Some(l) = listing_of(m, slot) {
        lemma_transfer_keeps_listings(m, buyer, seller, l.price);
    }
    assert forall|k: Seq<u8>| #[trigger] listing_of(m2, k) is Some implies listing_of(
        m2,
        k,
    ).unwrap().sold_iff_buyer() by {
        if m2 != m && k != slot {
            let l = listing_of(m, slot).unwrap();
            assert(listing_of(m2, k) == listing_of(
                transfer_result(m, buyer, seller, l.price)->Ok_0,
                k,
            ));
        }
    }
}

/// A listing is bought at most once: once a purchase in `slot` has
/// succeeded, any further purchase there fails with `AlreadySold` and leaves
/// the ledger as the first purchase left it.
pub proof fn lemma_buy_succeeds_at_most_once(
    m: Map<Seq<u8>, AccountView>,
    slot: Seq<u8>,
    buyer: Seq<u8>,
    seller: Seq<u8>,
    next_buyer: Seq<u8>,
    next_seller: Seq<u8>,
)
    requires
        buy_outcome(m, slot, buyer, seller).0 is Ok,
    ensures
        ({
            let after = buy_outcome(m, slot, buyer, seller).1;
            buy_outcome(after, slot, next_buyer, next_seller) == (Err::<(), ErrorCode>(
                ErrorCode::AlreadySold,
            ), after)
        }),
{
}

/// A purchase whose payment fails leaves the listing unsold and without a
/// buyer, and the whole ledger unchanged.
pub proof fn lemma_failed_payment_keeps_listing(
    m: Map<Seq<u8>, AccountView>,
    slot: Seq<u8>,
    buyer: Seq<u8>,
    seller: Seq<u8>,
)
    requires
        listings_consistent(m),
        listing_of(m, slot) is Some,
        transfer_result(m, buyer, seller, listing_of(m, slot).unwrap().price) is Err,
    ensures
        buy_outcome(m, slot, buyer, seller).0 is Err,
        buy_outcome(m, slot, buyer, seller).1 == m,
        listing_of(m, slot).unwrap().sold ==> buy_outcome(m, slot, buyer, seller).0 == Err::<
            (),
            ErrorCode,
        >(ErrorCode::AlreadySold),
        !listing_of(m, slot).unwrap().sold ==> {
            &&& !listing_of(buy_outcome(m, slot, buyer, seller).1, slot).unwrap().sold
            &&& listing_of(buy_outcome(m, slot, buyer, seller).1, slot).unwrap().buyer is None
        },
{
    assert(listing_of(m, slot).unwrap().sold_iff_buyer());
}

/// `ctx.buyer` buys the listing in `slot`, paying its price to `ctx.seller`.
pub fn handler_at(ledger: &mut Ledger, slot: &Pubkey, ctx: &BuyListing) -> (r: Result<
    (),
    ErrorCode,
>)
    requires
        old(ledger).wf(),
    ensures
        final(ledger).wf(),
        (r, final(ledger)@) == buy_outcome(old(ledger)@, slot@, ctx.buyer@, ctx.seller@),
{
    let sold = match ledger.listing(slot) {
        None => {
            return Err(ErrorCode::ListingNotFound);
        },
        Some(l) => {
            if l.sold {
                return Err(ErrorCode::AlreadySold);
            }
            Listing {
                seller: l.seller,
                buyer: Some(ctx.buyer),
                price: l.price,
                description: l.description.clone(),
                sold: true,
            }
        },
    };
    match ledger.transfer(&ctx.buyer, &ctx.seller, sold.price) {
        Err(e) => Err(e),
        Ok(()) => {
            ledger.set_listing(slot, Some(sold));
            Ok(())
        },
    }
}

/// `ctx.buyer` buys `ctx.seller`'s listing: the price moves from buyer to
/// seller and the listing records the buyer and becomes sold, or nothing
/// changes.
pub fn handler(ledger: &mut Ledger, ctx: &BuyListing) -> (r: Result<(), ErrorCode>)
    requires
        old(ledger).wf(),
    ensures
        final(ledger).wf(),
        listings_consistent(old(ledger)@) ==> listings_consistent(final(ledger)@),
        match listing_address_of(ctx.seller@) {
            None => r == Err::<(), ErrorCode>(ErrorCode::NoViableAddress) && final(ledger)@ == old(
                ledger,
            )@,
            Some(slot) => (r, final(ledger)@) == buy_outcome(
                old(ledger)@,
                slot,
                ctx.buyer@,
                ctx.seller@,
            ),
        },
{
    match listing_address(&ctx.seller) {
        None => Err(ErrorCode::NoViableAddress),
        Some(slot) => {
            let r = handler_at(ledger, &slot, ctx);
            proof {
                if listings_consistent(old(ledger)@) {
                    lemma_buy_keeps_sold_iff_buyer(old(ledger)@, slot@, ctx.buyer@, ctx.seller@);
                }
            }
            r
        },
    }
}

} // verus!
