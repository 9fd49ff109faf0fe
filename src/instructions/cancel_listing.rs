use crate::address::{listing_address, listing_address_of};
use crate::ledger::{
    lamports_of, lemma_transfer_keeps_listings, listing_of, listings_consistent, transfer_result,
    with_listing, AccountView, Ledger,
};
use crate::pubkey::Pubkey;
use vstd::prelude::*;

pub use crate::error::ErrorCode;

verus! {

/// Who takes part in a cancellation: the signing caller, and the seller whose
/// slot holds the listing.
pub struct CancelListing {
    pub caller: Pubkey,
    pub seller: Pubkey,
}

/// The result and the ledger after `caller` withdraws the listing in `slot`:
/// the listing is removed and the slot's deposit goes back to the seller.
/// Rejected, with the ledger unchanged, where the slot is empty, the caller
/// is not the listing's seller, the listing is sold, or the refund would
/// overflow the seller's balance.
pub open spec fn cancel_outcome(m: Map<Seq<u8>, AccountView>, slot: Seq<u8>, caller: Seq<u8>) -> (
    Result<(), ErrorCode>,
    Map<Seq<u8>, AccountView>,
) {
    match listing_of(m, slot) {
        None => (Err(ErrorCode::ListingNotFound), m),
        Some(l) => if caller != l.seller {
            (Err(ErrorCode::Unauthorized), m)
        } else if l.sold {
            (Err(ErrorCode::AlreadySold), m)
        } else {
            match transfer_result(with_listing(m, slot, None), slot, l.seller, lamports_of(m, slot)) {
                Err(e) => (Err(e), m),
                Ok(m1) => (Ok(()), m1),
            }
        },
    }
}

/// A cancellation keeps every stored listing sold exactly when it records a
/// buyer.
pub proof fn lemma_cancel_keeps_sold_iff_buyer(
    m: Map<Seq<u8>, AccountView>,
    slot: Seq<u8>,
    caller: Seq<u8>,
)
    requires
        listings_consistent(m),
    ensures
        listings_consistent(cancel_outcome(m, slot, caller).1),
{
    let m2 = cancel_outcome(m, slot, caller).1;
    let m0 = with_listing(m, slot, None);
    if let Some(l) = listing_of(m, slot) {
        lemma_transfer_keeps_listings(m0, slot, l.seller, lamports_of(m, slot));
    }
    assert forall|k: Seq<u8>| #[trigger] listing_of(m2, k) is Some implies listing_of(
        m2,
        k,
    ).unwrap().sold_iff_buyer() by {
        if m2 != m {
            let l = listing_of(m, slot).unwrap();
            assert(listing_of(m2, k) == listing_of(m0, k));
            assert(k != slot);
            assert(listing_of(m0, k) == listing_of(m, k));
        }
    }
}

/// Only the recorded seller may withdraw a listing: any other caller is
/// refused with `Unauthorized` and the ledger stays as it was.
pub proof fn lemma_cancel_by_other_is_unauthorized(
    m: Map<Seq<u8>, AccountView>,
    slot: Seq<u8>,
    caller: Seq<u8>,
)
    requires
        listing_of(m, slot) is Some,
        caller != listing_of(m, slot).unwrap().seller,
    ensures
        cancel_outcome(m, slot, caller) == (Err::<(), ErrorCode>(ErrorCode::Unauthorized), m),
{
}

/// `ctx.caller` withdraws the listing in `slot`.
pub fn handler_at(ledger: &mut Ledger, slot: &Pubkey, ctx: &CancelListing) -> (r: Result<
    (),
    ErrorCode,
>)
    requires
        old(ledger).wf(),
    ensures
        final(ledger).wf(),
        (r, final(ledger)@) == cancel_outcome(old(ledger)@, slot@, ctx.caller@),
{
    match ledger.listing(slot) {
        None => {
            return Err(ErrorCode::ListingNotFound);
        },
        Some(l) => {
            if !l.seller.same_as(&ctx.caller) {
                return Err(ErrorCode::Unauthorized);
            }
            if l.sold {
                return Err(ErrorCode::AlreadySold);
            }
        },
    }
    let deposit = ledger.lamports(slot);
    if !slot.same_as(&ctx.caller) && ledger.lamports(&ctx.caller) > u64::MAX - deposit {
        return Err(ErrorCode::TransferFailed);
    }
    ledger.set_listing(slot, None);
    match ledger.transfer(slot, &ctx.caller, deposit) {
        Ok(()) => Ok(()),
        Err(e) => Err(e),
    }
}

/// `ctx.caller` withdraws `ctx.seller`'s unsold listing: the record is removed
/// and its deposit returned to the seller, or nothing changes.
pub fn handler(ledger: &mut Ledger, ctx: &CancelListing) -> (r: Result<(), ErrorCode>)
    requires
        old(ledger).wf(),
    ensures
        final(ledger).wf(),
        listings_consistent(old(ledger)@) ==> listings_consistent(final(ledger)@),
        match listing_address_of(ctx.seller@) {
            None => r == Err::<(), ErrorCode>(ErrorCode::NoViableAddress) && final(ledger)@ == old(
                ledger,
            )@,
            Some(slot) => (r, final(ledger)@) == cancel_outcome(old(ledger)@, slot, ctx.caller@),
        },
{
    match listing_address(&ctx.seller) {
        None => Err(ErrorCode::NoViableAddress),
        Some(slot) => {
            let r = handler_at(ledger, &slot, ctx);
            proof {
                if listings_consistent(old(ledger)@) {
                    lemma_cancel_keeps_sold_iff_buyer(old(ledger)@, slot@, ctx.caller@);
                }
            }
            r
        },
    }
}

} // verus!
