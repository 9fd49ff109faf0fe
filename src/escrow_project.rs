//! The program's entry points, one per transition.

use crate::address::listing_address_of;
use crate::error::ErrorCode;
use crate::instructions::buy_listing::{self, buy_outcome, BuyListing};
use crate::instructions::cancel_listing::{self, cancel_outcome, CancelListing};
use crate::instructions::create_listing::{self, create_outcome, CreateListing};
use crate::ledger::{listings_consistent, Ledger};
use vstd::prelude::*;

verus! {

/// Opens `ctx.seller`'s listing at the given price with the given
/// description.
pub fn create_listing(ledger: &mut Ledger, ctx: &CreateListing, price: u64, description: String) -> (r:
    Result<(), ErrorCode>)
    requires
        old(ledger).wf(),
    ensures
        final(ledger).wf(),
        listings_consistent(old(ledger)@) ==> listings_consistent(final(ledger)@),
        match listing_address_of(ctx.seller@) {
            None => r == Err::<(), ErrorCode>(ErrorCode::NoViableAddress) && final(ledger)@ == old(
                ledger,
            )@,
            Some(slot) => (r, final(ledger)@) == create_outcome(
                old(ledger)@,
                slot,
                ctx.seller@,
                ctx.rent,
                price,
                description@,
            ),
        },
{
    create_listing::handler(ledger, ctx, price, description)
}

/// `ctx.buyer` buys `ctx.seller`'s listing.
pub fn buy_listing(ledger: &mut Ledger, ctx: &BuyListing) -> (r: Result<(), ErrorCode>)
    requires
        old(ledger).wf(),
    ensures
        final(ledger).wf(),
        listings_consistent(old(ledger)@) ==> listings_consistent(final(ledger)@),
        match listing_address_of(ctx.seller@) {
            None => r == Err::<(), ErrorCode>(ErrorCode::NoViableAddress) && final(ledger)@ == old(
                ledger,
            )@,
            Some(slot) => (r, final(ledger)@) == buy_outcome(
                old(ledger)@,
                slot,
                ctx.buyer@,
                ctx.seller@,
            ),
        },
{
    buy_listing::handler(ledger, ctx)
}

/// `ctx.caller` withdraws `ctx.seller`'s unsold listing.
pub fn cancel_listing(ledger: &mut Ledger, ctx: &CancelListing) -> (r: Result<(), ErrorCode>)
    requires
        old(ledger).wf(),
    ensures
        final(ledger).wf(),
        listings_consistent(old(ledger)@) ==> listings_consistent(final(ledger)@),
        match listing_address_of(ctx.seller@) {
            None => r == Err::<(), ErrorCode>(ErrorCode::NoViableAddress) && final(ledger)@ == old(
                ledger,
            )@,
            Some(slot) => (r, final(ledger)@) == cancel_outcome(old(ledger)@, slot, ctx.caller@),
        },
{
    cancel_listing::handler(ledger, ctx)
}

} // verus!
