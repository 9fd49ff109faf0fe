use crate::pubkey::{opt_key_view, Pubkey};
use vstd::prelude::*;
use vstd::string::StringSliceAdditionalSpecFns;
use vstd::utf8::encode_utf8;

verus! {

/// Bytes allotted to a listing's storage: discriminator, seller, optional
/// buyer, price and up to 200 bytes of description.
pub const LISTING_SPACE: usize = 8 + 32 + 1 + 32 + 8 + 200;

/// Bytes that a listing with a buyer takes besides its description:
/// discriminator, seller, tagged buyer, price, length prefix and the sold flag.
pub const LISTING_FIXED_LEN: usize = 8 + 32 + 1 + 32 + 8 + 4 + 1;

/// The longest description, in UTF-8 bytes, that still fits the listing's
/// storage once a buyer is recorded.
pub const MAX_DESCRIPTION_LEN: usize = LISTING_SPACE - LISTING_FIXED_LEN;

/// One seller's item for sale.
#[derive(Debug)]
pub struct Listing {
    pub seller: Pubkey,
    pub buyer: Option<Pubkey>,
    pub price: u64,
    pub description: String,
    pub sold: bool,
}

/// What a listing holds, as plain values.
pub struct ListingView {
    pub seller: Seq<u8>,
    pub buyer: Option<Seq<u8>>,
    pub price: u64,
    pub description: Seq<char>,
    pub sold: bool,
}

impl View for Listing {
    type V = ListingView;

    open spec fn view(&self) -> ListingView {
        ListingView {
            seller: self.seller@,
            buyer: opt_key_view(self.buyer),
            price: self.price,
            description: self.description@,
            sold: self.sold,
        }
    }
}

impl ListingView {
    /// A listing is sold exactly when it records a buyer.
    pub open spec fn sold_iff_buyer(self) -> bool {
        self.sold <==> self.buyer is Some
    }
}

/// The view of an optional listing.
pub open spec fn opt_listing_view(l: Option<Listing>) -> Option<ListingView> {
    match l {
        Some(x) => Some(x@),
        None => None,
    }
}

/// The length in UTF-8 bytes of a description held in memory, as `str::len`
/// gives it.
pub open spec fn description_len(d: Seq<char>) -> usize {
    encode_utf8(d).len() as usize
}

/// Whether a description fits a listing's storage.
pub open spec fn description_fits(d: Seq<char>) -> bool {
    description_len(d) <= MAX_DESCRIPTION_LEN
}

/// Tells whether `description` fits a listing's storage.
pub fn check_description(description: &String) -> (r: bool)
    ensures
        r == description_fits(description@),
{
    let text = description.as_str();
    let n = text.len();
    assert(text.spec_bytes() == encode_utf8(description@));
    n <= MAX_DESCRIPTION_LEN
}

} // verus!
