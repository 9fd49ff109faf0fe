use crate::pubkey::Pubkey;
use vstd::prelude::*;

verus! {

/// The program address, with its bump seed, that is derived from `seeds` under
/// the program `program_id`; `None` when no bump seed gives an address off the
/// curve or the seeds are malformed.
pub uninterp spec fn program_address_of(seeds: Seq<Seq<u8>>, program_id: Seq<u8>) -> Option<(Seq<u8>, u8)>;

/// Relies on `Pubkey::try_find_program_address` of anchor_lang: a pure function
/// of the seeds and the program id, which returns `None` instead of panicking
/// when no bump seed works.
#[verifier::external_body]
fn try_find_program_address(seeds: &Vec<Vec<u8>>, program_id: &Pubkey) -> (r: Option<(Pubkey, u8)>)
    ensures
        match r {
            Some((a, bump)) => program_address_of(seeds.deep_view(), program_id@) == Some((a@, bump)),
            None => program_address_of(seeds.deep_view(), program_id@) is None,
        },
{
    let seeds: Vec<&[u8]> = seeds.iter().map(|s| s.as_slice()).collect();
    let program_id = anchor_lang::prelude::Pubkey::new_from_array(program_id.bytes);
    match anchor_lang::prelude::Pubkey::try_find_program_address(&seeds, &program_id) {
        Some((a, bump)) => Some((Pubkey::new(a.to_bytes()), bump)),
        None => None,
    }
}

/// The identity of this program, under which listing slots are derived.
pub open spec fn program_id() -> Pubkey {
    Pubkey {
        bytes: [
            152u8, 151, 122, 70, 71, 126, 243, 73, 120, 167, 146, 212, 78, 65, 51, 141,
            76, 163, 206, 37, 148, 129, 138, 134, 131, 207, 55, 25, 104, 215, 88, 15,
        ],
    }
}

/// The identity of this program.
pub fn id() -> (r: Pubkey)
    ensures
        r == program_id(),
{
    Pubkey {
        bytes: [
            152u8, 151, 122, 70, 71, 126, 243, 73, 120, 167, 146, 212, 78, 65, 51, 141,
            76, 163, 206, 37, 148, 129, 138, 134, 131, 207, 55, 25, 104, 215, 88, 15,
        ],
    }
}

/// The tag that every listing slot's seeds begin with: the bytes of "listing".
pub open spec fn listing_tag() -> Seq<u8> {
    seq![108u8, 105, 115, 116, 105, 110, 103]
}

/// The seeds of the slot that holds `seller`'s listing.
pub open spec fn listing_seeds(seller: Seq<u8>) -> Seq<Seq<u8>> {
    seq![listing_tag(), seller]
}

/// The address of the slot that holds `seller`'s listing, if one can be derived.
pub open spec fn listing_address_of(seller: Seq<u8>) -> Option<Seq<u8>> {
    match program_address_of(listing_seeds(seller), program_id()@) {
        Some((a, _)) => Some(a),
        None => None,
    }
}

/// Derives the address of the slot that holds `seller`'s listing.
pub fn listing_address(seller: &Pubkey) -> (r: Option<Pubkey>)
    ensures
        opt_address(r) == listing_address_of(seller@),
{
    let mut tag: Vec<u8> = Vec::new();
    tag.push(108u8);
    tag.push(105u8);
    tag.push(115u8);
    tag.push(116u8);
    tag.push(105u8);
    tag.push(110u8);
    tag.push(103u8);
    assert(tag@ =~= listing_tag());
    let key = seller.to_vec();
    assert(tag.deep_view() =~= listing_tag());
    assert(key.deep_view() =~= seller@);
    let mut seeds: Vec<Vec<u8>> = Vec::new();
    seeds.push(tag);
    seeds.push(key);
    assert(seeds.deep_view() =~= listing_seeds(seller@));
    match try_find_program_address(&seeds, &id()) {
        Some((a, _)) => Some(a),
        None => None,
    }
}

/// The view of an optional address.
pub open spec fn opt_address(a: Option<Pubkey>) -> Option<Seq<u8>> {
    match a {
        Some(k) => Some(k@),
        None => None,
    }
}

} // verus!
