use crate::error::ErrorCode;
use crate::pubkey::Pubkey;
use crate::state::{opt_listing_view, Listing, ListingView};
use vstd::prelude::*;

verus! {

/// What one account holds: its balance and, for a listing slot, the listing.
pub struct AccountView {
    pub lamports: u64,
    pub listing: Option<ListingView>,
}

/// The balance of `k` in `m`; an account never seen holds nothing.
pub open spec fn lamports_of(m: Map<Seq<u8>, AccountView>, k: Seq<u8>) -> u64 {
    if m.contains_key(k) {
        m[k].lamports
    } else {
        0
    }
}

/// The listing stored at `k` in `m`, if any.
pub open spec fn listing_of(m: Map<Seq<u8>, AccountView>, k: Seq<u8>) -> Option<ListingView> {
    if m.contains_key(k) {
        m[k].listing
    } else {
        None
    }
}

/// `m` with the balance of `k` set to `v`.
pub open spec fn with_lamports(m: Map<Seq<u8>, AccountView>, k: Seq<u8>, v: u64) -> Map<
    Seq<u8>,
    AccountView,
> {
    m.insert(k, AccountView { lamports: v, listing: listing_of(m, k) })
}

/// `m` with the listing at `k` set to `l`.
pub open spec fn with_listing(
    m: Map<Seq<u8>, AccountView>,
    k: Seq<u8>,
    l: Option<ListingView>,
) -> Map<Seq<u8>, AccountView> {
    m.insert(k, AccountView { lamports: lamports_of(m, k), listing: l })
}

/// Moving `amount` from `from` to `to`: the payer must hold the amount, and
/// the payee's balance must not overflow.
pub open spec fn transfer_result(
    m: Map<Seq<u8>, AccountView>,
    from: Seq<u8>,
    to: Seq<u8>,
    amount: u64,
) -> Result<Map<Seq<u8>, AccountView>, ErrorCode> {
    if lamports_of(m, from) < amount {
        Err(ErrorCode::InsufficientFunds)
    } else if from == to {
        Ok(m)
    } else if lamports_of(m, to) + amount > u64::MAX {
        Err(ErrorCode::TransferFailed)
    } else {
        let m1 = with_lamports(m, from, (lamports_of(m, from) - amount) as u64);
        Ok(with_lamports(m1, to, (lamports_of(m, to) + amount) as u64))
    }
}

/// Every stored listing is sold exactly when it records a buyer.
pub open spec fn listings_consistent(m: Map<Seq<u8>, AccountView>) -> bool {
    forall|k: Seq<u8>| #[trigger]
        listing_of(m, k) is Some ==> listing_of(m, k).unwrap().sold_iff_buyer()
}

/// A transfer moves balances only: every stored listing stays as it was.
pub proof fn lemma_transfer_keeps_listings(
    m: Map<Seq<u8>, AccountView>,
    from: Seq<u8>,
    to: Seq<u8>,
    amount: u64,
)
    ensures
        transfer_result(m, from, to, amount) is Ok ==> forall|k: Seq<u8>|
            #[trigger] listing_of(transfer_result(m, from, to, amount)->Ok_0, k) == listing_of(
                m,
                k,
            ),
{
}

struct Account {
    key: Pubkey,
    lamports: u64,
    listing: Option<Listing>,
}

impl Account {
    spec fn entry(&self) -> AccountView {
        AccountView { lamports: self.lamports, listing: opt_listing_view(self.listing) }
    }
}

/// The accounts that listings live in and pay from, keyed by identity.
pub struct Ledger {
    accounts: Vec<Account>,
    contents: Ghost<Map<Seq<u8>, AccountView>>,
}

impl View for Ledger {
    type V = Map<Seq<u8>, AccountView>;

    closed spec fn view(&self) -> Map<Seq<u8>, AccountView> {
        self.contents@
    }
}

impl Ledger {
    /// The accounts have distinct keys, and the view maps each key to its
    /// account and nothing else.
    pub closed spec fn wf(&self) -> bool {
        &&& forall|i: int, j: int|
            0 <= i < j < self.accounts@.len() ==> self.accounts@[i].key@
                != self.accounts@[j].key@
        &&& forall|i: int|
            0 <= i < self.accounts@.len() ==> self.contents@.contains_key(
                #[trigger] self.accounts@[i].key@,
            ) && self.contents@[self.accounts@[i].key@] == self.accounts@[i].entry()
        &&& forall|k: Seq<u8>| #[trigger]
            self.contents@.contains_key(k) ==> exists|i: int|
                0 <= i < self.accounts@.len() && #[trigger] self.accounts@[i].key@ == k
    }

    /// A ledger with no accounts.
    pub fn new() -> (r: Ledger)
        ensures
            r.wf(),
            r@ == Map::<Seq<u8>, AccountView>::empty(),
            listings_consistent(r@),
    {
        Ledger { accounts: Vec::new(), contents: Ghost(Map::empty()) }
    }

    fn find(&self, key: &Pubkey) -> (r: Option<usize>)
        requires
            self.wf(),
        ensures
            match r {
                Some(i) => i < self.accounts@.len() && self.accounts@[i as int].key@ == key@,
                None => !self@.contains_key(key@),
            },
    {
        let mut i: usize = 0;
        while i < self.accounts.len()
            invariant
                self.wf(),
                i <= self.accounts@.len(),
                forall|j: int| 0 <= j < i ==> self.accounts@[j].key@ != key@,
            decreases self.accounts@.len() - i,
        {
            if self.accounts[i].key.same_as(key) {
                return Some(i);
            }
            i = i + 1;
        }
        None
    }

    /// The balance of `key`.
    pub fn lamports(&self, key: &Pubkey) -> (r: u64)
        requires
            self.wf(),
        ensures
            r == lamports_of(self@, key@),
    {
        match self.find(key) {
            Some(i) => self.accounts[i].lamports,
            None => 0,
        }
    }

    /// The listing stored at `key`, if any.
    pub fn listing(&self, key: &Pubkey) -> (r: Option<&Listing>)
        requires
            self.wf(),
        ensures
            match r {
                Some(l) => listing_of(self@, key@) == Some(l@),
                None => listing_of(self@, key@) is None,
            },
    {
        match self.find(key) {
            Some(i) => match &self.accounts[i].listing {
                Some(l) => Some(l),
                None => None,
            },
            None => None,
        }
    }

    /// Replaces the account at `key`, adding it if it is new.
    fn put(&mut self, key: &Pubkey, lamports: u64, listing: Option<Listing>)
        requires
            old(self).wf(),
        ensures
            final(self).wf(),
            final(self)@ == old(self)@.insert(
                key@,
                AccountView { lamports, listing: opt_listing_view(listing) },
            ),
    {
        let ghost e = AccountView { lamports, listing: opt_listing_view(listing) };
        let ghost pre = self.accounts@;
        match self.find(key) {
            Some(i) => {
                let acct = Account { key: self.accounts[i].key, lamports, listing };
                self.accounts.set(i, acct);
                self.contents = Ghost(self.contents@.insert(key@, e));
                assert forall|k: Seq<u8>| #[trigger]
                    self.contents@.contains_key(k) implies exists|j: int|
                        0 <= j < self.accounts@.len() && #[trigger] self.accounts@[j].key@
                            == k by {
                    if k == key@ {
                        assert(self.accounts@[i as int].key@ == k);
                    } else {
                        let j = choose|j: int| 0 <= j < pre.len() && #[trigger] pre[j].key@ == k;
                        assert(self.accounts@[j].key@ == k);
                    }
                }
            },
            None => {
                let acct = Account { key: *key, lamports, listing };
                self.accounts.push(acct);
                self.contents = Ghost(self.contents@.insert(key@, e));
                assert forall|k: Seq<u8>| #[trigger]
                    self.contents@.contains_key(k) implies exists|j: int|
                        0 <= j < self.accounts@.len() && #[trigger] self.accounts@[j].key@
                            == k by {
                    if k == key@ {
                        assert(self.accounts@[pre.len() as int].key@ == k);
                    } else {
                        let j = choose|j: int| 0 <= j < pre.len() && #[trigger] pre[j].key@ == k;
                        assert(self.accounts@[j].key@ == k);
                    }
                }
            },
        }
    }
    /// Removes the listing stored at `key` and hands it back; the balance
    /// stays.
    fn take_listing(&mut self, key: &Pubkey) -> (r: Option<Listing>)
        requires
            old(self).wf(),
        ensures
            final(self).wf(),
            opt_listing_view(r) == listing_of(old(self)@, key@),
            final(self)@ == if old(self)@.contains_key(key@) {
                with_listing(old(self)@, key@, None)
            } else {
                old(self)@
            },
    {
        let ghost pre = self.accounts@;
        match self.find(key) {
            Some(i) => {
                let mut acct = Account { key: *key, lamports: self.accounts[i].lamports, listing: None };
                self.accounts.set_and_swap(i, &mut acct);
                self.contents = Ghost(with_listing(self.contents@, key@, None));
                assert forall|k: Seq<u8>| #[trigger]
                    self.contents@.contains_key(k) implies exists|j: int|
                        0 <= j < self.accounts@.len() && #[trigger] self.accounts@[j].key@
                            == k by {
                    if k == key@ {
                        assert(self.accounts@[i as int].key@ == k);
                    } else {
                        let j = choose|j: int| 0 <= j < pre.len() && #[trigger] pre[j].key@ == k;
                        assert(self.accounts@[j].key@ == k);
                    }
                }
                acct.listing
            },
            None => None,
        }
    }

    /// Sets the balance of `key`, keeping its listing.
    fn set_lamports(&mut self, key: &Pubkey, v: u64)
        requires
            old(self).wf(),
        ensures
            final(self).wf(),
            final(self)@ == with_lamports(old(self)@, key@, v),
    {
        let listing = self.take_listing(key);
        self.put(key, v, listing);
        assert(self@ =~= with_lamports(old(self)@, key@, v));
    }

    /// Sets the listing stored at `key`, keeping its balance.
    pub(crate) fn set_listing(&mut self, key: &Pubkey, listing: Option<Listing>)
        requires
            old(self).wf(),
        ensures
            final(self).wf(),
            final(self)@ == with_listing(old(self)@, key@, opt_listing_view(listing)),
    {
        let v = self.lamports(key);
        self.put(key, v, listing);
    }

    /// Moves `amount` from `from` to `to`; on failure nothing changes.
    pub fn transfer(&mut self, from: &Pubkey, to: &Pubkey, amount: u64) -> (r: Result<(), ErrorCode>)
        requires
            old(self).wf(),
        ensures
            final(self).wf(),
            match transfer_result(old(self)@, from@, to@, amount) {
                Ok(m) => r is Ok && final(self)@ == m,
                Err(e) => r == Err::<(), ErrorCode>(e) && final(self)@ == old(self)@,
            },
    {
        let a = self.lamports(from);
        if a < amount {
            return Err(ErrorCode::InsufficientFunds);
        }
        if from.same_as(to) {
            return Ok(());
        }
        let b = self.lamports(to);
        if b > u64::MAX - amount {
            return Err(ErrorCode::TransferFailed);
        }
        self.set_lamports(from, a - amount);
        proof {
            assert(lamports_of(self@, to@) == b);
        }
        self.set_lamports(to, b + amount);
        Ok(())
    }

    /// Credits `amount` to `key` from outside the ledger; fails, changing
    /// nothing, where the balance would overflow.
    pub fn fund(&mut self, key: &Pubkey, amount: u64) -> (r: Result<(), ErrorCode>)
        requires
            old(self).wf(),
        ensures
            final(self).wf(),
            lamports_of(old(self)@, key@) + amount <= u64::MAX ==> r is Ok && final(self)@
                == with_lamports(
                old(self)@,
                key@,
                (lamports_of(old(self)@, key@) + amount) as u64,
            ),
            lamports_of(old(self)@, key@) + amount > u64::MAX ==> r == Err::<(), ErrorCode>(
                ErrorCode::TransferFailed,
            ) && final(self)@ == old(self)@,
    {
        let b = self.lamports(key);
        if b > u64::MAX - amount {
            return Err(ErrorCode::TransferFailed);
        }
        self.set_lamports(key, b + amount);
        Ok(())
    }
}

} // verus!
