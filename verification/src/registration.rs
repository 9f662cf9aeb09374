//! Registering DIDs as accounts.
//!
//! A [`Registration`] says what to ask of the account store, and is told the answer. A DID that
//! already has an account is left as it is.

use crate::identity::did_hash;
use crate::settings::MediatorACLSet;
use vstd::prelude::*;

verus! {

/// What to ask of the account store next.
#[derive(Clone, Copy, PartialEq, Eq, Structural, Debug)]
pub enum Inquiry {
    /// Whether the account of the current hash exists.
    LookUp,
    /// To add the account of the current hash.
    Add,
    /// Nothing.
    Finished,
}

/// DIDs that are being registered.
pub struct Registration {
    hashes: Vec<String>,
    acls: MediatorACLSet,
    next: usize,
    missing: bool,
}

/// The model of [`Registration`].
pub struct RegistrationView {
    /// The hashes of the DIDs.
    pub hashes: Seq<Seq<char>>,
    /// The permissions that they are given.
    pub acls: MediatorACLSet,
    /// How many of them are done.
    pub next: nat,
    /// Whether the current one was found to have no account.
    pub missing: bool,
}

impl View for Registration {
    type V = RegistrationView;

    closed spec fn view(&self) -> RegistrationView {
        RegistrationView {
            hashes: crate::text::views(self.hashes@),
            acls: self.acls,
            next: self.next as nat,
            missing: self.missing,
        }
    }
}

/// The hashes of a list of DIDs.
pub open spec fn hashes_of(dids: Seq<Seq<char>>) -> Seq<Seq<char>> {
    dids.map_values(|did: Seq<char>| crate::identity::sha256_hex(did))
}

/// A registration that has not begun.
pub open spec fn begun(hashes: Seq<Seq<char>>, acls: MediatorACLSet) -> RegistrationView {
    RegistrationView { hashes, acls, next: 0, missing: false }
}

/// What a registration asks next.
pub open spec fn inquiry_of(r: RegistrationView) -> Inquiry {
    if r.next >= r.hashes.len() {
        Inquiry::Finished
    } else if r.missing {
        Inquiry::Add
    } else {
        Inquiry::LookUp
    }
}

/// The registration once it knows whether the current account exists.
pub open spec fn after_look_up(r: RegistrationView, exists: bool) -> RegistrationView {
    if exists {
        RegistrationView { next: r.next + 1, ..r }
    } else {
        RegistrationView { missing: true, ..r }
    }
}

/// The registration once the current account was added.
pub open spec fn after_add(r: RegistrationView) -> RegistrationView {
    RegistrationView { next: r.next + 1, missing: false, ..r }
}

impl Registration {
    #[verifier::type_invariant]
    spec fn wf(self) -> bool {
        self.next <= self.hashes@.len()
    }

    /// Begins to register `dids` with the permissions `acls`.
    pub fn new(dids: &Vec<String>, acls: MediatorACLSet) -> (registration: Registration)
        ensures
            registration@ == begun(hashes_of(crate::text::views(dids@)), acls),
    {
        let mut hashes: Vec<String> = Vec::new();
        let ghost expected = hashes_of(crate::text::views(dids@));
        let mut i: usize = 0;
        while i < dids.len()
            invariant
                i <= dids@.len(),
                hashes@.len() == i,
                expected == hashes_of(crate::text::views(dids@)),
                forall|j: int| 0 <= j < i ==> (#[trigger] hashes@[j])@ == expected[j],
            decreases dids.len() - i,
        {
            hashes.push(did_hash(dids[i].as_str()));
            i += 1;
        }
        assert(crate::text::views(hashes@) =~= expected);
        Registration { hashes, acls, next: 0, missing: false }
    }

    /// What to ask of the account store next.
    pub fn inquiry(&self) -> (inquiry: Inquiry)
        ensures
            inquiry == inquiry_of(self@),
    {
        if self.next >= self.hashes.len() {
            Inquiry::Finished
        } else if self.missing {
            Inquiry::Add
        } else {
            Inquiry::LookUp
        }
    }

    /// The hash of the DID that the inquiry is about.
    pub fn did_hash(&self) -> (hash: &str)
        requires
            !(inquiry_of(self@) is Finished),
        ensures
            hash@ == self@.hashes[self@.next as int],
    {
        self.hashes[self.next].as_str()
    }

    /// The permissions of an account that is added.
    pub fn acls(&self) -> (acls: MediatorACLSet)
        ensures
            acls == self@.acls,
    {
        self.acls
    }

    /// Takes down whether the current account exists.
    pub fn looked_up(&mut self, exists: bool)
        requires
            inquiry_of(old(self)@) is LookUp,
        ensures
            final(self)@ == after_look_up(old(self)@, exists),
    {
        if exists {
            assert(self.next < self.hashes.len());
            self.next = self.next + 1;
        } else {
            self.missing = true;
        }
    }

    /// Takes down that the current account was added.
    pub fn added(&mut self)
        requires
            inquiry_of(old(self)@) is Add,
        ensures
            final(self)@ == after_add(old(self)@),
    {
        assert(self.next < self.hashes.len());
        self.next = self.next + 1;
        self.missing = false;
    }
}

/// The accounts of a store: the permissions of each hash.
pub type Accounts = Map<Seq<char>, MediatorACLSet>;

/// The accounts of a store, once it has answered everything that a registration asks.
pub open spec fn run(r: RegistrationView, accounts: Accounts) -> Accounts
    decreases
            r.hashes.len() - r.next,
            if r.missing {
                0int
            } else {
                1int
            },
{
    let hash = r.hashes[r.next as int];
    match inquiry_of(r) {
        Inquiry::LookUp => run(after_look_up(r, accounts.dom().contains(hash)), accounts),
        Inquiry::Add => run(after_add(r), accounts.insert(hash, r.acls)),
        Inquiry::Finished => accounts,
    }
}

/// The accounts with one more for each hash that has none.
pub open spec fn registered(
    accounts: Accounts,
    hashes: Seq<Seq<char>>,
    acls: MediatorACLSet,
) -> Accounts {
    Map::new(
        |hash: Seq<char>| accounts.dom().contains(hash) || hashes.contains(hash),
        |hash: Seq<char>|
            if accounts.dom().contains(hash) {
                accounts[hash]
            } else {
                acls
            },
    )
}

/// A registration that is under way registers the DIDs that are left.
proof fn lemma_run(r: RegistrationView, accounts: Accounts)
    requires
        r.next <= r.hashes.len(),
        r.missing ==> r.next < r.hashes.len() && !accounts.dom().contains(r.hashes[r.next as int]),
    ensures
        run(r, accounts) == registered(accounts, r.hashes.skip(r.next as int), r.acls),
    decreases
            r.hashes.len() - r.next,
            if r.missing {
                0int
            } else {
                1int
            },
{
    let left = r.hashes.skip(r.next as int);
    match inquiry_of(r) {
        Inquiry::Finished => {
            assert(left =~= seq![]);
            assert(registered(accounts, left, r.acls) =~= accounts);
        },
        Inquiry::LookUp => {
            let hash = r.hashes[r.next as int];
            let known = accounts.dom().contains(hash);
            lemma_run(after_look_up(r, known), accounts);
            if known {
                let rest = r.hashes.skip(r.next as int + 1);
                assert(left =~= seq![hash] + rest);
                lemma_contains_first(hash, rest);
                assert(registered(accounts, left, r.acls) =~= registered(accounts, rest, r.acls));
            }
        },
        Inquiry::Add => {
            let hash = r.hashes[r.next as int];
            let more = accounts.insert(hash, r.acls);
            let rest = r.hashes.skip(r.next as int + 1);
            lemma_run(after_add(r), more);
            assert(left =~= seq![hash] + rest);
            lemma_contains_first(hash, rest);
            assert(registered(accounts, left, r.acls) =~= registered(more, rest, r.acls));
        },
    }
}

/// What a sequence holds that begins with `first`.
proof fn lemma_contains_first(first: Seq<char>, rest: Seq<Seq<char>>)
    ensures
        forall|h: Seq<char>| #[trigger]
            (seq![first] + rest).contains(h) <==> h == first || rest.contains(h),
{
    let whole = seq![first] + rest;
    assert forall|h: Seq<char>| #[trigger] whole.contains(h) <==> h == first || rest.contains(h) by {
        if rest.contains(h) {
            let i = choose|i: int| 0 <= i < rest.len() && rest[i] == h;
            assert(whole[i + 1] == h);
        }
        if h == first {
            assert(whole[0] == h);
        }
        if whole.contains(h) {
            let i = choose|i: int| 0 <= i < whole.len() && whole[i] == h;
            if i > 0 {
                assert(rest[i - 1] == h);
            }
        }
    }
}

/// Once a registration has run, every DID has an account: the one it had, or a new one with the
/// permissions of the registration. No other account is touched.
pub proof fn law_registration_completes(
    accounts: Accounts,
    hashes: Seq<Seq<char>>,
    acls: MediatorACLSet,
)
    ensures
        run(begun(hashes, acls), accounts) == registered(accounts, hashes, acls),
{
    lemma_run(begun(hashes, acls), accounts);
    assert(hashes.skip(0) =~= hashes);
}

/// Registering again changes nothing, with whatever permissions.
pub proof fn law_registration_is_idempotent(
    accounts: Accounts,
    hashes: Seq<Seq<char>>,
    acls: MediatorACLSet,
    other: MediatorACLSet,
)
    ensures
        run(begun(hashes, other), run(begun(hashes, acls), accounts)) == run(
            begun(hashes, acls),
            accounts,
        ),
{
    law_registration_completes(accounts, hashes, acls);
    let once = registered(accounts, hashes, acls);
    law_registration_completes(once, hashes, other);
    assert(registered(once, hashes, other) =~= once);
}

/// An account that exists keeps its permissions.
pub proof fn law_existing_accounts_are_left_alone(
    accounts: Accounts,
    hashes: Seq<Seq<char>>,
    acls: MediatorACLSet,
    hash: Seq<char>,
)
    requires
        accounts.dom().contains(hash),
    ensures
        run(begun(hashes, acls), accounts).dom().contains(hash),
        run(begun(hashes, acls), accounts)[hash] == accounts[hash],
{
    law_registration_completes(accounts, hashes, acls);
}

} // verus!
