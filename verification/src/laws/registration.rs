//! What a registration asks of the account store.

use crate::registration::{Inquiry, Registration};
use crate::settings::MediatorACLSet;
use vstd::prelude::*;

verus! {

/// A registration is about the digest of each DID, in the order in which the DIDs were given, and
/// gives all of them the same permissions.
pub proof fn law_a_registration_is_about_each_did(
    dids: Vec<String>,
    acls: MediatorACLSet,
    registration: Registration,
    given: MediatorACLSet,
    i: int,
)
    requires
        call_ensures(Registration::new, (&dids, acls), registration),
        call_ensures(Registration::acls, (&registration,), given),
    ensures
        registration@.hashes.len() == dids@.len(),
        0 <= i < dids@.len() ==> registration@.hashes[i] == crate::identity::sha256_hex(dids@[i]@),
        given == acls,
        registration@.next == 0,
        !registration@.missing,
{
}

/// The store is asked whether the current account exists, then to add it where it does not, and
/// nothing more once every DID is done. The question is about the hash of the current DID.
pub proof fn law_an_account_is_looked_up_before_it_is_added(
    registration: Registration,
    inquiry: Inquiry,
    hash: &str,
)
    requires
        call_ensures(Registration::inquiry, (&registration,), inquiry),
        registration@.next < registration@.hashes.len() ==> call_ensures(
            Registration::did_hash,
            (&registration,),
            hash,
        ),
    ensures
        registration@.next >= registration@.hashes.len() ==> inquiry == Inquiry::Finished,
        registration@.next < registration@.hashes.len() ==> {
            &&& hash@ == registration@.hashes[registration@.next as int]
            &&& registration@.missing ==> inquiry == Inquiry::Add
            &&& !registration@.missing ==> inquiry == Inquiry::LookUp
        },
{
}

/// An account that exists is done, and one that does not is to be added; one that was added is
/// done. What the registration is about, and the permissions that it gives, never change.
pub proof fn law_a_registration_moves_on(found: bool)
    ensures
        forall|registration: &mut Registration| #[trigger]
            call_ensures(Registration::looked_up, (registration, found), ()) ==> {
                let before = registration@;
                let after = final(registration)@;
                &&& after.hashes == before.hashes && after.acls == before.acls
                &&& found ==> after.next == before.next + 1 && after.missing == before.missing
                &&& !found ==> after.next == before.next && after.missing
            },
        forall|registration: &mut Registration| #[trigger]
            call_ensures(Registration::added, (registration,), ()) ==> {
                let before = registration@;
                let after = final(registration)@;
                &&& after.hashes == before.hashes && after.acls == before.acls
                &&& after.next == before.next + 1
                &&& !after.missing
            },
{
}

/// Once a store has answered everything that a registration of `dids` asks, each of them has an
/// account: the one that it had, or a new one with the given permissions. Every other account is
/// as it was.
pub proof fn law_every_did_ends_up_with_an_account(
    dids: Vec<String>,
    acls: MediatorACLSet,
    registration: Registration,
    accounts: Map<Seq<char>, MediatorACLSet>,
    hash: Seq<char>,
)
    requires
        call_ensures(Registration::new, (&dids, acls), registration),
    ensures
        ({
            let after = crate::registration::run(registration@, accounts);
            let meant = exists|i: int|
                0 <= i < dids@.len() && hash == crate::identity::sha256_hex(
                    (#[trigger] dids@[i])@,
                );
            &&& accounts.contains_key(hash) ==> after.contains_key(hash) && after[hash]
                == accounts[hash]
            &&& !accounts.contains_key(hash) && meant ==> after.contains_key(hash) && after[hash]
                == acls
            &&& !accounts.contains_key(hash) && !meant ==> !after.contains_key(hash)
        }),
{
    let hashes = registration@.hashes;
    crate::registration::law_registration_completes(accounts, hashes, acls);
    if exists|i: int|
        0 <= i < dids@.len() && hash == crate::identity::sha256_hex((#[trigger] dids@[i])@) {
        let i = choose|i: int|
            0 <= i < dids@.len() && hash == crate::identity::sha256_hex((#[trigger] dids@[i])@);
        assert(hashes[i] == hash);
    }
    if hashes.contains(hash) {
        let i = choose|i: int| 0 <= i < hashes.len() && hashes[i] == hash;
        assert(hash == crate::identity::sha256_hex(dids@[i]@));
    }
}

} // verus!
