use mediator::identity::did_hash;
use mediator::registration::{Inquiry, Registration};
use mediator::settings::MediatorACLSet;

/// A store of accounts in memory.
struct Store {
    accounts: Vec<(String, MediatorACLSet)>,
}

impl Store {
    fn find(&self, hash: &str) -> Option<MediatorACLSet> {
        self.accounts.iter().find(|a| a.0 == hash).map(|a| a.1)
    }

    fn run(&mut self, dids: &[&str], acl: u64) {
        let dids: Vec<String> = dids.iter().map(|d| d.to_string()).collect();
        let mut registration = Registration::new(&dids, MediatorACLSet { acl });
        loop {
            match registration.inquiry() {
                Inquiry::LookUp => {
                    let exists = self.find(registration.did_hash()).is_some();
                    registration.looked_up(exists);
                }
                Inquiry::Add => {
                    self.accounts.push((registration.did_hash().to_string(), registration.acls()));
                    registration.added();
                }
                Inquiry::Finished => return,
            }
        }
    }
}

#[test]
fn every_did_is_registered_once() {
    let mut store = Store { accounts: vec![] };
    store.run(&["did:example:a", "did:example:b", "did:example:a"], 3);
    assert_eq!(store.accounts.len(), 2);
    assert_eq!(store.find(&did_hash("did:example:a")), Some(MediatorACLSet { acl: 3 }));
    assert_eq!(store.find(&did_hash("did:example:b")), Some(MediatorACLSet { acl: 3 }));
}

#[test]
fn registering_again_changes_nothing() {
    let mut store = Store { accounts: vec![] };
    store.run(&["did:example:a"], 1);
    store.run(&["did:example:a", "did:example:b"], 2);
    assert_eq!(store.accounts.len(), 2);
    assert_eq!(store.find(&did_hash("did:example:a")), Some(MediatorACLSet { acl: 1 }));
    assert_eq!(store.find(&did_hash("did:example:b")), Some(MediatorACLSet { acl: 2 }));
}

#[test]
fn nothing_to_register() {
    let registration = Registration::new(&vec![], MediatorACLSet { acl: 0 });
    assert_eq!(registration.inquiry(), Inquiry::Finished);
}
