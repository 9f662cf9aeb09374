//! Account tiers.

use vstd::prelude::*;

verus! {

/// What a DID is on this mediator.
#[derive(Clone, Copy, PartialEq, Eq, Structural, Debug)]
pub enum AccountType {
    /// The mediator itself.
    Mediator,
    /// The root administrator, who manages the other administrators.
    RootAdmin,
    /// An administrator.
    Admin,
    /// An ordinary account.
    Standard,
    /// An account of a tier that is not known.
    Unknown,
}

impl AccountType {
    /// Whether the tier has administrative rights.
    pub open spec fn spec_is_admin(self) -> bool {
        self is Mediator || self is RootAdmin || self is Admin
    }

    /// Whether the tier has administrative rights.
    pub fn is_admin(&self) -> (yes: bool)
        ensures
            yes == self.spec_is_admin(),
    {
        matches!(self, AccountType::Admin | AccountType::RootAdmin | AccountType::Mediator)
    }
}

} // verus!
