//! The errors that this library raises.

use crate::error_codes::{CONFIG_ERROR, DB_OPERATION_ERROR, INTERNAL_ERROR};
use crate::text::appended;
use vstd::prelude::*;

verus! {

/// An error of the mediator: its code, the session it belongs to (`NA` where there is none), and
/// a text.
#[derive(Clone, Debug)]
pub enum MediatorError {
    ConfigError(u16, String, String),
    DatabaseError(u16, String, String),
    InternalError(u16, String, String),
}

/// The model of [`MediatorError`].
pub enum ErrorView {
    ConfigError(u16, Seq<char>, Seq<char>),
    DatabaseError(u16, Seq<char>, Seq<char>),
    InternalError(u16, Seq<char>, Seq<char>),
}

impl View for MediatorError {
    type V = ErrorView;

    open spec fn view(&self) -> ErrorView {
        match *self {
            MediatorError::ConfigError(code, session, text) => ErrorView::ConfigError(
                code,
                session@,
                text@,
            ),
            MediatorError::DatabaseError(code, session, text) => ErrorView::DatabaseError(
                code,
                session@,
                text@,
            ),
            MediatorError::InternalError(code, session, text) => ErrorView::InternalError(
                code,
                session@,
                text@,
            ),
        }
    }
}

/// The view of an optional error.
pub open spec fn opt_error_view(error: Option<MediatorError>) -> Option<ErrorView> {
    match error {
        Some(e) => Some(e@),
        None => None,
    }
}

/// A configuration error outside of any session.
pub open spec fn config_view(text: Seq<char>) -> ErrorView {
    ErrorView::ConfigError(CONFIG_ERROR, "NA"@, text)
}

/// A database error outside of any session.
pub open spec fn database_view(text: Seq<char>) -> ErrorView {
    ErrorView::DatabaseError(DB_OPERATION_ERROR, "NA"@, text)
}

/// An internal error outside of any session.
pub open spec fn internal_view(text: Seq<char>) -> ErrorView {
    ErrorView::InternalError(INTERNAL_ERROR, "NA"@, text)
}

/// A configuration error outside of any session.
pub fn config_error(text: String) -> (error: MediatorError)
    ensures
        error@ == config_view(text@),
{
    MediatorError::ConfigError(CONFIG_ERROR, "NA".to_owned(), text)
}

/// A database error outside of any session.
pub fn database_error(text: String) -> (error: MediatorError)
    ensures
        error@ == database_view(text@),
{
    MediatorError::DatabaseError(DB_OPERATION_ERROR, "NA".to_owned(), text)
}

/// An internal error outside of any session.
pub fn internal_error(text: String) -> (error: MediatorError)
    ensures
        error@ == internal_view(text@),
{
    MediatorError::InternalError(INTERNAL_ERROR, "NA".to_owned(), text)
}

/// An error of the test mediator. `E` is the error of the mediator that it runs.
#[derive(Clone, Debug)]
#[non_exhaustive]
pub enum TestMediatorError<E> {
    /// A DID could not be generated.
    DidGeneration(String),
    /// No listener could be bound.
    Bind(String),
    /// The key pair for signing tokens could not be generated.
    JwtKey(String),
    /// The mediator returned an error.
    Mediator(E),
    /// A permission could not be set.
    Acl(String),
}

impl<E> TestMediatorError<E> {
    /// The text of the error. A mediator's error has the text `inner`, as the mediator gives it.
    pub open spec fn spec_message(self, inner: Seq<char>) -> Seq<char> {
        match self {
            TestMediatorError::DidGeneration(t) => "did:peer generation failed: "@ + t@,
            TestMediatorError::Bind(t) => "listener bind failed: "@ + t@,
            TestMediatorError::JwtKey(t) => "JWT key generation failed: "@ + t@,
            TestMediatorError::Mediator(_) => inner,
            TestMediatorError::Acl(t) => "ACL operation failed: "@ + t@,
        }
    }

    /// The text of the error. A mediator's error has the text `inner`, as the mediator gives it.
    pub fn message(&self, inner: &str) -> (text: String)
        ensures
            text@ == self.spec_message(inner@),
    {
        match self {
            TestMediatorError::DidGeneration(t) => appended("did:peer generation failed: ", t),
            TestMediatorError::Bind(t) => appended("listener bind failed: ", t),
            TestMediatorError::JwtKey(t) => appended("JWT key generation failed: ", t),
            TestMediatorError::Mediator(_) => inner.to_owned(),
            TestMediatorError::Acl(t) => appended("ACL operation failed: ", t),
        }
    }
}

} // verus!
