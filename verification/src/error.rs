use vstd::prelude::*;
use lemmy_api_common::LemmyErrorType;

verus! {

/// The error kinds that a Lemmy server declares. Their definition belongs to
/// `lemmy_api_common`; a kind is carried through and never inspected here.
#[verifier::external_type_specification]
#[verifier::external_body]
pub struct ExLemmyErrorType(LemmyErrorType);

/// `Clone::clone` as `lemmy_api_common` derives it for its error kinds: the
/// copy is the same kind, with the same text where the kind carries one.
pub assume_specification[ <LemmyErrorType as Clone>::clone ](kind: &LemmyErrorType) -> (copy:
    LemmyErrorType)
    ensures
        copy == *kind,
;

/// An error returned from the API.
#[derive(Debug, Clone, PartialEq, Eq)]
pub enum LemmyClientError {
    /// The request could not be sent, or the response matched neither the
    /// expected payload nor a server-declared error. Holds the cause in words.
    Other(String),
    /// Error kind returned by the server.
    Lemmy(LemmyErrorType),
}

/// The mathematical value of a [`LemmyClientError`].
pub enum LemmyClientErrorView {
    Other(Seq<char>),
    Lemmy(LemmyErrorType),
}

impl View for LemmyClientError {
    type V = LemmyClientErrorView;

    open spec fn view(&self) -> LemmyClientErrorView {
        match self {
            LemmyClientError::Other(cause) => LemmyClientErrorView::Other(cause@),
            LemmyClientError::Lemmy(kind) => LemmyClientErrorView::Lemmy(*kind),
        }
    }
}

impl vstd::std_specs::convert::FromSpecImpl<LemmyErrorType> for LemmyClientError {
    open spec fn obeys_from_spec() -> bool {
        true
    }

    open spec fn from_spec(value: LemmyErrorType) -> Self {
        LemmyClientError::Lemmy(value)
    }
}

impl From<LemmyErrorType> for LemmyClientError {
    /// A server-declared error kind as a client error.
    fn from(value: LemmyErrorType) -> (error: Self) {
        LemmyClientError::Lemmy(value)
    }
}

} // verus!
