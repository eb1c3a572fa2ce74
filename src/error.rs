use vstd::prelude::*;
use vstd::string::*;

verus! {

/// What went wrong in a lookup.
#[derive(Debug, Clone, Copy, PartialEq, Eq)]
pub enum ErrorKind {
    /// The request could not be made or was answered with a failure.
    Transport,
    /// The search results hold no usable link to a profile.
    NotFound,
    /// The profile page lacks its info container.
    Parse,
}

/// An error of a lookup, with its kind and a message.
#[derive(Debug, Clone)]
pub struct SherdogError {
    kind: ErrorKind,
    details: String,
}

impl SherdogError {
    pub closed spec fn kind_view(&self) -> ErrorKind {
        self.kind
    }

    pub closed spec fn details_view(&self) -> Seq<char> {
        self.details@
    }

    /// An error saying that no profile link was found, with the given message.
    pub fn new(msg: &str) -> (r: SherdogError)
        ensures
            r.kind_view() == ErrorKind::NotFound,
            r.details_view() == msg@,
    {
        SherdogError { kind: ErrorKind::NotFound, details: String::from_str(msg) }
    }

    /// An error of the given kind with the given message.
    pub fn with_kind(kind: ErrorKind, msg: &str) -> (r: SherdogError)
        ensures
            r.kind_view() == kind,
            r.details_view() == msg@,
    {
        SherdogError { kind, details: String::from_str(msg) }
    }

    /// The kind.
    pub fn kind(&self) -> (r: ErrorKind)
        ensures
            r == self.kind_view(),
    {
        self.kind
    }

    /// The message.
    pub fn message(&self) -> (r: String)
        ensures
            r@ == self.details_view(),
    {
        self.details.clone()
    }
}

} // verus!
