//! The error taxonomy of the manager and of the bootstrap path.

use vstd::prelude::*;

verus! {

/// Why a call failed. Each variant carries a message for the operator.
#[derive(Debug, Clone, PartialEq, Eq)]
pub enum Error {
    /// `create` named an id that the registry already holds.
    AlreadyExists(String),
    /// The runtime descriptor is missing or cannot be parsed.
    InvalidArgument(String),
    /// `connect` named an id that the registry does not hold.
    NotFound(String),
    /// Transport, thread-spawn, namespace and listener failures.
    Others(String),
}

/// An [`Error`] with its message as a sequence of characters.
pub enum ErrorView {
    AlreadyExists(Seq<char>),
    InvalidArgument(Seq<char>),
    NotFound(Seq<char>),
    Others(Seq<char>),
}

impl View for Error {
    type V = ErrorView;

    open spec fn view(&self) -> ErrorView {
        match self {
            Error::AlreadyExists(m) => ErrorView::AlreadyExists(m@),
            Error::InvalidArgument(m) => ErrorView::InvalidArgument(m@),
            Error::NotFound(m) => ErrorView::NotFound(m@),
            Error::Others(m) => ErrorView::Others(m@),
        }
    }
}

impl ErrorView {
    /// The message that the error carries, whatever its kind.
    pub open spec fn message(self) -> Seq<char> {
        match self {
            ErrorView::AlreadyExists(m) => m,
            ErrorView::InvalidArgument(m) => m,
            ErrorView::NotFound(m) => m,
            ErrorView::Others(m) => m,
        }
    }

    /// What an operator reads: the kind, a colon and the message; an
    /// `Others` error reads as its bare message.
    pub open spec fn text(self) -> Seq<char> {
        match self {
            ErrorView::AlreadyExists(m) => "already exists: "@ + m,
            ErrorView::InvalidArgument(m) => "invalid argument: "@ + m,
            ErrorView::NotFound(m) => "not found: "@ + m,
            ErrorView::Others(m) => m,
        }
    }
}

/// `prefix` followed by `rest`, in one new string.
pub fn prefixed(prefix: &str, rest: &str) -> (out: String)
    ensures
        out@ == prefix@ + rest@,
{
    let mut out = prefix.to_owned();
    out.append(rest);
    out
}

impl Error {
    /// The message that the error carries, whatever its kind.
    pub fn message(&self) -> (m: &str)
        ensures
            m@ == self@.message(),
    {
        match self {
            Error::AlreadyExists(m) => m.as_str(),
            Error::InvalidArgument(m) => m.as_str(),
            Error::NotFound(m) => m.as_str(),
            Error::Others(m) => m.as_str(),
        }
    }

    /// The error as an operator reads it.
    pub fn to_text(&self) -> (t: String)
        ensures
            t@ == self@.text(),
    {
        match self {
            Error::AlreadyExists(m) => prefixed("already exists: ", m.as_str()),
            Error::InvalidArgument(m) => prefixed("invalid argument: ", m.as_str()),
            Error::NotFound(m) => prefixed("not found: ", m.as_str()),
            Error::Others(m) => m.clone(),
        }
    }
}

} // verus!
