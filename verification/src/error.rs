//! Failure reasons reported by the buffer.
use vstd::prelude::*;
use vstd::std_specs::convert::{FromSpec, FromSpecImpl};

verus! {

/// The reasons for which an operation on the buffer can fail.
#[derive(Clone, Copy, Debug, Eq, Hash, Ord, PartialEq, PartialOrd, Structural)]
pub enum ErrorKind {
    /// No slot is free for writing; committed data must be released with
    /// `decommit` first.
    NoSpace,
}

/// An error of the buffer, which carries its reason.
#[derive(Clone, Copy, Debug)]
pub struct Error {
    kind: ErrorKind,
}

impl ErrorKind {
    /// The text that describes this reason.
    pub open spec fn text(self) -> Seq<char> {
        match self {
            ErrorKind::NoSpace => "no space"@,
        }
    }

    /// A short description of this reason.
    pub fn as_str(self) -> (s: &'static str)
        ensures
            s@ == self.text(),
    {
        match self {
            ErrorKind::NoSpace => "no space",
        }
    }
}

impl Error {
    /// The reason that this error carries, in contracts.
    pub closed spec fn spec_kind(&self) -> ErrorKind {
        self.kind
    }

    /// The reason that this error carries.
    #[verifier::when_used_as_spec(spec_kind)]
    pub fn kind(&self) -> (k: ErrorKind)
        ensures
            k == self.spec_kind(),
    {
        self.kind
    }

    /// A short description of the error: that of its reason.
    pub fn description(&self) -> (s: &'static str)
        ensures
            s@ == self.spec_kind().text(),
    {
        self.kind.as_str()
    }
}

impl From<ErrorKind> for Error {
    fn from(kind: ErrorKind) -> (e: Error) {
        Error { kind }
    }
}

impl FromSpecImpl<ErrorKind> for Error {
    open spec fn obeys_from_spec() -> bool {
        true
    }

    closed spec fn from_spec(kind: ErrorKind) -> Error {
        Error { kind }
    }
}

/// An error made from a reason carries that reason.
pub proof fn lemma_from_keeps_kind(kind: ErrorKind)
    ensures
        <Error as FromSpec<ErrorKind>>::from_spec(kind).spec_kind() == kind,
{
}

} // verus!
