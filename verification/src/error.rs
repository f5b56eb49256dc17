//! The closed set of failures that the registry reports to its callers.

use vstd::prelude::*;

verus! {

/// A failure of the registry, as a value that callers can branch on.
#[derive(Debug, PartialEq, Eq)]
pub enum Error {
    /// The store could not complete the operation: a uniqueness constraint,
    /// a missing target, an exhausted resource.
    DatabaseQuery { source: String },
    /// A lookup by key found no record.
    NotFound { entity: String, id: String },
    /// An input or output failure underneath the store.
    Io { source: String },
    /// A failure that fits none of the other kinds.
    Unknown(String),
}

/// What an [`Error`] is, with its texts as sequences of characters.
pub enum ErrorView {
    DatabaseQuery { source: Seq<char> },
    NotFound { entity: Seq<char>, id: Seq<char> },
    Io { source: Seq<char> },
    Unknown(Seq<char>),
}

impl View for Error {
    type V = ErrorView;

    open spec fn view(&self) -> ErrorView {
        match self {
            Error::DatabaseQuery { source } => ErrorView::DatabaseQuery { source: source@ },
            Error::NotFound { entity, id } => ErrorView::NotFound { entity: entity@, id: id@ },
            Error::Io { source } => ErrorView::Io { source: source@ },
            Error::Unknown(detail) => ErrorView::Unknown(detail@),
        }
    }
}

/// The failure type of std's input and output, which Verus is told of so
/// that one can be taken in. Nothing is claimed of what it holds.
#[verifier::external_type_specification]
#[verifier::external_body]
pub struct ExIoError(std::io::Error);

impl From<std::io::Error> for Error {
    /// An input or output failure, with the text that std gives for it.
    fn from(e: std::io::Error) -> (r: Error)
        ensures
            r@ is Io,
    {
        Error::Io { source: e.to_string() }
    }
}

impl vstd::std_specs::convert::FromSpecImpl<std::io::Error> for Error {
    open spec fn obeys_from_spec() -> bool {
        false
    }

    open spec fn from_spec(e: std::io::Error) -> Error {
        arbitrary()
    }
}

/// The name of the kind of storage faults.
pub const KIND_STORAGE_FAULT: &'static str = "StorageFault";

/// The name of the kind of lookups that found nothing.
pub const KIND_NOT_FOUND: &'static str = "NotFound";

/// The name of the kind of input and output failures.
pub const KIND_IO: &'static str = "Io";

/// The name of the kind of failures that fit no other kind.
pub const KIND_UNKNOWN: &'static str = "Unknown";

impl ErrorView {
    /// The name of the failure's kind, by which callers tell the kinds apart
    /// once the failure has left the process.
    pub open spec fn kind(self) -> Seq<char> {
        match self {
            ErrorView::DatabaseQuery { .. } => KIND_STORAGE_FAULT@,
            ErrorView::NotFound { .. } => KIND_NOT_FOUND@,
            ErrorView::Io { .. } => KIND_IO@,
            ErrorView::Unknown(_) => KIND_UNKNOWN@,
        }
    }
}

impl Error {
    /// The name of the failure's kind.
    pub fn kind(&self) -> (name: &'static str)
        ensures
            name@ == self@.kind(),
    {
        match self {
            Error::DatabaseQuery { .. } => KIND_STORAGE_FAULT,
            Error::NotFound { .. } => KIND_NOT_FOUND,
            Error::Io { .. } => KIND_IO,
            Error::Unknown(_) => KIND_UNKNOWN,
        }
    }

    /// True for a storage fault.
    pub fn is_storage_fault(&self) -> (b: bool)
        ensures
            b == (self@ is DatabaseQuery),
    {
        match self {
            Error::DatabaseQuery { .. } => true,
            _ => false,
        }
    }

    /// True for a lookup that found nothing.
    pub fn is_not_found(&self) -> (b: bool)
        ensures
            b == (self@ is NotFound),
    {
        match self {
            Error::NotFound { .. } => true,
            _ => false,
        }
    }
}

} // verus!
