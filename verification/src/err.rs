//! The closed set of error kinds shared by every component.

use vstd::prelude::*;
use vstd::string::*;
use vstd::std_specs::convert::FromSpecImpl;
use crate::text::{decimal, push_decimal};

verus! {

/// What went wrong in a fallible operation. Faults of a collaborator are
/// carried as the text that describes them.
#[derive(Debug, Clone, PartialEq, Eq)]
pub enum Error {
    /// No document matched.
    NotFound,
    /// The document store reported a fault.
    StoreError(String),
    /// A value could not be encoded or decoded.
    SerializationError(String),
    /// A token could not be issued or validated.
    AuthError(String),
    /// The storage area reported a fault.
    IOError(String),
    /// A token was valid once and is past its expiry.
    TokenExpired,
    /// A file had no extension, or one that the policy does not allow.
    InvalidFile,
    /// Content was larger than the given number of bytes.
    FileTooLarge(usize),
    /// A file handle carried no storage location.
    StorageLocationMissing,
}

/// The mathematical value of an [`Error`]: its kind and its data.
pub ghost enum ErrorView {
    NotFound,
    StoreError(Seq<char>),
    SerializationError(Seq<char>),
    AuthError(Seq<char>),
    IOError(Seq<char>),
    TokenExpired,
    InvalidFile,
    FileTooLarge(nat),
    StorageLocationMissing,
}

impl View for Error {
    type V = ErrorView;

    open spec fn view(&self) -> ErrorView {
        match *self {
            Error::NotFound => ErrorView::NotFound,
            Error::StoreError(d) => ErrorView::StoreError(d@),
            Error::SerializationError(d) => ErrorView::SerializationError(d@),
            Error::AuthError(d) => ErrorView::AuthError(d@),
            Error::IOError(d) => ErrorView::IOError(d@),
            Error::TokenExpired => ErrorView::TokenExpired,
            Error::InvalidFile => ErrorView::InvalidFile,
            Error::FileTooLarge(n) => ErrorView::FileTooLarge(n as nat),
            Error::StorageLocationMissing => ErrorView::StorageLocationMissing,
        }
    }
}

/// The stable number that stands for an error's kind.
pub open spec fn code_of(e: ErrorView) -> u8 {
    match e {
        ErrorView::NotFound => 1,
        ErrorView::TokenExpired => 2,
        ErrorView::InvalidFile => 3,
        ErrorView::FileTooLarge(_) => 4,
        ErrorView::StorageLocationMissing => 5,
        ErrorView::StoreError(_) => 50,
        ErrorView::SerializationError(_) => 51,
        ErrorView::AuthError(_) => 52,
        ErrorView::IOError(_) => 53,
    }
}

/// Whether two errors are of the same kind, whatever data they carry.
pub open spec fn same_kind(a: ErrorView, b: ErrorView) -> bool {
    match (a, b) {
        (ErrorView::NotFound, ErrorView::NotFound) => true,
        (ErrorView::StoreError(_), ErrorView::StoreError(_)) => true,
        (ErrorView::SerializationError(_), ErrorView::SerializationError(_)) => true,
        (ErrorView::AuthError(_), ErrorView::AuthError(_)) => true,
        (ErrorView::IOError(_), ErrorView::IOError(_)) => true,
        (ErrorView::TokenExpired, ErrorView::TokenExpired) => true,
        (ErrorView::InvalidFile, ErrorView::InvalidFile) => true,
        (ErrorView::FileTooLarge(_), ErrorView::FileTooLarge(_)) => true,
        (ErrorView::StorageLocationMissing, ErrorView::StorageLocationMissing) => true,
        _ => false,
    }
}

/// The message that is shown for an error.
pub open spec fn message_of(e: ErrorView) -> Seq<char> {
    match e {
        ErrorView::NotFound => "Document not found"@,
        ErrorView::StoreError(d) => "MongoError: "@ + d,
        ErrorView::SerializationError(d) => "JsonError: "@ + d,
        ErrorView::AuthError(d) => "JWTError: "@ + d,
        ErrorView::IOError(d) => "IOError: "@ + d,
        ErrorView::TokenExpired => "Token expired"@,
        ErrorView::InvalidFile => "Invalid file"@,
        ErrorView::FileTooLarge(n) => "File is too large. max size is "@ + decimal(n) + " bytes"@,
        ErrorView::StorageLocationMissing => "Storage location missing"@,
    }
}

impl Error {
    /// Renders the error as a message for people.
    pub fn msg(self) -> (r: String)
        ensures
            r@ == message_of(self@),
    {
        match self {
            Error::NotFound => String::from_str("Document not found"),
            Error::StoreError(d) => String::from_str("MongoError: ").concat(d.as_str()),
            Error::SerializationError(d) => String::from_str("JsonError: ").concat(d.as_str()),
            Error::AuthError(d) => String::from_str("JWTError: ").concat(d.as_str()),
            Error::IOError(d) => String::from_str("IOError: ").concat(d.as_str()),
            Error::TokenExpired => String::from_str("Token expired"),
            Error::InvalidFile => String::from_str("Invalid file"),
            Error::FileTooLarge(max_size) => {
                let mut s = String::from_str("File is too large. max size is ");
                push_decimal(&mut s, max_size as u64);
                s.append(" bytes");
                s
            },
            Error::StorageLocationMissing => String::from_str("Storage location missing"),
        }
    }

    /// The stable number of the error's kind.
    pub fn code(&self) -> (c: u8)
        ensures
            c == code_of(self@),
    {
        match self {
            Error::NotFound => 1,
            Error::TokenExpired => 2,
            Error::InvalidFile => 3,
            Error::FileTooLarge(_) => 4,
            Error::StorageLocationMissing => 5,
            Error::StoreError(_) => 50,
            Error::SerializationError(_) => 51,
            Error::AuthError(_) => 52,
            Error::IOError(_) => 53,
        }
    }
}

impl From<Error> for u8 {
    fn from(err: Error) -> (c: u8) {
        err.code()
    }
}

impl FromSpecImpl<Error> for u8 {
    open spec fn obeys_from_spec() -> bool {
        true
    }

    open spec fn from_spec(err: Error) -> u8 {
        code_of(err@)
    }
}

/// The numeric code loses nothing of the kind: two errors with one code are
/// of one kind.
pub proof fn code_determines_kind(a: ErrorView, b: ErrorView)
    requires
        code_of(a) == code_of(b),
    ensures
        same_kind(a, b),
{
}

/// Errors of one kind have one code.
pub proof fn kind_determines_code(a: ErrorView, b: ErrorView)
    requires
        same_kind(a, b),
    ensures
        code_of(a) == code_of(b),
{
}

} // verus!
