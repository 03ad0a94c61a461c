//! The error taxonomy of the archive interfaces: one top-level error with
//! nested kinds for decompression, input/output and viewing failures, and
//! the classification of backend failure text into credential errors.

use vstd::prelude::*;

use crate::utils::contains_seq;
use crate::utils::contains_str;

verus! {

/// The errors the archive interfaces may report.
#[derive(Debug, PartialEq, Eq)]
pub enum Error {
    /// Compression failed; the detail text says why.
    CompressError(String),
    /// Decompression failed, classified further.
    DecompressError(DecompError),
    /// An input/output operation failed, classified further.
    IOError(IsIOError),
    /// A view operation failed, classified further.
    ViewError(ViewError),
    /// The operation is not supported.
    Unsupported,
}

/// How a decompression failed.
#[derive(Debug, PartialEq, Eq)]
pub enum DecompError {
    /// A password was given but the backend rejected it.
    PasswdIncorrect(String),
    /// The archive needs a password and none was given.
    PasswdNeeded(String),
    /// Any other decompression failure.
    DecompressErr(String),
}

/// How an input/output operation failed.
#[derive(Debug, PartialEq, Eq)]
pub enum IsIOError {
    /// A single file could not be opened, created or examined.
    StdIoError(String),
    /// A recursive walk over a directory tree failed.
    WalkError(String),
    /// Any other input failure, such as a path that does not exist.
    OnError(String),
}

/// How a view operation failed.
#[derive(Debug, PartialEq, Eq)]
pub enum ViewError {
    /// The entry does not exist.
    NotFound,
    /// Access to the entry was denied.
    AccessDenied,
    /// The operation is not supported here.
    Unsupported,
    /// The archive is corrupted or invalid.
    Corrupted,
    /// Any other view failure, with detail text.
    Other(String),
}

impl core::convert::From<DecompError> for Error {
    fn from(e: DecompError) -> (r: Error)
        ensures
            r == Error::DecompressError(e),
    {
        Error::DecompressError(e)
    }
}

impl vstd::std_specs::convert::FromSpecImpl<DecompError> for Error {
    open spec fn obeys_from_spec() -> bool {
        true
    }

    open spec fn from_spec(e: DecompError) -> Error {
        Error::DecompressError(e)
    }
}

impl core::convert::From<IsIOError> for Error {
    fn from(e: IsIOError) -> (r: Error)
        ensures
            r == Error::IOError(e),
    {
        Error::IOError(e)
    }
}

impl vstd::std_specs::convert::FromSpecImpl<IsIOError> for Error {
    open spec fn obeys_from_spec() -> bool {
        true
    }

    open spec fn from_spec(e: IsIOError) -> Error {
        Error::IOError(e)
    }
}

impl core::convert::From<ViewError> for Error {
    fn from(e: ViewError) -> (r: Error)
        ensures
            r == Error::ViewError(e),
    {
        Error::ViewError(e)
    }
}

impl vstd::std_specs::convert::FromSpecImpl<ViewError> for Error {
    open spec fn obeys_from_spec() -> bool {
        true
    }

    open spec fn from_spec(e: ViewError) -> Error {
        Error::ViewError(e)
    }
}

/// Whether a backend's failure text mentions a password. The marker covers
/// both spellings "Password" and "password".
pub open spec fn mentions_password(detail: Seq<char>) -> bool {
    contains_seq(detail, "assword"@)
}

/// Classifies the failure text of a decompression by what it says and by
/// whether a password was supplied: a failure that mentions a password
/// means the password was missing (none was given) or rejected (one was
/// given); everything else is a plain decompression failure. The detail
/// text is carried through unchanged.
pub fn classify_decomp_failure(detail: String, password_given: bool) -> (r: DecompError)
    ensures
        match r {
            DecompError::PasswdIncorrect(d) => mentions_password(detail@) && password_given && d
                == detail,
            DecompError::PasswdNeeded(d) => mentions_password(detail@) && !password_given && d
                == detail,
            DecompError::DecompressErr(d) => !mentions_password(detail@) && d == detail,
        },
{
    if contains_str(detail.as_str(), "assword") {
        if password_given {
            DecompError::PasswdIncorrect(detail)
        } else {
            DecompError::PasswdNeeded(detail)
        }
    } else {
        DecompError::DecompressErr(detail)
    }
}

} // verus!
