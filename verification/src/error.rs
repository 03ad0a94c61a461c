//! Error types reported by the compression and viewing operations.

use vstd::prelude::*;

verus! {

/// Top-level error of the crate's operations.
#[derive(Debug, PartialEq, Eq)]
pub enum AppError {
    /// A filesystem operation failed; the detail text says why.
    FsError(String),
    /// Compressing or decompressing failed.
    ComdeError(ComdeError),
    /// Viewing an archive failed.
    ViewError(ViewError),
    /// Any other failure.
    OtherError(),
}

/// Failure while compressing or decompressing.
#[derive(Debug, PartialEq, Eq)]
pub enum ComdeError {
    /// Failure of the zip backend, with detail text.
    ZipError(String),
    /// Failure of the 7z backend, with detail text.
    SevenZError(String),
    /// The requested feature is not finished.
    Other(Unimplemented),
}

/// Failure while viewing an archive.
#[derive(Debug, PartialEq, Eq)]
pub enum ViewError {
    /// Any viewer failure, with detail text.
    Other(String),
}

/// A feature that is not implemented yet.
#[derive(Debug, PartialEq, Eq)]
pub enum Unimplemented {
    /// The feature is not finished.
    Unfinished,
}

impl AppError {
    /// The error as text.
    pub fn message(&self) -> (s: String)
        ensures
            s@ == match self {
                AppError::FsError(m) => m@,
                AppError::ComdeError(_) => "Error when compressing/decompressing."@,
                AppError::ViewError(_) => "Error when viewing archive."@,
                AppError::OtherError() => "Unknown error."@,
            },
    {
        match self {
            AppError::FsError(m) => m.clone(),
            AppError::ComdeError(_) => "Error when compressing/decompressing.".to_owned(),
            AppError::ViewError(_) => "Error when viewing archive.".to_owned(),
            AppError::OtherError() => "Unknown error.".to_owned(),
        }
    }
}

impl ComdeError {
    /// The error as text, naming the backend it came from.
    pub fn message(&self) -> (s: String)
        ensures
            s@ == match self {
                ComdeError::ZipError(m) => "Error when compressing/decompressing zip: "@ + m@,
                ComdeError::SevenZError(m) => "Error when compressing/decompressing 7z: "@ + m@,
                ComdeError::Other(_) => "Unfinished"@,
            },
    {
        match self {
            ComdeError::ZipError(m) => {
                let mut s = "Error when compressing/decompressing zip: ".to_owned();
                s.append(m.as_str());
                s
            },
            ComdeError::SevenZError(m) => {
                let mut s = "Error when compressing/decompressing 7z: ".to_owned();
                s.append(m.as_str());
                s
            },
            ComdeError::Other(_) => "Unfinished".to_owned(),
        }
    }
}

impl core::convert::From<ComdeError> for AppError {
    fn from(e: ComdeError) -> (r: AppError)
        ensures
            r == AppError::ComdeError(e),
    {
        AppError::ComdeError(e)
    }
}

impl vstd::std_specs::convert::FromSpecImpl<ComdeError> for AppError {
    open spec fn obeys_from_spec() -> bool {
        true
    }

    open spec fn from_spec(e: ComdeError) -> AppError {
        AppError::ComdeError(e)
    }
}

impl core::convert::From<ViewError> for AppError {
    fn from(e: ViewError) -> (r: AppError)
        ensures
            r == AppError::ViewError(e),
    {
        AppError::ViewError(e)
    }
}

impl vstd::std_specs::convert::FromSpecImpl<ViewError> for AppError {
    open spec fn obeys_from_spec() -> bool {
        true
    }

    open spec fn from_spec(e: ViewError) -> AppError {
        AppError::ViewError(e)
    }
}

impl core::convert::From<Unimplemented> for ComdeError {
    fn from(e: Unimplemented) -> (r: ComdeError)
        ensures
            r == ComdeError::Other(e),
    {
        ComdeError::Other(e)
    }
}

impl vstd::std_specs::convert::FromSpecImpl<Unimplemented> for ComdeError {
    open spec fn obeys_from_spec() -> bool {
        true
    }

    open spec fn from_spec(e: Unimplemented) -> ComdeError {
        ComdeError::Other(e)
    }
}

} // verus!
