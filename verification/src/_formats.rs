//! The supported backend formats and the configurations for compressing
//! and decompressing with them, resolved from spelled-out format names.

use vstd::prelude::*;

use crate::_error::Error;
use crate::formats::sevenz::SevenZCfg;
use crate::formats::sevenz::SevenZComde;
use crate::formats::zip::ZipCfg;
use crate::formats::zip::ZipComde;
use crate::utils::str_eq;

verus! {

/// Whether `name` is one of the recognized spellings of the zip format.
pub open spec fn is_zip_alias(name: Seq<char>) -> bool {
    name == "zip"@ || name == "ZIP"@ || name == "Zip"@
}

/// Whether `name` is one of the recognized spellings of the 7z format.
pub open spec fn is_7z_alias(name: Seq<char>) -> bool {
    name == "7z"@ || name == "7Z"@ || name == "sevenz"@ || name == "sevenZ"@ || name == "SevenZ"@
}

/// A chosen backend.
#[derive(Debug)]
pub enum Formats {
    /// The zip backend.
    Zip(ZipComde),
    /// The 7z backend.
    SevenZ(SevenZComde),
}

impl Formats {
    /// Resolves a format name to its backend: the recognized spellings of
    /// zip and 7z each pick theirs, and every other name is reported as
    /// unsupported — never a crash.
    pub fn new_with(format: &str) -> (r: Result<Formats, Error>)
        ensures
            match r {
                Ok(Formats::Zip(_)) => is_zip_alias(format@),
                Ok(Formats::SevenZ(_)) => is_7z_alias(format@),
                Err(e) => !is_zip_alias(format@) && !is_7z_alias(format@) && e
                    == Error::Unsupported,
            },
    {
        if str_eq(format, "zip") || str_eq(format, "ZIP") || str_eq(format, "Zip") {
            Ok(Formats::Zip(ZipComde))
        } else if str_eq(format, "7z") || str_eq(format, "7Z") || str_eq(format, "sevenz")
            || str_eq(format, "sevenZ") || str_eq(format, "SevenZ") {
            Ok(Formats::SevenZ(SevenZComde))
        } else {
            Err(Error::Unsupported)
        }
    }
}

/// A configuration for one backend and one direction of work.
#[derive(Debug)]
pub enum Configs {
    /// Compressing with the zip backend.
    ZipConfig(ZipCfg),
    /// Decompressing with the zip backend.
    ZipDeConfig(ZipCfg),
    /// Compressing with the 7z backend.
    SevenzConfig(SevenZCfg),
    /// Decompressing with the 7z backend.
    SevenzDeConfig(SevenZCfg),
}

impl Configs {
    /// The default compression configuration of the named format: the
    /// recognized spellings of zip and 7z each pick their backend's, and
    /// every other name is reported as unsupported — never a crash.
    pub fn new_compress(format: &str) -> (r: Result<Configs, Error>)
        ensures
            match r {
                Ok(Configs::ZipConfig(_)) => is_zip_alias(format@),
                Ok(Configs::SevenzConfig(c)) => is_7z_alias(format@) && !c.solid() && c.passwd()
                    is None && c.codec_choice() is None,
                Ok(_) => false,
                Err(e) => !is_zip_alias(format@) && !is_7z_alias(format@) && e
                    == Error::Unsupported,
            },
    {
        if str_eq(format, "zip") || str_eq(format, "ZIP") || str_eq(format, "Zip") {
            Ok(Configs::ZipConfig(ZipCfg::new()))
        } else if str_eq(format, "7z") || str_eq(format, "7Z") || str_eq(format, "sevenz")
            || str_eq(format, "sevenZ") || str_eq(format, "SevenZ") {
            Ok(Configs::SevenzConfig(SevenZCfg::new()))
        } else {
            Err(Error::Unsupported)
        }
    }

    /// The default decompression configuration of the named format: the
    /// recognized spellings of zip and 7z each pick their backend's, and
    /// every other name is reported as unsupported — never a crash.
    pub fn new_decompress(format: &str) -> (r: Result<Configs, Error>)
        ensures
            match r {
                Ok(Configs::ZipDeConfig(_)) => is_zip_alias(format@),
                Ok(Configs::SevenzDeConfig(c)) => is_7z_alias(format@) && !c.solid() && c.passwd()
                    is None && c.codec_choice() is None,
                Ok(_) => false,
                Err(e) => !is_zip_alias(format@) && !is_7z_alias(format@) && e
                    == Error::Unsupported,
            },
    {
        if str_eq(format, "zip") || str_eq(format, "ZIP") || str_eq(format, "Zip") {
            Ok(Configs::ZipDeConfig(ZipCfg::new()))
        } else if str_eq(format, "7z") || str_eq(format, "7Z") || str_eq(format, "sevenz")
            || str_eq(format, "sevenZ") || str_eq(format, "SevenZ") {
            Ok(Configs::SevenzDeConfig(SevenZCfg::new()))
        } else {
            Err(Error::Unsupported)
        }
    }
}

} // verus!
