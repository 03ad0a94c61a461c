//! The supported backends and their default configurations.

use vstd::prelude::*;

pub mod sevenz;
pub mod zip;

verus! {

/// Entry point for picking a backend.
pub struct Formats;

impl Formats {
    /// The zip backend.
    pub fn get_zip() -> zip::ZipComde {
        zip::ZipComde
    }

    /// The 7z backend.
    pub fn get_7z() -> sevenz::SevenZComde {
        sevenz::SevenZComde
    }
}

/// Entry point for picking a backend's default configuration.
pub struct Configs;

impl Configs {
    /// A default zip configuration.
    pub fn get_zip() -> zip::ZipCfg {
        zip::ZipCfg::new()
    }

    /// A default 7z configuration: non-solid, no password, default method.
    pub fn get_7z() -> (r: sevenz::SevenZCfg)
        ensures
            !r.solid(),
            r.passwd() is None,
            r.codec_choice() is None,
    {
        sevenz::SevenZCfg::new()
    }
}

} // verus!
