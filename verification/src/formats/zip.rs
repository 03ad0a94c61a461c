//! The zip backend. Its operations are not finished: every call reports
//! the unfinished feature instead of doing work.

use vstd::prelude::*;

use crate::comde::CompressStatus;
use crate::comde::DecompressStatus;
use crate::error::ComdeError;
use crate::error::Unimplemented;

verus! {

/// The zip backend selector.
#[derive(Debug)]
pub struct ZipComde;

impl ZipComde {
    /// Would compress files into an archive written to `output`; not
    /// finished, so it always reports the unfinished feature.
    pub fn compress<W: std::io::Write + std::io::Seek>(
        self,
        input: &Vec<String>,
        output: W,
        config: &ZipCfg,
    ) -> (r: Result<CompressStatus, ComdeError>)
        ensures
            r == Result::<CompressStatus, ComdeError>::Err(
                ComdeError::Other(Unimplemented::Unfinished),
            ),
    {
        Err(ComdeError::Other(Unimplemented::Unfinished))
    }

    /// Would compress files into an archive at the path `output`; not
    /// finished, so it always reports the unfinished feature.
    pub fn compress_f(self, input: &Vec<String>, output: &String, config: &ZipCfg) -> (r: Result<
        CompressStatus,
        ComdeError,
    >)
        ensures
            r == Result::<CompressStatus, ComdeError>::Err(
                ComdeError::Other(Unimplemented::Unfinished),
            ),
    {
        Err(ComdeError::Other(Unimplemented::Unfinished))
    }

    /// Would decompress an archive read from `input` into the directory
    /// `output`; not finished, so it always reports the unfinished feature.
    pub fn decompress<R: std::io::Read + std::io::Seek>(
        self,
        input: R,
        output: &String,
        config: &ZipCfg,
    ) -> (r: Result<DecompressStatus, ComdeError>)
        ensures
            r == Result::<DecompressStatus, ComdeError>::Err(
                ComdeError::Other(Unimplemented::Unfinished),
            ),
    {
        Err(ComdeError::Other(Unimplemented::Unfinished))
    }

    /// Would decompress the archive at the path `input` into the directory
    /// `output`; not finished, so it always reports the unfinished feature.
    pub fn decompress_f(self, input: &String, output: &String, config: &ZipCfg) -> (r: Result<
        DecompressStatus,
        ComdeError,
    >)
        ensures
            r == Result::<DecompressStatus, ComdeError>::Err(
                ComdeError::Other(Unimplemented::Unfinished),
            ),
    {
        Err(ComdeError::Other(Unimplemented::Unfinished))
    }
}

/// Configuration of the zip backend; it has no settings yet.
#[derive(Debug)]
pub struct ZipCfg;

impl ZipCfg {
    /// A default zip configuration.
    pub fn new() -> ZipCfg {
        ZipCfg
    }
}

} // verus!
