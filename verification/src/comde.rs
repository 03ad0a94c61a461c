//! Statuses reported by successful compressions and decompressions.

use vstd::prelude::*;

use crate::utils::dec_rep;
use crate::utils::h_size;
use crate::utils::hsize_spec;
use crate::utils::u64_to_decimal;

verus! {

/// The status of a compression: the sizes involved and the time it took.
#[derive(Debug)]
pub struct CompressStatus {
    origin_size: u64,
    compressed_size: u64,
    time_ms: u64,
}

impl CompressStatus {
    /// The total size of the inputs, in bytes.
    pub closed spec fn origin(self) -> u64 {
        self.origin_size
    }

    /// The size of the produced archive, in bytes.
    pub closed spec fn compressed(self) -> u64 {
        self.compressed_size
    }

    /// The wall-clock time the compression took, in milliseconds.
    pub closed spec fn time(self) -> u64 {
        self.time_ms
    }

    /// Records the result of one compression.
    pub fn new(origin_size: u64, compressed_size: u64, time_ms: u64) -> (r: CompressStatus)
        ensures
            r.origin() == origin_size,
            r.compressed() == compressed_size,
            r.time() == time_ms,
    {
        CompressStatus { origin_size, compressed_size, time_ms }
    }

    /// The total size of the inputs, in bytes.
    pub fn origin_size(&self) -> (r: u64)
        ensures
            r == self.origin(),
    {
        self.origin_size
    }

    /// The size of the produced archive, in bytes.
    pub fn compressed_size(&self) -> (r: u64)
        ensures
            r == self.compressed(),
    {
        self.compressed_size
    }

    /// The wall-clock time the compression took, in milliseconds.
    pub fn time_ms(&self) -> (r: u64)
        ensures
            r == self.time(),
    {
        self.time_ms
    }

    /// The status as text, with both sizes formatted for people and the
    /// time in whole seconds.
    pub fn message(&self) -> (s: String)
        ensures
            s@ == "\n\tOrigin files size: "@ + hsize_spec(self.origin() as nat)
                + "\n\tCompressed archive size: "@ + hsize_spec(self.compressed() as nat)
                + "\n\tTime  cost: "@ + dec_rep((self.time() / 1000) as nat),
    {
        let mut s = "\n\tOrigin files size: ".to_owned();
        let os = h_size(self.origin_size);
        s.append(os.as_str());
        s.append("\n\tCompressed archive size: ");
        let cs = h_size(self.compressed_size);
        s.append(cs.as_str());
        s.append("\n\tTime  cost: ");
        let t = u64_to_decimal(self.time_ms / 1000);
        s.append(t.as_str());
        s
    }
}

/// The status of a decompression: the sizes involved and the time it took.
#[derive(Debug)]
pub struct DecompressStatus {
    compressed_size: u64,
    decompressed_size: u64,
    time_ms: u64,
}

impl DecompressStatus {
    /// The size of the archive that was read, in bytes.
    pub closed spec fn compressed(self) -> u64 {
        self.compressed_size
    }

    /// The total size of the extracted files, in bytes.
    pub closed spec fn decompressed(self) -> u64 {
        self.decompressed_size
    }

    /// The wall-clock time the decompression took, in milliseconds.
    pub closed spec fn time(self) -> u64 {
        self.time_ms
    }

    /// Records the result of one decompression.
    pub fn new(compressed_size: u64, decompressed_size: u64, time_ms: u64) -> (r: DecompressStatus)
        ensures
            r.compressed() == compressed_size,
            r.decompressed() == decompressed_size,
            r.time() == time_ms,
    {
        DecompressStatus { compressed_size, decompressed_size, time_ms }
    }

    /// The size of the archive that was read, in bytes.
    pub fn compressed_size(&self) -> (r: u64)
        ensures
            r == self.compressed(),
    {
        self.compressed_size
    }

    /// The total size of the extracted files, in bytes.
    pub fn decompressed_size(&self) -> (r: u64)
        ensures
            r == self.decompressed(),
    {
        self.decompressed_size
    }

    /// The wall-clock time the decompression took, in milliseconds.
    pub fn time_ms(&self) -> (r: u64)
        ensures
            r == self.time(),
    {
        self.time_ms
    }

    /// The status as text, with both sizes formatted for people and the
    /// time in whole seconds.
    pub fn message(&self) -> (s: String)
        ensures
            s@ == "\n\tArchive size: "@ + hsize_spec(self.compressed() as nat)
                + "\n\tDecompressed files size: "@ + hsize_spec(self.decompressed() as nat)
                + "\n\tTime cost: "@ + dec_rep((self.time() / 1000) as nat) + "s\n"@,
    {
        let mut s = "\n\tArchive size: ".to_owned();
        let cs = h_size(self.compressed_size);
        s.append(cs.as_str());
        s.append("\n\tDecompressed files size: ");
        let ds = h_size(self.decompressed_size);
        s.append(ds.as_str());
        s.append("\n\tTime cost: ");
        let t = u64_to_decimal(self.time_ms / 1000);
        s.append(t.as_str());
        s.append("s\n");
        s
    }
}

} // verus!
