//! The archive interfaces: compression and decompression capabilities with
//! their statistics, and a navigable, path-addressed view over one open
//! archive, backed by a viewer capability.

use vstd::prelude::*;

use crate::_error::DecompError;
use crate::_error::Error;
use crate::_error::IsIOError;
use crate::_error::ViewError;
use crate::_error::classify_decomp_failure;
use crate::_utils::calculate_size;
use crate::error::ComdeError;
use crate::formats::sevenz::SevenZCfg;
use crate::formats::sevenz::SevenZComde;
use crate::formats::sevenz::sz_decompress_file;
use crate::formats::sevenz::validate_cfg;
use crate::formats::zip::ZipCfg;
use crate::utils::now_millis;
use crate::utils::dec_rep;
use crate::utils::path_exists_fs;
use crate::utils::str_eq;
use crate::utils::u64_to_decimal;
use crate::utils::write_file_bytes;

verus! {

// ---------------------------------------------------------------------------
// Statistics.
// ---------------------------------------------------------------------------

/// The result of one successful compression: sizes in bytes and the time
/// the operation took in milliseconds.
#[derive(Debug)]
pub struct CompressStats {
    /// The total size of the inputs, in bytes.
    pub origin_size: u64,
    /// The size of the produced archive, in bytes.
    pub compressed_size: u64,
    /// The wall-clock time the compression took, in milliseconds.
    pub time_cost: u64,
}

impl CompressStats {
    /// Records the result of one compression.
    pub fn new(origin_size: u64, compressed_size: u64, time_cost: u64) -> (r: CompressStats)
        ensures
            r == (CompressStats { origin_size, compressed_size, time_cost }),
    {
        CompressStats { origin_size, compressed_size, time_cost }
    }

    /// The statistics as text, with the time in whole seconds.
    pub fn message(&self) -> (s: String)
        ensures
            s@ == "Origin size: "@ + dec_rep(self.origin_size as nat) + "\nCompressed size: "@
                + dec_rep(self.compressed_size as nat) + "\nTime cost: "@ + dec_rep(
                (self.time_cost / 1000) as nat,
            ) + "s\n"@,
    {
        let mut s = "Origin size: ".to_owned();
        let os = u64_to_decimal(self.origin_size);
        s.append(os.as_str());
        s.append("\nCompressed size: ");
        let cs = u64_to_decimal(self.compressed_size);
        s.append(cs.as_str());
        s.append("\nTime cost: ");
        let t = u64_to_decimal(self.time_cost / 1000);
        s.append(t.as_str());
        s.append("s\n");
        s
    }
}

/// The result of one successful decompression: sizes in bytes and the time
/// the operation took in milliseconds.
#[derive(Debug)]
pub struct DecompressStats {
    /// The size of the archive that was read, in bytes.
    pub compressed_size: u64,
    /// The total size of the extracted files, in bytes.
    pub decompressed_size: u64,
    /// The wall-clock time the decompression took, in milliseconds.
    pub time_cost: u64,
}

impl DecompressStats {
    /// Records the result of one decompression.
    pub fn new(compressed_size: u64, decompressed_size: u64, time_cost: u64) -> (r: DecompressStats)
        ensures
            r == (DecompressStats { compressed_size, decompressed_size, time_cost }),
    {
        DecompressStats { compressed_size, decompressed_size, time_cost }
    }

    /// The statistics as text, with the time in whole seconds.
    pub fn message(&self) -> (s: String)
        ensures
            s@ == "Origin size: "@ + dec_rep(self.compressed_size as nat)
                + "\nDecompressed size: "@ + dec_rep(self.decompressed_size as nat)
                + "\nTime cost: "@ + dec_rep((self.time_cost / 1000) as nat) + "s\n"@,
    {
        let mut s = "Origin size: ".to_owned();
        let cs = u64_to_decimal(self.compressed_size);
        s.append(cs.as_str());
        s.append("\nDecompressed size: ");
        let ds = u64_to_decimal(self.decompressed_size);
        s.append(ds.as_str());
        s.append("\nTime cost: ");
        let t = u64_to_decimal(self.time_cost / 1000);
        s.append(t.as_str());
        s.append("s\n");
        s
    }
}

// ---------------------------------------------------------------------------
// Capability interfaces.
// ---------------------------------------------------------------------------

/// Common shape of a configuration for compression or decompression.
pub trait ComdeConfig: Sized {
    /// A valid default configuration.
    fn new() -> Self;

    /// Finalizes the configuration, validating it; an invalid one is
    /// reported as an error, never accepted silently.
    fn build(self) -> Result<Self, Error>;
}

impl ComdeConfig for ZipCfg {
    fn new() -> ZipCfg {
        ZipCfg::new()
    }

    fn build(self) -> Result<ZipCfg, Error> {
        Ok(self)
    }
}

impl ComdeConfig for SevenZCfg {
    fn new() -> (r: SevenZCfg)
        ensures
            !r.solid(),
            r.passwd() is None,
            r.codec_choice() is None,
    {
        SevenZCfg::new()
    }

    fn build(self) -> (r: Result<SevenZCfg, Error>)
        ensures
            r is Ok <==> self.valid(),
            r matches Ok(c) ==> c == self,
    {
        match validate_cfg(self) {
            Ok(c) => Ok(c),
            Err(e) => Err(Error::CompressError(e.message())),
        }
    }
}

/// The capability of a backend that can compress.
pub trait Compress {
    /// The configuration this backend's compression takes.
    type Configs: ComdeConfig;

    /// Compresses the file or tree at `input` into an archive at the path
    /// `output`. A missing input is an input error; any backend failure is
    /// a compression error.
    fn compress_file(input: &String, output: &String, config: Self::Configs) -> (r: Result<
        CompressStats,
        Error,
    >)
        ensures
            r matches Err(e) ==> (e is CompressError || e is IOError),
    ;
}

/// The capability of a backend that can decompress.
pub trait Decompress {
    /// The configuration this backend's decompression takes.
    type Configs: ComdeConfig;

    /// Decompresses the archive at `input` into the directory `output`.
    /// Failures while sizing are input errors; backend failures are
    /// decompression errors, classified by what their text says about a
    /// password.
    fn decompress_file(input: &String, output: &String, config: Self::Configs) -> (r: Result<
        DecompressStats,
        Error,
    >)
        ensures
            r matches Err(e) ==> (e is DecompressError || e is IOError),
    ;
}

impl Compress for SevenZComde {
    type Configs = SevenZCfg;

    fn compress_file(input: &String, output: &String, config: SevenZCfg) -> (r: Result<
        CompressStats,
        Error,
    >) {
        if !path_exists_fs(input) {
            return Err(Error::IOError(IsIOError::OnError("Path not exist.".to_owned())));
        }
        let inputs = vec![input.clone()];
        let (bytes, status) = match (SevenZComde).compress(&inputs, &config) {
            Ok(p) => p,
            Err(e) => {
                return Err(
                    match e {
                        ComdeError::SevenZError(m) => Error::CompressError(m),
                        other => Error::CompressError(other.message()),
                    },
                );
            },
        };
        match write_file_bytes(output, &bytes) {
            Ok(()) => {},
            Err(m) => {
                return Err(Error::CompressError(m));
            },
        }
        Ok(
            CompressStats::new(
                status.origin_size(),
                status.compressed_size(),
                status.time_ms(),
            ),
        )
    }
}

impl Decompress for SevenZComde {
    type Configs = SevenZCfg;

    fn decompress_file(input: &String, output: &String, config: SevenZCfg) -> (r: Result<
        DecompressStats,
        Error,
    >) {
        let time_begin = now_millis();
        let compressed = match calculate_size(input) {
            Ok(n) => n,
            Err(e) => {
                return Err(e);
            },
        };
        let password_given = match config.password() {
            Some(_) => true,
            None => false,
        };
        match sz_decompress_file(input, output, config.password()) {
            Ok(()) => {},
            Err(m) => {
                return Err(Error::DecompressError(classify_decomp_failure(m, password_given)));
            },
        }
        let decompressed = match calculate_size(output) {
            Ok(n) => n,
            Err(e) => {
                return Err(e);
            },
        };
        let time_now = now_millis();
        let time_cost = if time_now >= time_begin {
            time_now - time_begin
        } else {
            0
        };
        Ok(DecompressStats::new(compressed, decompressed, time_cost))
    }
}

// ---------------------------------------------------------------------------
// Archive-relative paths.
// ---------------------------------------------------------------------------

/// Whether `p` is the archive root, spelled as the single separator.
pub open spec fn is_root(p: Seq<char>) -> bool {
    p.len() == 1 && p[0] == '/'
}

/// Whether `p` is an absolute, normalized archive path: the root alone, or
/// a separator-led path that does not end in a separator and has no empty
/// segment.
pub open spec fn is_normalized(p: Seq<char>) -> bool {
    is_root(p) || (p.len() >= 2 && p[0] == '/' && p[p.len() - 1] != '/' && forall|i: int|
        0 <= i < p.len() - 1 ==> !(#[trigger] p[i] == '/' && p[i + 1] == '/'))
}

/// The position of the last separator in `p`, counting from the end.
pub open spec fn last_slash(p: Seq<char>) -> int
    decreases p.len(),
{
    if p.len() == 0 {
        -1
    } else if p[p.len() - 1] == '/' {
        p.len() - 1
    } else {
        last_slash(p.drop_last())
    }
}

/// The parent of a non-root path: everything up to its last separator, or
/// the root when that separator leads the path.
pub open spec fn parent_of(p: Seq<char>) -> Seq<char> {
    if last_slash(p) <= 0 {
        seq!['/']
    } else {
        p.take(last_slash(p))
    }
}

/// `base` with one more name joined under it.
pub open spec fn join_path(base: Seq<char>, name: Seq<char>) -> Seq<char> {
    if is_root(base) {
        base + name
    } else {
        base + seq!['/'] + name
    }
}

/// Whether `q` lies at or under `p`: it is `p` itself or a descendant.
pub open spec fn under(q: Seq<char>, p: Seq<char>) -> bool {
    q.len() >= p.len() && q.subrange(0, p.len() as int) == p && (q.len() == p.len() || q[
        p.len() as int
    ] == '/')
}

/// The paths that remain once the subtree rooted at `p` is removed.
pub open spec fn remove_subtree(s: Set<Seq<char>>, p: Seq<char>) -> Set<Seq<char>> {
    Set::new(|q: Seq<char>| s.contains(q) && !under(q, p))
}

/// A path is under itself, and after the subtree at `p` is removed,
/// neither `p` nor anything under it remains: by the viewer contract a
/// later listing or existence query at such a path reports nothing, and a
/// second removal there reports that the entry is not found.
pub proof fn lemma_removed_entry_gone(s: Set<Seq<char>>, p: Seq<char>, q: Seq<char>)
    requires
        q == p || under(q, p),
    ensures
        !remove_subtree(s, p).contains(q),
{
    assert(p.subrange(0, p.len() as int) =~= p);
    assert(under(p, p));
}

/// Entering one name and stepping back up restores the directory: joining
/// a separator-free name under a normalized base gives a normalized
/// non-root path whose parent is the base again. With the contract of
/// `change_directory`, entering a listed child and then its parent's name
/// always returns to where navigation started.
pub proof fn lemma_enter_then_up(base: Seq<char>, name: Seq<char>)
    requires
        is_normalized(base),
        name.len() > 0,
        forall|i: int| 0 <= i < name.len() ==> name[i] != '/',
    ensures
        is_normalized(join_path(base, name)),
        !is_root(join_path(base, name)),
        parent_of(join_path(base, name)) == base,
{
    let j = join_path(base, name);
    if is_root(base) {
        assert(j =~= base + name);
        assert(j[0] == '/');
        assert(forall|k: int| 0 < k < j.len() ==> j[k] == name[k - 1] && j[k] != '/');
        lemma_last_slash_at(j, 0);
        assert(parent_of(j) =~= base);
        assert(is_normalized(j));
    } else {
        let b = base.len() as int;
        assert(j =~= base + seq!['/'] + name);
        assert(j[b] == '/');
        assert(forall|k: int| b < k < j.len() ==> j[k] == name[k - b - 1] && j[k] != '/');
        lemma_last_slash_at(j, b);
        assert(parent_of(j) =~= base);
        assert(j[0] == '/');
        assert(j[j.len() - 1] != '/');
        assert forall|i: int| 0 <= i < j.len() - 1 implies !(#[trigger] j[i] == '/' && j[i + 1]
            == '/') by {
            if i < b - 1 {
                assert(j[i] == base[i] && j[i + 1] == base[i + 1]);
            } else if i == b - 1 {
                assert(j[i] == base[b - 1]);
                assert(base[b - 1] != '/');
            } else if i == b {
                assert(j[i + 1] == name[0]);
            }
        }
        assert(is_normalized(j));
    }
}

/// The position a scan from the end finds for the last separator is the
/// one the recursive description names.
proof fn lemma_last_slash_at(p: Seq<char>, i: int)
    requires
        0 <= i < p.len(),
        p[i] == '/',
        forall|j: int| i < j < p.len() ==> p[j] != '/',
    ensures
        last_slash(p) == i,
    decreases p.len(),
{
    if i == p.len() - 1 {
    } else {
        lemma_last_slash_at(p.drop_last(), i);
    }
}

/// Finds the parent of a normalized, non-root path.
pub fn parent_dir(p: &str) -> (r: String)
    requires
        is_normalized(p@),
        !is_root(p@),
    ensures
        r@ == parent_of(p@),
        is_normalized(r@),
        is_root(r@) || r@.len() < p@.len(),
{
    proof {
        reveal_strlit("/");
    }
    let n = p.unicode_len();
    let mut i: usize = n - 1;
    while p.get_char(i) != '/'
        invariant
            is_normalized(p@),
            !is_root(p@),
            n == p@.len(),
            0 <= i <= n - 1,
            forall|j: int| i < j < p@.len() ==> p@[j] != '/',
        decreases i,
    {
        i = i - 1;
    }
    proof {
        lemma_last_slash_at(p@, i as int);
    }
    if i == 0 {
        let r = "/".to_owned();
        proof {
            assert(r@ =~= seq!['/']);
        }
        r
    } else {
        let r = p.substring_char(0, i).to_owned();
        proof {
            assert(r@ == p@.take(i as int));
            assert(r@[0] == '/');
            assert(r@[r@.len() - 1] != '/') by {
                assert(!(p@[i - 1] == '/' && p@[i - 1 + 1] == '/'));
            }
            assert(forall|k: int|
                0 <= k < r@.len() - 1 ==> !(#[trigger] r@[k] == '/' && r@[k + 1] == '/'));
            if i == 1 {
                assert(!(p@[0] == '/' && p@[1] == '/'));
                assert(false);
            }
        }
        r
    }
}

/// Joins one more name under `base`.
fn join_under(base: &str, name: &str) -> (r: String)
    ensures
        r@ == join_path(base@, name@),
{
    proof {
        reveal_strlit("/");
    }
    if str_eq(base, "/") {
        let mut r = base.to_owned();
        r.append(name);
        proof {
            assert(is_root(base@));
            assert(r@ =~= join_path(base@, name@));
        }
        r
    } else {
        let mut r = base.to_owned();
        r.append("/");
        r.append(name);
        proof {
            assert(!is_root(base@)) by {
                if is_root(base@) {
                    assert(base@ =~= "/"@);
                }
            }
            assert(r@ =~= join_path(base@, name@));
        }
        r
    }
}

/// Checks whether a piece of text is an absolute, normalized archive path.
pub fn is_normalized_str(s: &str) -> (r: bool)
    ensures
        r == is_normalized(s@),
{
    let n = s.unicode_len();
    if n == 0 {
        return false;
    }
    if s.get_char(0) != '/' {
        return false;
    }
    if n == 1 {
        return true;
    }
    if s.get_char(n - 1) == '/' {
        return false;
    }
    let mut i: usize = 0;
    while i < n - 1
        invariant
            2 <= n == s@.len(),
            i <= n - 1,
            s@[0] == '/',
            s@[n - 1] != '/',
            forall|j: int| 0 <= j < i ==> !(#[trigger] s@[j] == '/' && s@[j + 1] == '/'),
        decreases n - 1 - i,
    {
        if s.get_char(i) == '/' && s.get_char(i + 1) == '/' {
            return false;
        }
        i = i + 1;
    }
    true
}

/// Checks whether the path `q` lies at or under the path `p`.
pub fn under_path(q: &str, p: &str) -> (r: bool)
    ensures
        r == under(q@, p@),
{
    let nq = q.unicode_len();
    let np = p.unicode_len();
    if nq < np {
        return false;
    }
    if !crate::utils::match_at(q, p, 0) {
        return false;
    }
    if nq == np {
        return true;
    }
    let c = q.get_char(np);
    c == '/'
}

// ---------------------------------------------------------------------------
// The viewer capability and the archive view.
// ---------------------------------------------------------------------------

/// One archive member, as reported by a listing: a read-only snapshot that
/// a later mutation of the archive does not track.
#[derive(Debug, Clone)]
pub struct ViewEntry {
    /// Path of the entry within the archive.
    pub path: String,
    /// Whether this entry is a directory.
    pub is_dir: bool,
    /// Compressed size in bytes.
    pub compressed_size: u64,
    /// Uncompressed size in bytes.
    pub uncompressed_size: u64,
    /// Last modified time, in milliseconds since the Unix epoch.
    pub modified_time: Option<u64>,
    /// Whether the entry is encrypted.
    pub is_encrypted: bool,
    /// CRC32 checksum, if the archive stores one.
    pub crc32: Option<u32>,
}

impl ViewEntry {
    /// An equal copy of the entry, field for field.
    pub fn duplicate(&self) -> (r: ViewEntry)
        ensures
            r == *self,
    {
        ViewEntry {
            path: self.path.clone(),
            is_dir: self.is_dir,
            compressed_size: self.compressed_size,
            uncompressed_size: self.uncompressed_size,
            modified_time: self.modified_time,
            is_encrypted: self.is_encrypted,
            crc32: self.crc32,
        }
    }
}

/// The operations with which an archive is viewed and edited in place.
/// Every path handed to a viewer is relative to the archive root, never a
/// real filesystem path. A viewer's state is described by two sets: the
/// paths at which an entry is present, and the paths whose children can be
/// listed (the root and the existing directories).
pub trait Viewer: Sized {
    /// Whether the viewer's bookkeeping is sound; the other contracts hold
    /// of well-formed viewers.
    spec fn wf(&self) -> bool;

    /// The archive-relative paths at which an entry stands.
    spec fn present(&self) -> Set<Seq<char>>;

    /// The paths whose direct children can be listed: the root and the
    /// directories.
    spec fn listable(&self) -> Set<Seq<char>>;

    /// Every path a well-formed viewer reports is absolute and normalized.
    proof fn paths_normalized(&self)
        requires
            self.wf(),
        ensures
            forall|q: Seq<char>| #[trigger] self.listable().contains(q) ==> is_normalized(q),
            forall|q: Seq<char>| #[trigger] self.present().contains(q) ==> is_normalized(q),
    ;

    /// Lists the direct children at `path`: exactly the present entries
    /// whose parent is `path`. A path that is neither the root nor a
    /// directory has no listing and is reported as not found.
    fn get_entries(&self, path: &String) -> (r: Result<Vec<ViewEntry>, Error>)
        requires
            self.wf(),
        ensures
            r is Ok <==> self.listable().contains(path@),
            r matches Err(e) ==> e == Error::ViewError(ViewError::NotFound),
            r matches Ok(v) ==> (forall|i: int|
                0 <= i < v@.len() ==> self.present().contains((#[trigger] v@[i]).path@)
                    && parent_of(v@[i].path@) == path@),
            r matches Ok(v) ==> (forall|q: Seq<char>|
                (#[trigger] self.present().contains(q)) && parent_of(q) == path@ ==> exists|i: int|
                    0 <= i < v@.len() && (#[trigger] v@[i].path@) == q),
    ;

    /// Reads the real filesystem at `path_from` and inserts an entry at
    /// the archive-relative path `to`, leaving every other entry as it
    /// was. A destination that is not an absolute normalized non-root
    /// path is never accepted.
    fn add_entry_to(&mut self, path_from: &String, to: &String) -> (r: Result<CompressStats, Error>)
        requires
            old(self).wf(),
        ensures
            final(self).wf(),
            r is Ok ==> final(self).present() == old(self).present().insert(to@)
                && final(self).listable() == old(self).listable(),
            !(is_normalized(to@) && !is_root(to@)) ==> !(r is Ok),
            !(r is Ok) ==> *final(self) == *old(self),
    ;

    /// Deletes the entry at `path_at` and, if it is a directory, all of
    /// its descendants; deleting a path with no entry reports that it is
    /// not found and changes nothing.
    fn remove_entry_at(&mut self, path_at: &String) -> (r: Result<(), Error>)
        requires
            old(self).wf(),
        ensures
            final(self).wf(),
            r is Ok <==> old(self).present().contains(path_at@),
            r is Ok ==> final(self).present() == remove_subtree(old(self).present(), path_at@)
                && final(self).listable() == remove_subtree(old(self).listable(), path_at@),
            !(r is Ok) ==> r == Result::<(), Error>::Err(Error::ViewError(ViewError::NotFound))
                && *final(self) == *old(self),
    ;

    /// Extracts the entry at `path_at` (with its subtree, for a directory)
    /// to the real filesystem location `to`.
    fn decompress_file(&self, path_at: &String, to: &String) -> Result<DecompressStats, Error>;

    /// Whether anything can be listed at `path`: the listing when there is
    /// one, and nothing otherwise.
    fn path_exists(&self, path: &String) -> (r: Option<Vec<ViewEntry>>)
        requires
            self.wf(),
        ensures
            r is Some <==> self.listable().contains(path@),
    {
        match self.get_entries(path) {
            Ok(entries) => Some(entries),
            Err(_) => None,
        }
    }
}

/// A format that supports viewing an archive without decompressing it
/// implements this.
pub trait ArchiveOpener {
    /// The viewer capability this opener yields.
    type V: Viewer;

    /// Opens the archive at the filesystem path `path` for viewing.
    fn open_view(path: &String) -> Result<Archive<Self::V>, Error>;
}

/// One opened archive: its filesystem path, its total size as computed at
/// opening time, the viewer capability it owns, and a current virtual
/// directory, always an absolute normalized archive-relative path rooted
/// at the separator.
pub struct Archive<V: Viewer> {
    /// The filesystem path of the archive file.
    path: String,
    /// The current virtual directory inside the archive.
    i_path: String,
    /// The viewer used to read and edit the archive.
    viewer: V,
    /// The size of the archive in bytes, computed when it was opened.
    size: u64,
}

impl<V: Viewer> Archive<V> {
    /// Whether the archive's state is sound: its current directory is an
    /// absolute normalized path and its viewer is well formed.
    pub closed spec fn wf(self) -> bool {
        is_normalized(self.i_path@) && self.viewer.wf()
    }

    /// The current virtual directory.
    pub closed spec fn current_dir(self) -> Seq<char> {
        self.i_path@
    }

    /// The filesystem path of the archive file.
    pub closed spec fn file_path(self) -> Seq<char> {
        self.path@
    }

    /// The viewer the archive owns.
    pub closed spec fn viewer_spec(self) -> V {
        self.viewer
    }

    /// The archive's size in bytes, as computed when it was opened.
    pub closed spec fn total_size(self) -> u64 {
        self.size
    }

    /// Opens an archive over the given viewer: its size is computed from
    /// the file at `path`, and the current directory starts at the root.
    pub fn create(path: String, viewer: V) -> (r: Result<Archive<V>, Error>)
        requires
            viewer.wf(),
        ensures
            r matches Ok(a) ==> a.wf() && is_root(a.current_dir()) && a.viewer_spec() == viewer
                && a.file_path() == path@,
            r matches Err(e) ==> e is IOError,
    {
        let size = match calculate_size(&path) {
            Ok(n) => n,
            Err(e) => {
                return Err(e);
            },
        };
        let i_path = "/".to_owned();
        proof {
            reveal_strlit("/");
            assert(i_path@ =~= seq!['/']);
        }
        Ok(Archive { path, i_path, viewer, size })
    }

    /// The archive's size in bytes, as computed when it was opened.
    pub fn size(&self) -> (r: u64)
        ensures
            r == self.total_size(),
    {
        self.size
    }

    /// The current virtual directory, as text.
    pub fn current_directory(&self) -> (r: &String)
        ensures
            r@ == self.current_dir(),
    {
        &self.i_path
    }

    /// Lists the direct children of the current virtual directory: exactly
    /// the present entries whose parent is the current directory, by the
    /// viewer's contract for listing at that path.
    pub fn list_current(&self) -> (r: Result<Vec<ViewEntry>, Error>)
        requires
            self.wf(),
        ensures
            r is Ok <==> self.viewer_spec().listable().contains(self.current_dir()),
            r matches Err(e) ==> e == Error::ViewError(ViewError::NotFound),
            r matches Ok(v) ==> (forall|i: int|
                0 <= i < v@.len() ==> self.viewer_spec().present().contains(
                    (#[trigger] v@[i]).path@,
                ) && parent_of(v@[i].path@) == self.current_dir()),
            r matches Ok(v) ==> (forall|q: Seq<char>|
                (#[trigger] self.viewer_spec().present().contains(q)) && parent_of(q)
                    == self.current_dir() ==> exists|i: int|
                    0 <= i < v@.len() && (#[trigger] v@[i].path@) == q),
    {
        self.viewer.get_entries(&self.i_path)
    }

    /// Changes the current virtual directory. An empty name or the current
    /// directory's own name keep the state as it is; the parent's name
    /// moves up one level and is unsupported at the root; any other name
    /// is resolved under the current directory, adopted when the viewer
    /// can list it there, and otherwise reported as not found.
    pub fn change_directory(&mut self, target: &str) -> (r: Result<(), Error>)
        requires
            old(self).wf(),
        ensures
            final(self).wf(),
            final(self).viewer_spec() == old(self).viewer_spec(),
            final(self).file_path() == old(self).file_path(),
            final(self).total_size() == old(self).total_size(),
            (target@.len() == 0 || target@ == "."@) ==> r is Ok && final(self).current_dir()
                == old(self).current_dir(),
            target@ == ".."@ ==> (if is_root(old(self).current_dir()) {
                r == Result::<(), Error>::Err(Error::ViewError(ViewError::Unsupported)) && final(self).current_dir()
                    == old(self).current_dir()
            } else {
                r is Ok && final(self).current_dir() == parent_of(old(self).current_dir())
            }),
            (target@.len() != 0 && target@ != "."@ && target@ != ".."@) ==> (if old(self)
                .viewer_spec().listable().contains(join_path(old(self).current_dir(), target@)) {
                r is Ok && final(self).current_dir() == join_path(
                    old(self).current_dir(),
                    target@,
                )
            } else {
                r == Result::<(), Error>::Err(Error::ViewError(ViewError::NotFound)) && final(self).current_dir()
                    == old(self).current_dir()
            }),
    {
        proof {
            reveal_strlit(".");
            reveal_strlit("..");
        }
        if target.unicode_len() == 0 || str_eq(target, ".") {
            return Ok(());
        }
        if str_eq(target, "..") {
            if str_eq(self.i_path.as_str(), "/") {
                proof {
                    reveal_strlit("/");
                    assert(is_root(self.i_path@));
                }
                return Err(Error::ViewError(ViewError::Unsupported));
            }
            proof {
                reveal_strlit("/");
                assert(!is_root(self.i_path@)) by {
                    if is_root(self.i_path@) {
                        assert(self.i_path@ =~= "/"@);
                    }
                }
            }
            let parent = parent_dir(self.i_path.as_str());
            self.i_path = parent;
            return Ok(());
        }
        let joined = join_under(self.i_path.as_str(), target);
        match self.viewer.path_exists(&joined) {
            Some(_) => {
                proof {
                    self.viewer.paths_normalized();
                }
                self.i_path = joined;
                Ok(())
            },
            None => Err(Error::ViewError(ViewError::NotFound)),
        }
    }
}

} // verus!
