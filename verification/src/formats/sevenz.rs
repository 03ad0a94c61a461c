//! The 7z backend: compression and decompression through the `sevenz_rust2`
//! codecs, configured by a fluent builder.

use vstd::prelude::*;

use crate::comde::CompressStatus;
use crate::comde::DecompressStatus;
use crate::error::ComdeError;
use crate::error::Unimplemented;
use crate::utils::now_millis;
use crate::utils::size_of;
use crate::utils::size_of_inarray;
use crate::utils::write_file_bytes;
use sevenz_rust2::encoder_options::AesEncoderOptions;
use sevenz_rust2::encoder_options::Bzip2Options;
use sevenz_rust2::encoder_options::DeflateOptions;
use sevenz_rust2::encoder_options::DeltaOptions;
use sevenz_rust2::encoder_options::Lzma2Options;
use sevenz_rust2::encoder_options::PpmdOptions;
use sevenz_rust2::ArchiveWriter;
use sevenz_rust2::EncoderConfiguration;
use sevenz_rust2::Password;
use std::io::Cursor;

verus! {

/// The 7z backend selector.
#[derive(Debug)]
pub struct SevenZComde;

/// The archive view for 7z is not finished; this reports the unfinished
/// feature.
pub fn todo() -> (r: Result<(), ComdeError>)
    ensures
        r == Result::<(), ComdeError>::Err(ComdeError::Other(Unimplemented::Unfinished)),
{
    Err(ComdeError::Other(Unimplemented::Unfinished))
}

/// A 7z archive writer of `sevenz_rust2` over an in-memory cursor; opaque
/// here, driven only through the wrappers below.
#[verifier::external_body]
pub struct SzWriter {
    inner: ArchiveWriter<Cursor<Vec<u8>>>,
}

/// One configured coder in a 7z method chain; opaque here, built only by
/// the configuration wrappers below.
#[verifier::external_type_specification]
#[verifier::external_body]
pub struct ExEncoderConfiguration(EncoderConfiguration);

/// Relies on sevenz_rust2::ArchiveWriter::new over a fresh in-memory
/// cursor: a writer whose archive bytes gather in memory.
#[verifier::external_body]
fn sz_writer_new() -> Result<SzWriter, String> {
    match ArchiveWriter::new(Cursor::new(Vec::new())) {
        Ok(inner) => Ok(SzWriter { inner }),
        Err(e) => Err(e.to_string()),
    }
}

/// Relies on the sevenz_rust2 encoder option constructors
/// (Lzma2Options::from_level and from_level_mt, DeltaOptions::from_distance,
/// DeflateOptions::from_level, Bzip2Options::from_level,
/// PpmdOptions::from_level and from_order_memory_size): the backend's form
/// of one method choice. All of them clamp their arguments to the
/// documented range except Bzip2Options::from_level, which stores the raw
/// level; a level outside 1 to 9 would make the encoder's creation panic
/// at push time, so such a level is excluded here.
#[verifier::external_body]
fn encoder_configuration_of(codec: &SevenZCodec) -> EncoderConfiguration
    requires
        *codec matches SevenZCodec::Bzip2 { level } ==> 1 <= level <= 9,
{
    match codec {
        SevenZCodec::Lzma2 { level } => Lzma2Options::from_level(*level).into(),
        SevenZCodec::Lzma2Mt { level, threads, chunk_size } =>
            Lzma2Options::from_level_mt(*level, *threads, *chunk_size).into(),
        SevenZCodec::Delta { distance } => DeltaOptions::from_distance(*distance).into(),
        SevenZCodec::Deflate { level } => DeflateOptions::from_level(*level).into(),
        SevenZCodec::Bzip2 { level } => Bzip2Options::from_level(*level).into(),
        SevenZCodec::Ppmd { level } => PpmdOptions::from_level(*level).into(),
        SevenZCodec::PpmdOrder { order, memory_size } =>
            PpmdOptions::from_order_memory_size(*order, *memory_size).into(),
    }
}

/// Relies on AesEncoderOptions::new over Password::new: AES-256 encryption
/// of the entry data with the given password. Drawing the salt can abort
/// only when the operating system's randomness source fails, an
/// environmental condition like exhausted memory.
#[verifier::external_body]
fn aes_configuration_of(password: &String) -> EncoderConfiguration {
    AesEncoderOptions::new(Password::new(password)).into()
}

/// Relies on ArchiveWriter::set_content_methods: entries pushed from now on
/// are coded by exactly the given chain; an empty chain keeps the default
/// (LZMA2 at its default level).
#[verifier::external_body]
fn sz_set_methods(w: &mut SzWriter, methods: Vec<EncoderConfiguration>) {
    w.inner.set_content_methods(methods);
}

/// Relies on ArchiveWriter::push_source_path: reads the file or tree at
/// `path` and adds it to the archive, the entries sharing one solid block.
#[verifier::external_body]
fn sz_push_solid(w: &mut SzWriter, path: &String) -> Result<(), String> {
    w.inner.push_source_path(path, |_| true).map(|_| ()).map_err(|e| e.to_string())
}

/// Relies on ArchiveWriter::push_source_path_non_solid: reads the file or
/// tree at `path` and adds it to the archive, each entry compressed
/// independently.
#[verifier::external_body]
fn sz_push_non_solid(w: &mut SzWriter, path: &String) -> Result<(), String> {
    w.inner.push_source_path_non_solid(path, |_| true).map(|_| ()).map_err(|e| e.to_string())
}

/// Relies on ArchiveWriter::finish: writes the archive trailer and hands
/// back every byte of the finished archive.
#[verifier::external_body]
fn sz_finish(w: SzWriter) -> Result<Vec<u8>, String> {
    w.inner.finish().map(|c| c.into_inner()).map_err(|e| e.to_string())
}

/// Relies on sevenz_rust2::decompress_with_password: extracts every entry
/// of the in-memory archive into the directory `output` (created if
/// missing), failing on any entry whose stored path would escape it; a
/// missing or wrong password is reported in the failure text.
#[verifier::external_body]
fn sz_decompress_bytes(archive: &Vec<u8>, output: &String, password: Option<&String>) -> Result<
    (),
    String,
> {
    let pw = match password {
        Some(p) => Password::new(p),
        None => Password::empty(),
    };
    sevenz_rust2::decompress_with_password(Cursor::new(archive.as_slice()), output, pw).map_err(
        |e| e.to_string(),
    )
}

/// Relies on sevenz_rust2::decompress_file_with_password: extracts every
/// entry of the archive file at `input` into the directory `output`
/// (created if missing), failing on any entry whose stored path would
/// escape it; a missing or wrong password is reported in the failure text.
#[verifier::external_body]
pub(crate) fn sz_decompress_file(input: &String, output: &String, password: Option<&String>) -> Result<
    (),
    String,
> {
    let pw = match password {
        Some(p) => Password::new(p),
        None => Password::empty(),
    };
    sevenz_rust2::decompress_file_with_password(input, output, pw).map_err(|e| e.to_string())
}

/// One compression method choice for the 7z backend, with its settings.
#[derive(Debug, Clone, Copy, PartialEq, Eq, Structural)]
pub enum SevenZCodec {
    /// LZMA2 at a level from 0 to 9.
    Lzma2 { level: u32 },
    /// LZMA2 at a level from 0 to 9, chunked for several threads.
    Lzma2Mt { level: u32, threads: u32, chunk_size: u64 },
    /// The Delta filter at a distance from 1 to 256.
    Delta { distance: u32 },
    /// Deflate at a level from 0 to 9.
    Deflate { level: u32 },
    /// Bzip2 at a level from 1 to 9.
    Bzip2 { level: u32 },
    /// PPMD at a level from 0 to 9.
    Ppmd { level: u32 },
    /// PPMD with an explicit model order (2 to 64) and memory size in bytes
    /// (at least 2048).
    PpmdOrder { order: u32, memory_size: u32 },
}

/// The coder chain that a validated configuration asks for: the AES coder
/// first when a password is set, then the chosen method; an explicit
/// default method when encryption is on but no method was chosen; empty
/// otherwise, which keeps the writer's default.
fn build_methods(config: &SevenZCfg) -> Vec<EncoderConfiguration>
    requires
        config.valid(),
{
    let mut methods: Vec<EncoderConfiguration> = Vec::new();
    let encrypted = match &config.password {
        Some(p) => {
            methods.push(aes_configuration_of(p));
            true
        },
        None => false,
    };
    match &config.codec {
        Some(c) => methods.push(encoder_configuration_of(c)),
        None => {
            if encrypted {
                methods.push(encoder_configuration_of(&SevenZCodec::Lzma2 { level: 6 }));
            }
        },
    }
    methods
}

impl SevenZComde {
    /// Compresses the given filesystem roots into one 7z archive, built in
    /// memory, honouring the configuration's method choice, encryption and
    /// solid mode. A configuration with a setting outside its documented
    /// range is rejected with a configuration error before any work begins,
    /// so an invalid one never reaches the backend. On success the archive
    /// bytes come back together with a status whose compressed size is
    /// exactly the length of those bytes, as counted at the archive sink;
    /// the origin size is taken before any writing begins.
    pub fn compress(self, input: &Vec<String>, config: &SevenZCfg) -> (r: Result<
        (Vec<u8>, CompressStatus),
        ComdeError,
    >)
        ensures
            r matches Ok((bytes, st)) ==> st.compressed() == bytes@.len(),
            r matches Err(e) ==> e is SevenZError,
            !config.valid() ==> r is Err,
    {
        if !config.is_valid() {
            return Err(
                ComdeError::SevenZError(
                    "A chosen compression setting is outside its documented range.".to_owned(),
                ),
            );
        }
        let mut writer = match sz_writer_new() {
            Ok(w) => w,
            Err(m) => {
                return Err(ComdeError::SevenZError(m));
            },
        };
        let time_begin = now_millis();
        let size_origin = match size_of_inarray(input) {
            Ok(n) => n,
            Err(e) => {
                return Err(ComdeError::SevenZError(e.message()));
            },
        };
        sz_set_methods(&mut writer, build_methods(config));
        let mut i: usize = 0;
        while i < input.len()
            decreases input@.len() - i,
        {
            let pushed = if config.solid_compress {
                sz_push_solid(&mut writer, &input[i])
            } else {
                sz_push_non_solid(&mut writer, &input[i])
            };
            match pushed {
                Ok(()) => {},
                Err(m) => {
                    return Err(ComdeError::SevenZError(m));
                },
            }
            i = i + 1;
        }
        let bytes = match sz_finish(writer) {
            Ok(b) => b,
            Err(m) => {
                let mut detail = "e: ".to_owned();
                detail.append(m.as_str());
                detail.append("\n Writing files error.");
                return Err(ComdeError::SevenZError(detail));
            },
        };
        let size_compressed = bytes.len() as u64;
        let time_now = now_millis();
        let time_cost = if time_now >= time_begin {
            time_now - time_begin
        } else {
            0
        };
        Ok((bytes, CompressStatus::new(size_origin, size_compressed, time_cost)))
    }

    /// Compresses the given filesystem roots into a 7z archive written to
    /// the file at `output`, rejecting an out-of-range configuration like
    /// `compress`.
    pub fn compress_f(self, input: &Vec<String>, output: &String, config: &SevenZCfg) -> (r:
        Result<CompressStatus, ComdeError>)
        ensures
            r matches Err(e) ==> e is SevenZError,
            !config.valid() ==> r is Err,
    {
        let (bytes, status) = match self.compress(input, config) {
            Ok(p) => p,
            Err(e) => {
                return Err(e);
            },
        };
        match write_file_bytes(output, &bytes) {
            Ok(()) => Ok(status),
            Err(m) => Err(ComdeError::SevenZError(m)),
        }
    }

    /// Decompresses the in-memory 7z archive into the directory `output`,
    /// decrypting with the configured password when one is set. On success
    /// the status reports the archive's byte length as the compressed size
    /// and the size of everything under `output` afterwards as the
    /// decompressed size.
    pub fn decompress(self, input: &Vec<u8>, output: &String, config: &SevenZCfg) -> (r: Result<
        DecompressStatus,
        ComdeError,
    >)
        ensures
            r matches Ok(st) ==> st.compressed() == input@.len(),
            r matches Err(e) ==> e is SevenZError,
    {
        let time_begin = now_millis();
        let password = match &config.password {
            Some(p) => Some(p),
            None => None,
        };
        match sz_decompress_bytes(input, output, password) {
            Ok(()) => {},
            Err(m) => {
                return Err(ComdeError::SevenZError(m));
            },
        }
        let size_decompressed = match size_of(output) {
            Ok(n) => n,
            Err(e) => {
                return Err(ComdeError::SevenZError(e.message()));
            },
        };
        let time_now = now_millis();
        let time_cost = if time_now >= time_begin {
            time_now - time_begin
        } else {
            0
        };
        Ok(DecompressStatus::new(input.len() as u64, size_decompressed, time_cost))
    }

    /// Decompresses the 7z archive file at `input` into the directory
    /// `output`, decrypting with the configured password when one is set.
    pub fn decompress_f(self, input: &String, output: &String, config: &SevenZCfg) -> (r: Result<
        DecompressStatus,
        ComdeError,
    >)
        ensures
            r matches Err(e) ==> e is SevenZError,
    {
        let time_begin = now_millis();
        let size_compressed = match size_of(input) {
            Ok(n) => n,
            Err(e) => {
                return Err(ComdeError::SevenZError(e.message()));
            },
        };
        let password = match &config.password {
            Some(p) => Some(p),
            None => None,
        };
        match sz_decompress_file(input, output, password) {
            Ok(()) => {},
            Err(m) => {
                return Err(ComdeError::SevenZError(m));
            },
        }
        let size_decompressed = match size_of(output) {
            Ok(n) => n,
            Err(e) => {
                return Err(ComdeError::SevenZError(e.message()));
            },
        };
        let time_now = now_millis();
        let time_cost = if time_now >= time_begin {
            time_now - time_begin
        } else {
            0
        };
        Ok(DecompressStatus::new(size_compressed, size_decompressed, time_cost))
    }
}

/// Configuration of the 7z backend, built fluently: each setter consumes
/// the value and returns it changed. The method setters are mutually
/// exclusive — only the last call's choice is kept. Zstandard is not
/// offered: the backend is built without that codec.
#[derive(Debug)]
pub struct SevenZCfg {
    solid_compress: bool,
    password: Option<String>,
    codec: Option<SevenZCodec>,
}

impl SevenZCfg {
    /// Whether solid compression was chosen.
    pub closed spec fn solid(self) -> bool {
        self.solid_compress
    }

    /// The password set for encryption or decryption, if any.
    pub closed spec fn passwd(self) -> Option<Seq<char>> {
        match self.password {
            Some(p) => Some(p@),
            None => None,
        }
    }

    /// The compression method chosen, if any; the backend's default is
    /// used when none was.
    pub closed spec fn codec_choice(self) -> Option<SevenZCodec> {
        self.codec
    }

    /// Whether every chosen setting is inside its documented range.
    pub open spec fn valid(self) -> bool {
        match self.codec_choice() {
            None => true,
            Some(SevenZCodec::Lzma2 { level }) => level <= 9,
            Some(SevenZCodec::Lzma2Mt { level, threads, chunk_size }) => level <= 9,
            Some(SevenZCodec::Delta { distance }) => 1 <= distance <= 256,
            Some(SevenZCodec::Deflate { level }) => level <= 9,
            Some(SevenZCodec::Bzip2 { level }) => 1 <= level <= 9,
            Some(SevenZCodec::Ppmd { level }) => level <= 9,
            Some(SevenZCodec::PpmdOrder { order, memory_size }) => 2 <= order <= 64
                && memory_size >= 2048,
        }
    }

    /// A default 7z configuration: non-solid, no password, and the
    /// backend's default method.
    pub fn new() -> (r: SevenZCfg)
        ensures
            !r.solid(),
            r.passwd() is None,
            r.codec_choice() is None,
    {
        SevenZCfg { solid_compress: false, password: None, codec: None }
    }

    /// Switches solid compression, which may make the archive smaller but
    /// prevents extracting one member independently.
    pub fn set_solid_compress(self, enabled: bool) -> (r: SevenZCfg)
        ensures
            r.solid() == enabled,
            r.passwd() == self.passwd(),
            r.codec_choice() == self.codec_choice(),
    {
        SevenZCfg { solid_compress: enabled, ..self }
    }

    /// Sets the password; compression then encrypts with AES-256, and
    /// decompression decrypts with it.
    pub fn set_password(self, password: &str) -> (r: SevenZCfg)
        ensures
            r.passwd() == Some(password@),
            r.solid() == self.solid(),
            r.codec_choice() == self.codec_choice(),
    {
        SevenZCfg { password: Some(password.to_owned()), ..self }
    }

    /// Chooses LZMA2 at the given level (0 to 9).
    pub fn use_lzma2_with_level(self, level: u32) -> (r: SevenZCfg)
        ensures
            r.codec_choice() == Some(SevenZCodec::Lzma2 { level }),
            r.solid() == self.solid(),
            r.passwd() == self.passwd(),
    {
        SevenZCfg { codec: Some(SevenZCodec::Lzma2 { level }), ..self }
    }

    /// Chooses LZMA2 at the given level (0 to 9), chunked so that several
    /// threads can compress independently.
    pub fn use_lzma2_with_multithread(self, level: u32, threads: u32, chunk_size: u64) -> (r:
        SevenZCfg)
        ensures
            r.codec_choice() == Some(SevenZCodec::Lzma2Mt { level, threads, chunk_size }),
            r.solid() == self.solid(),
            r.passwd() == self.passwd(),
    {
        SevenZCfg { codec: Some(SevenZCodec::Lzma2Mt { level, threads, chunk_size }), ..self }
    }

    /// Chooses the Delta filter at the given distance (1 to 256).
    pub fn use_delta_with_distance(self, distance: u32) -> (r: SevenZCfg)
        ensures
            r.codec_choice() == Some(SevenZCodec::Delta { distance }),
            r.solid() == self.solid(),
            r.passwd() == self.passwd(),
    {
        SevenZCfg { codec: Some(SevenZCodec::Delta { distance }), ..self }
    }

    /// Chooses Deflate at the given level (0 to 9).
    pub fn use_deflate_with_level(self, level: u32) -> (r: SevenZCfg)
        ensures
            r.codec_choice() == Some(SevenZCodec::Deflate { level }),
            r.solid() == self.solid(),
            r.passwd() == self.passwd(),
    {
        SevenZCfg { codec: Some(SevenZCodec::Deflate { level }), ..self }
    }

    /// Chooses Bzip2 at the given level (1 to 9).
    pub fn use_bzip2_with_level(self, level: u32) -> (r: SevenZCfg)
        ensures
            r.codec_choice() == Some(SevenZCodec::Bzip2 { level }),
            r.solid() == self.solid(),
            r.passwd() == self.passwd(),
    {
        SevenZCfg { codec: Some(SevenZCodec::Bzip2 { level }), ..self }
    }

    /// Chooses PPMD at the given level (0 to 9).
    pub fn use_ppmd_with_level(self, level: u32) -> (r: SevenZCfg)
        ensures
            r.codec_choice() == Some(SevenZCodec::Ppmd { level }),
            r.solid() == self.solid(),
            r.passwd() == self.passwd(),
    {
        SevenZCfg { codec: Some(SevenZCodec::Ppmd { level }), ..self }
    }

    /// Chooses PPMD with an explicit model order (2 to 64) and memory size
    /// in bytes (at least 2048).
    pub fn use_ppmd_with_order_memsize(self, order: u32, memory_size: u32) -> (r: SevenZCfg)
        ensures
            r.codec_choice() == Some(SevenZCodec::PpmdOrder { order, memory_size }),
            r.solid() == self.solid(),
            r.passwd() == self.passwd(),
    {
        SevenZCfg { codec: Some(SevenZCodec::PpmdOrder { order, memory_size }), ..self }
    }

    /// Chooses PPMD tuned for speed: order 3 with 1 MB of memory.
    pub fn use_ppmd_fast(self) -> (r: SevenZCfg)
        ensures
            r.codec_choice() == Some(SevenZCodec::PpmdOrder { order: 3, memory_size: 0x100000 }),
            r.solid() == self.solid(),
            r.passwd() == self.passwd(),
    {
        SevenZCfg { codec: Some(SevenZCodec::PpmdOrder { order: 3, memory_size: 0x100000 }), ..self }
    }

    /// Chooses PPMD balanced between speed and ratio: order 8 with 8 MB of
    /// memory.
    pub fn use_ppmd_balanced(self) -> (r: SevenZCfg)
        ensures
            r.codec_choice() == Some(SevenZCodec::PpmdOrder { order: 8, memory_size: 0x800000 }),
            r.solid() == self.solid(),
            r.passwd() == self.passwd(),
    {
        SevenZCfg { codec: Some(SevenZCodec::PpmdOrder { order: 8, memory_size: 0x800000 }), ..self }
    }

    /// Chooses PPMD tuned for ratio: order 16 with 32 MB of memory.
    pub fn use_ppmd_max(self) -> (r: SevenZCfg)
        ensures
            r.codec_choice() == Some(SevenZCodec::PpmdOrder { order: 16, memory_size: 0x2000000 }),
            r.solid() == self.solid(),
            r.passwd() == self.passwd(),
    {
        SevenZCfg {
            codec: Some(SevenZCodec::PpmdOrder { order: 16, memory_size: 0x2000000 }),
            ..self
        }
    }

    /// Whether every chosen setting is inside its documented range.
    pub fn is_valid(&self) -> (r: bool)
        ensures
            r == self.valid(),
    {
        match &self.codec {
            None => true,
            Some(SevenZCodec::Lzma2 { level }) => *level <= 9,
            Some(SevenZCodec::Lzma2Mt { level, threads, chunk_size }) => *level <= 9,
            Some(SevenZCodec::Delta { distance }) => 1 <= *distance && *distance <= 256,
            Some(SevenZCodec::Deflate { level }) => *level <= 9,
            Some(SevenZCodec::Bzip2 { level }) => 1 <= *level && *level <= 9,
            Some(SevenZCodec::Ppmd { level }) => *level <= 9,
            Some(SevenZCodec::PpmdOrder { order, memory_size }) => 2 <= *order && *order <= 64
                && *memory_size >= 2048,
        }
    }

    /// The configured password, when one was set.
    pub fn password(&self) -> (r: Option<&String>)
        ensures
            match r {
                Some(p) => self.passwd() == Some(p@),
                None => self.passwd() is None,
            },
    {
        match &self.password {
            Some(p) => Some(p),
            None => None,
        }
    }

}

/// Checks every chosen setting of a configuration against its documented
/// range.
pub(crate) fn validate_cfg(cfg: SevenZCfg) -> (r: Result<SevenZCfg, ComdeError>)
    ensures
        r is Ok <==> cfg.valid(),
        r matches Ok(c) ==> c == cfg,
        r matches Err(e) ==> e is SevenZError,
{
    if cfg.is_valid() {
        Ok(cfg)
    } else {
        Err(
            ComdeError::SevenZError(
                "A chosen compression setting is outside its documented range.".to_owned(),
            ),
        )
    }
}

} // verus!
