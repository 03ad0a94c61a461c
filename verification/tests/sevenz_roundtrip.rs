//! Round trips through the 7z backend, with and without a password.

use ziphere::_comde::Compress;
use ziphere::_comde::Decompress;
use ziphere::_error::DecompError;
use ziphere::_error::Error;
use ziphere::formats::sevenz::SevenZCfg;
use ziphere::formats::sevenz::SevenZComde;
use ziphere::Configs;
use ziphere::Formats;

fn path_string(base: &tempfile::TempDir, name: &str) -> String {
    base.path().join(name).to_str().unwrap().to_string()
}

fn make_tree(dir: &tempfile::TempDir) -> String {
    let root = path_string(dir, "src_tree");
    fs_err::create_dir_all(format!("{}/inner", root)).unwrap();
    fs_err::write(format!("{}/alpha.txt", root), b"alpha contents".to_vec()).unwrap();
    fs_err::write(format!("{}/inner/beta.bin", root), vec![7u8; 300]).unwrap();
    root
}

#[test]
fn compress_then_decompress_reproduces_the_tree() {
    let dir = tempfile::tempdir().unwrap();
    let root = make_tree(&dir);
    let archive = path_string(&dir, "tree.7z");
    let out = path_string(&dir, "out");

    let cfg = Configs::get_7z();
    let status = Formats::get_7z()
        .compress_f(&vec![root.clone()], &archive, &cfg)
        .expect("compression must succeed");
    assert_eq!(status.origin_size(), 14 + 300);
    assert!(status.compressed_size() > 0);

    let cfg = Configs::get_7z();
    let dstatus = Formats::get_7z()
        .decompress_f(&archive, &out, &cfg)
        .expect("decompression must succeed");
    assert_eq!(dstatus.decompressed_size(), 14 + 300);

    let alpha = fs_err::read(format!("{}/alpha.txt", out)).unwrap();
    assert_eq!(alpha, b"alpha contents");
    let beta = fs_err::read(format!("{}/inner/beta.bin", out)).unwrap();
    assert_eq!(beta, vec![7u8; 300]);
}

#[test]
fn in_memory_compress_reports_exact_archive_length() {
    let dir = tempfile::tempdir().unwrap();
    let root = make_tree(&dir);
    let cfg = Configs::get_7z();
    let (bytes, status) = Formats::get_7z()
        .compress(&vec![root], &cfg)
        .expect("compression must succeed");
    assert_eq!(status.compressed_size(), bytes.len() as u64);

    let out = path_string(&dir, "from_memory");
    let cfg = Configs::get_7z();
    Formats::get_7z()
        .decompress(&bytes, &out, &cfg)
        .expect("decompression from memory must succeed");
    let alpha = fs_err::read(format!("{}/alpha.txt", out)).unwrap();
    assert_eq!(alpha, b"alpha contents");
}

#[test]
fn solid_mode_round_trip() {
    let dir = tempfile::tempdir().unwrap();
    let root = make_tree(&dir);
    let archive = path_string(&dir, "solid.7z");
    let out = path_string(&dir, "out_solid");
    let cfg = Configs::get_7z().set_solid_compress(true).use_lzma2_with_level(4);
    Formats::get_7z()
        .compress_f(&vec![root], &archive, &cfg)
        .expect("solid compression must succeed");
    let cfg = Configs::get_7z();
    Formats::get_7z().decompress_f(&archive, &out, &cfg).expect("must decompress");
    let beta = fs_err::read(format!("{}/inner/beta.bin", out)).unwrap();
    assert_eq!(beta, vec![7u8; 300]);
}

#[test]
fn missing_input_is_an_input_error() {
    let dir = tempfile::tempdir().unwrap();
    let archive = path_string(&dir, "x.7z");
    let missing = path_string(&dir, "not_there");
    let r = <SevenZComde as Compress>::compress_file(&missing, &archive, SevenZCfg::new());
    assert!(matches!(r, Err(Error::IOError(_))));
}

#[test]
fn password_round_trip_and_credential_errors() {
    let dir = tempfile::tempdir().unwrap();
    let root = make_tree(&dir);
    let archive = path_string(&dir, "locked.7z");

    let cfg = SevenZCfg::new().set_password("open sesame");
    <SevenZComde as Compress>::compress_file(&root, &archive, cfg)
        .expect("encrypted compression must succeed");

    let out1 = path_string(&dir, "no_pw");
    let r = <SevenZComde as Decompress>::decompress_file(&archive, &out1, SevenZCfg::new());
    match r {
        Err(Error::DecompressError(DecompError::PasswdNeeded(_))) => {}
        other => panic!("expected a password-needed error, got {:?}", other),
    }

    let out2 = path_string(&dir, "bad_pw");
    let cfg = SevenZCfg::new().set_password("wrong");
    let r = <SevenZComde as Decompress>::decompress_file(&archive, &out2, cfg);
    match r {
        Err(Error::DecompressError(DecompError::PasswdIncorrect(_))) => {}
        other => panic!("expected a password-incorrect error, got {:?}", other),
    }

    let out3 = path_string(&dir, "good_pw");
    let cfg = SevenZCfg::new().set_password("open sesame");
    <SevenZComde as Decompress>::decompress_file(&archive, &out3, cfg)
        .expect("the right password must open the archive");
    let alpha = fs_err::read(format!("{}/alpha.txt", out3)).unwrap();
    assert_eq!(alpha, b"alpha contents");
}
