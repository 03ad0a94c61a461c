//! Format resolution, configuration builders and error texts.

use ziphere::_comde::ComdeConfig;
use ziphere::_error::classify_decomp_failure;
use ziphere::_error::DecompError;
use ziphere::_error::Error;
use ziphere::_formats::Configs as IfConfigs;
use ziphere::_formats::Formats as IfFormats;
use ziphere::comde::CompressStatus;
use ziphere::comde::DecompressStatus;
use ziphere::error::AppError;
use ziphere::error::ComdeError;
use ziphere::error::Unimplemented;
use ziphere::formats::sevenz::SevenZCfg;
use ziphere::formats::sevenz::todo;
use ziphere::formats::zip::ZipCfg;
use ziphere::Configs;
use ziphere::Formats;

#[test]
fn new_with_accepts_every_documented_alias() {
    for name in ["zip", "ZIP", "Zip"] {
        match IfFormats::new_with(name) {
            Ok(IfFormats::Zip(_)) => {}
            other => panic!("{} must resolve to the zip backend, got {:?}", name, other),
        }
    }
    for name in ["7z", "7Z", "sevenz", "sevenZ", "SevenZ"] {
        match IfFormats::new_with(name) {
            Ok(IfFormats::SevenZ(_)) => {}
            other => panic!("{} must resolve to the 7z backend, got {:?}", name, other),
        }
    }
}

#[test]
fn new_with_rejects_everything_else() {
    for name in ["", "zIp", "ZIp", "7", "rar", "Sevenz", "SEVENZ", "zip ", " 7z", "tar.gz"] {
        match IfFormats::new_with(name) {
            Err(Error::Unsupported) => {}
            other => panic!("{} must be unsupported, got {:?}", name, other),
        }
    }
}

#[test]
fn new_compress_and_new_decompress_pick_direction() {
    assert!(matches!(IfConfigs::new_compress("zip"), Ok(IfConfigs::ZipConfig(_))));
    assert!(matches!(IfConfigs::new_compress("SevenZ"), Ok(IfConfigs::SevenzConfig(_))));
    assert!(matches!(IfConfigs::new_decompress("Zip"), Ok(IfConfigs::ZipDeConfig(_))));
    assert!(matches!(IfConfigs::new_decompress("7z"), Ok(IfConfigs::SevenzDeConfig(_))));
    assert!(matches!(IfConfigs::new_compress("what"), Err(Error::Unsupported)));
    assert!(matches!(IfConfigs::new_decompress(""), Err(Error::Unsupported)));
}

#[test]
fn plain_entry_points_hand_out_backends() {
    let _zip = Formats::get_zip();
    let _seven = Formats::get_7z();
    let _zc: ZipCfg = Configs::get_zip();
    let sc: SevenZCfg = Configs::get_7z();
    assert!(sc.password().is_none());
}

#[test]
fn zip_backend_reports_unfinished() {
    let cfg = ZipCfg::new();
    let inputs = vec!["in".to_string()];
    let r = Formats::get_zip().compress_f(&inputs, &"out".to_string(), &cfg);
    assert!(matches!(r, Err(ComdeError::Other(Unimplemented::Unfinished))));
    let cfg = ZipCfg::new();
    let r = Formats::get_zip().decompress_f(&"in".to_string(), &"out".to_string(), &cfg);
    assert!(matches!(r, Err(ComdeError::Other(Unimplemented::Unfinished))));
    assert!(matches!(todo(), Err(ComdeError::Other(Unimplemented::Unfinished))));
}

#[test]
fn sevenz_builder_keeps_only_the_last_method() {
    let cfg = SevenZCfg::new()
        .use_delta_with_distance(0)
        .use_lzma2_with_level(3);
    assert!(ComdeConfig::build(cfg).is_ok());
}

#[test]
fn sevenz_builder_rejects_out_of_range_settings() {
    assert!(ComdeConfig::build(SevenZCfg::new().use_lzma2_with_level(10)).is_err());
    assert!(ComdeConfig::build(SevenZCfg::new().use_delta_with_distance(0)).is_err());
    assert!(ComdeConfig::build(SevenZCfg::new().use_delta_with_distance(257)).is_err());
    assert!(ComdeConfig::build(SevenZCfg::new().use_deflate_with_level(10)).is_err());
    assert!(ComdeConfig::build(SevenZCfg::new().use_bzip2_with_level(0)).is_err());
    assert!(ComdeConfig::build(SevenZCfg::new().use_ppmd_with_level(10)).is_err());
    assert!(ComdeConfig::build(SevenZCfg::new().use_ppmd_with_order_memsize(1, 4096)).is_err());
    assert!(ComdeConfig::build(SevenZCfg::new().use_ppmd_with_order_memsize(8, 1024)).is_err());
}

#[test]
fn sevenz_builder_accepts_documented_ranges() {
    assert!(ComdeConfig::build(SevenZCfg::new()).is_ok());
    assert!(ComdeConfig::build(SevenZCfg::new().use_lzma2_with_level(9)).is_ok());
    assert!(ComdeConfig::build(SevenZCfg::new().use_lzma2_with_multithread(5, 2, 1 << 20)).is_ok());
    assert!(ComdeConfig::build(SevenZCfg::new().use_delta_with_distance(256)).is_ok());
    assert!(ComdeConfig::build(SevenZCfg::new().use_deflate_with_level(0)).is_ok());
    assert!(ComdeConfig::build(SevenZCfg::new().use_bzip2_with_level(9)).is_ok());
    assert!(ComdeConfig::build(SevenZCfg::new().use_ppmd_fast()).is_ok());
    assert!(ComdeConfig::build(SevenZCfg::new().use_ppmd_balanced()).is_ok());
    assert!(ComdeConfig::build(SevenZCfg::new().use_ppmd_max()).is_ok());
    assert!(ComdeConfig::build(SevenZCfg::new().set_solid_compress(true).set_password("x")).is_ok());
}

#[test]
fn compress_rejects_an_out_of_range_configuration() {
    let cfg = SevenZCfg::new().use_bzip2_with_level(0);
    assert!(!cfg.is_valid());
    let r = Formats::get_7z().compress(&vec![".".to_string()], &cfg);
    assert!(matches!(r, Err(ComdeError::SevenZError(_))));
    let cfg = SevenZCfg::new().use_bzip2_with_level(10);
    let r = Formats::get_7z().compress_f(&vec![".".to_string()], &"never.7z".to_string(), &cfg);
    assert!(matches!(r, Err(ComdeError::SevenZError(_))));
}

#[test]
fn classify_decomp_failure_reads_the_text_and_the_password_state() {
    let r = classify_decomp_failure("PasswordRequired".to_string(), false);
    assert!(matches!(r, DecompError::PasswdNeeded(ref d) if d == "PasswordRequired"));
    let r = classify_decomp_failure("MaybeBadPassword(bad)".to_string(), true);
    assert!(matches!(r, DecompError::PasswdIncorrect(ref d) if d == "MaybeBadPassword(bad)"));
    let r = classify_decomp_failure("password needed".to_string(), false);
    assert!(matches!(r, DecompError::PasswdNeeded(_)));
    let r = classify_decomp_failure("ChecksumVerificationFailed".to_string(), true);
    assert!(matches!(r, DecompError::DecompressErr(_)));
}

#[test]
fn error_messages_spell_their_detail() {
    assert_eq!(AppError::FsError("boom".to_string()).message(), "boom");
    assert_eq!(
        AppError::ComdeError(ComdeError::ZipError("z".to_string())).message(),
        "Error when compressing/decompressing."
    );
    assert_eq!(AppError::OtherError().message(), "Unknown error.");
    assert_eq!(
        ComdeError::SevenZError("bad".to_string()).message(),
        "Error when compressing/decompressing 7z: bad"
    );
    assert_eq!(
        ComdeError::ZipError("bad".to_string()).message(),
        "Error when compressing/decompressing zip: bad"
    );
    assert_eq!(ComdeError::Other(Unimplemented::Unfinished).message(), "Unfinished");
}

#[test]
fn status_messages_use_human_readable_sizes() {
    let s = CompressStatus::new(2048, 1024, 3000);
    assert_eq!(
        s.message(),
        "\n\tOrigin files size: 2.00 KB\n\tCompressed archive size: 1.00 KB\n\tTime  cost: 3"
    );
    assert_eq!(s.origin_size(), 2048);
    assert_eq!(s.compressed_size(), 1024);
    assert_eq!(s.time_ms(), 3000);
    let d = DecompressStatus::new(100, 200, 1999);
    assert_eq!(
        d.message(),
        "\n\tArchive size: 100 B\n\tDecompressed files size: 200 B\n\tTime cost: 1s\n"
    );
}

#[test]
fn interface_stats_messages_spell_plain_numbers() {
    let s = ziphere::_comde::CompressStats::new(12345, 678, 2000);
    assert_eq!(s.message(), "Origin size: 12345\nCompressed size: 678\nTime cost: 2s\n");
    let d = ziphere::_comde::DecompressStats::new(678, 12345, 500);
    assert_eq!(d.message(), "Origin size: 678\nDecompressed size: 12345\nTime cost: 0s\n");
}
