//! Size accounting and human-readable formatting.

use ziphere::error::AppError;
use ziphere::utils::contains_str;
use ziphere::utils::h_size;
use ziphere::utils::size_of;
use ziphere::utils::size_of_inarray;
use ziphere::utils::str_eq;
use ziphere::utils::total_of_lens;
use ziphere::utils::u64_to_decimal;

fn path_string(base: &tempfile::TempDir, name: &str) -> String {
    base.path().join(name).to_str().unwrap().to_string()
}

#[test]
fn h_size_small_values_are_plain_bytes() {
    assert_eq!(h_size(0), "0 B");
    assert_eq!(h_size(1), "1 B");
    assert_eq!(h_size(512), "512 B");
    assert_eq!(h_size(1023), "1023 B");
}

#[test]
fn h_size_unit_thresholds() {
    assert_eq!(h_size(1024), "1.00 KB");
    assert_eq!(h_size(1048576), "1.00 MB");
    assert_eq!(h_size(1073741824), "1.00 GB");
    assert_eq!(h_size(1099511627776), "1.00 TB");
    assert_eq!(h_size(1125899906842624), "1.00 PB");
}

#[test]
fn h_size_two_decimals() {
    assert_eq!(h_size(1536), "1.50 KB");
    assert_eq!(h_size(1048575), "1024.00 KB");
    assert_eq!(h_size(123456789), "117.74 MB");
}

#[test]
fn h_size_ties_go_to_the_even_hundredth() {
    assert_eq!(h_size(1152), "1.12 KB");
    assert_eq!(h_size(1408), "1.38 KB");
}

#[test]
fn h_size_matches_float_reference() {
    let cases: Vec<u64> = vec![
        1024,
        1025,
        1152,
        1536,
        2047,
        65535,
        1048575,
        1048576,
        123456789,
        1073741823,
        1073741824,
        987654321098,
        1099511627775,
        1099511627776,
        1125899906842623,
        1125899906842624,
        9007199254740992,
        9007199254740993,
        9007199254741504,
        18446744073709551615,
    ];
    for &n in &cases {
        let expected = if n < 1024 {
            format!("{} B", n)
        } else if n < 1048576 {
            format!("{:.2} KB", n as f64 / 1024.0)
        } else if n < 1073741824 {
            format!("{:.2} MB", n as f64 / 1048576.0)
        } else if n < 1099511627776 {
            format!("{:.2} GB", n as f64 / 1073741824.0)
        } else if n < 1125899906842624 {
            format!("{:.2} TB", n as f64 / 1099511627776.0)
        } else {
            format!("{:.2} PB", n as f64 / 1125899906842624.0)
        };
        assert_eq!(h_size(n), expected, "mismatch for {}", n);
    }
}

#[test]
fn u64_to_decimal_spells_numbers() {
    assert_eq!(u64_to_decimal(0), "0");
    assert_eq!(u64_to_decimal(7), "7");
    assert_eq!(u64_to_decimal(1234567890), "1234567890");
    assert_eq!(u64_to_decimal(u64::MAX), "18446744073709551615");
}

#[test]
fn total_of_lens_adds_exactly() {
    assert_eq!(total_of_lens(&vec![]), Some(0));
    assert_eq!(total_of_lens(&vec![1, 2, 3]), Some(6));
    assert_eq!(total_of_lens(&vec![u64::MAX, 0]), Some(u64::MAX));
    assert_eq!(total_of_lens(&vec![u64::MAX, 1]), None);
}

#[test]
fn size_of_file_and_directory() {
    let dir = tempfile::tempdir().unwrap();
    let f1 = path_string(&dir, "a.bin");
    fs_err::write(&f1, vec![0u8; 100]).unwrap();
    let sub = path_string(&dir, "sub");
    fs_err::create_dir_all(&sub).unwrap();
    let f2 = path_string(&dir, "sub/b.bin");
    fs_err::write(&f2, vec![1u8; 23]).unwrap();

    assert_eq!(size_of(&f1).unwrap(), 100);
    assert_eq!(size_of(&f2).unwrap(), 23);
    let root = dir.path().to_str().unwrap().to_string();
    assert_eq!(size_of(&root).unwrap(), 123);
}

#[test]
fn size_of_missing_path_is_fs_error() {
    let dir = tempfile::tempdir().unwrap();
    let missing = path_string(&dir, "nope");
    match size_of(&missing) {
        Err(AppError::FsError(_)) => {}
        other => panic!("expected a filesystem error, got {:?}", other),
    }
}

#[test]
fn size_of_inarray_sums_roots_in_any_order() {
    let dir = tempfile::tempdir().unwrap();
    let f1 = path_string(&dir, "a.bin");
    fs_err::write(&f1, vec![0u8; 11]).unwrap();
    let sub = path_string(&dir, "sub");
    fs_err::create_dir_all(&sub).unwrap();
    let f2 = path_string(&dir, "sub/b.bin");
    fs_err::write(&f2, vec![1u8; 31]).unwrap();

    let forward = size_of_inarray(&vec![f1.clone(), sub.clone()]).unwrap();
    let backward = size_of_inarray(&vec![sub, f1]).unwrap();
    assert_eq!(forward, 42);
    assert_eq!(backward, 42);
}

#[test]
fn size_of_inarray_of_nothing_is_zero() {
    assert_eq!(size_of_inarray(&vec![]), Ok(0));
}

#[test]
fn size_of_inarray_stops_at_first_failure() {
    let dir = tempfile::tempdir().unwrap();
    let f1 = path_string(&dir, "a.bin");
    fs_err::write(&f1, vec![0u8; 5]).unwrap();
    let missing = path_string(&dir, "gone");
    match size_of_inarray(&vec![f1, missing]) {
        Err(AppError::FsError(_)) => {}
        other => panic!("expected a filesystem error, got {:?}", other),
    }
}

#[test]
fn str_eq_and_contains_str() {
    assert!(str_eq("zip", "zip"));
    assert!(!str_eq("zip", "ZIP"));
    assert!(!str_eq("zip", "zipper"));
    assert!(contains_str("MaybeBadPassword(...)", "assword"));
    assert!(contains_str("PasswordRequired", "assword"));
    assert!(!contains_str("ChecksumVerificationFailed", "assword"));
    assert!(contains_str("anything", ""));
    assert!(!contains_str("ab", "abc"));
}
