//! The navigation model and the in-memory viewer.

use ziphere::_comde::Archive;
use ziphere::_comde::Viewer;
use ziphere::_error::Error;
use ziphere::_error::ViewError;
use ziphere::_comde::ArchiveOpener;
use ziphere::mem_view::MemViewer;

fn path_string(base: &tempfile::TempDir, name: &str) -> String {
    base.path().join(name).to_str().unwrap().to_string()
}

fn sample_viewer(dir: &tempfile::TempDir) -> MemViewer {
    let mut viewer = MemViewer::new();
    viewer.add_dir(&"/sub".to_string()).unwrap();
    viewer.add_dir(&"/sub/deep".to_string()).unwrap();
    let real = path_string(dir, "payload.bin");
    fs_err::write(&real, vec![9u8; 64]).unwrap();
    viewer.add_entry_to(&real, &"/sub/a.txt".to_string()).unwrap();
    viewer.add_entry_to(&real, &"/sub/deep/b.txt".to_string()).unwrap();
    viewer.add_entry_to(&real, &"/top.txt".to_string()).unwrap();
    viewer
}

fn sample_archive(dir: &tempfile::TempDir) -> Archive<MemViewer> {
    let file = path_string(dir, "archive.7z");
    fs_err::write(&file, vec![1u8; 10]).unwrap();
    Archive::create(file, sample_viewer(dir)).unwrap()
}

#[test]
fn create_starts_at_the_root_with_the_archive_size() {
    let dir = tempfile::tempdir().unwrap();
    let archive = sample_archive(&dir);
    assert_eq!(archive.current_directory(), "/");
    assert_eq!(archive.size(), 10);
}

#[test]
fn parent_of_root_is_unsupported() {
    let dir = tempfile::tempdir().unwrap();
    let mut archive = sample_archive(&dir);
    let r = archive.change_directory("..");
    assert!(matches!(r, Err(Error::ViewError(ViewError::Unsupported))));
    assert_eq!(archive.current_directory(), "/");
}

#[test]
fn empty_and_dot_keep_the_current_directory() {
    let dir = tempfile::tempdir().unwrap();
    let mut archive = sample_archive(&dir);
    archive.change_directory("").unwrap();
    archive.change_directory(".").unwrap();
    assert_eq!(archive.current_directory(), "/");
    archive.change_directory("sub").unwrap();
    archive.change_directory(".").unwrap();
    assert_eq!(archive.current_directory(), "/sub");
}

#[test]
fn entering_a_listed_directory_and_listing_its_children() {
    let dir = tempfile::tempdir().unwrap();
    let mut archive = sample_archive(&dir);
    archive.change_directory("sub").unwrap();
    assert_eq!(archive.current_directory(), "/sub");
    let children = archive.list_current().unwrap();
    let mut names: Vec<String> = children.iter().map(|e| e.path.clone()).collect();
    names.sort();
    assert_eq!(names, vec!["/sub/a.txt".to_string(), "/sub/deep".to_string()]);
}

#[test]
fn entering_a_missing_directory_is_not_found() {
    let dir = tempfile::tempdir().unwrap();
    let mut archive = sample_archive(&dir);
    let r = archive.change_directory("missing");
    assert!(matches!(r, Err(Error::ViewError(ViewError::NotFound))));
    assert_eq!(archive.current_directory(), "/");
    let r = archive.change_directory("top.txt");
    assert!(matches!(r, Err(Error::ViewError(ViewError::NotFound))));
}

#[test]
fn a_multi_segment_target_resolves_under_the_current_directory() {
    let dir = tempfile::tempdir().unwrap();
    let mut archive = sample_archive(&dir);
    archive.change_directory("sub/deep").unwrap();
    assert_eq!(archive.current_directory(), "/sub/deep");
}

#[test]
fn dotdot_walks_back_up() {
    let dir = tempfile::tempdir().unwrap();
    let mut archive = sample_archive(&dir);
    archive.change_directory("sub").unwrap();
    archive.change_directory("deep").unwrap();
    assert_eq!(archive.current_directory(), "/sub/deep");
    archive.change_directory("..").unwrap();
    assert_eq!(archive.current_directory(), "/sub");
    archive.change_directory("..").unwrap();
    assert_eq!(archive.current_directory(), "/");
}

#[test]
fn listing_the_root_shows_direct_children_only() {
    let dir = tempfile::tempdir().unwrap();
    let viewer = sample_viewer(&dir);
    let entries = viewer.get_entries(&"/".to_string()).unwrap();
    let mut names: Vec<String> = entries.iter().map(|e| e.path.clone()).collect();
    names.sort();
    assert_eq!(names, vec!["/sub".to_string(), "/top.txt".to_string()]);
}

#[test]
fn get_entries_on_a_file_or_missing_path_is_not_found() {
    let dir = tempfile::tempdir().unwrap();
    let viewer = sample_viewer(&dir);
    let r = viewer.get_entries(&"/top.txt".to_string());
    assert!(matches!(r, Err(Error::ViewError(ViewError::NotFound))));
    let r = viewer.get_entries(&"/nowhere".to_string());
    assert!(matches!(r, Err(Error::ViewError(ViewError::NotFound))));
    assert!(viewer.path_exists(&"/sub".to_string()).is_some());
    assert!(viewer.path_exists(&"/nowhere".to_string()).is_none());
}

#[test]
fn add_entry_records_size_and_presence() {
    let dir = tempfile::tempdir().unwrap();
    let mut viewer = MemViewer::new();
    let real = path_string(&dir, "data.bin");
    fs_err::write(&real, vec![5u8; 48]).unwrap();
    let stats = viewer.add_entry_to(&real, &"/data.bin".to_string()).unwrap();
    assert_eq!(stats.origin_size, 48);
    let entries = viewer.get_entries(&"/".to_string()).unwrap();
    assert_eq!(entries.len(), 1);
    assert_eq!(entries[0].path, "/data.bin");
    assert_eq!(entries[0].uncompressed_size, 48);
    assert!(!entries[0].is_dir);
}

#[test]
fn add_entry_rejects_a_relative_destination() {
    let dir = tempfile::tempdir().unwrap();
    let mut viewer = MemViewer::new();
    let real = path_string(&dir, "data.bin");
    fs_err::write(&real, vec![5u8; 8]).unwrap();
    assert!(viewer.add_entry_to(&real, &"data.bin".to_string()).is_err());
    assert!(viewer.add_entry_to(&real, &"/".to_string()).is_err());
    assert!(viewer.add_entry_to(&real, &"/a//b".to_string()).is_err());
}

#[test]
fn removed_entries_are_no_longer_reported() {
    let dir = tempfile::tempdir().unwrap();
    let mut viewer = sample_viewer(&dir);
    viewer.remove_entry_at(&"/sub/a.txt".to_string()).unwrap();
    let names: Vec<String> = viewer
        .get_entries(&"/sub".to_string())
        .unwrap()
        .iter()
        .map(|e| e.path.clone())
        .collect();
    assert_eq!(names, vec!["/sub/deep".to_string()]);
    let r = viewer.remove_entry_at(&"/sub/a.txt".to_string());
    assert!(matches!(r, Err(Error::ViewError(ViewError::NotFound))));
}

#[test]
fn view_entry_duplicate_copies_every_field() {
    let dir = tempfile::tempdir().unwrap();
    let viewer = sample_viewer(&dir);
    let entries = viewer.get_entries(&"/sub".to_string()).unwrap();
    let copy = entries[0].duplicate();
    assert_eq!(copy.path, entries[0].path);
    assert_eq!(copy.is_dir, entries[0].is_dir);
    assert_eq!(copy.uncompressed_size, entries[0].uncompressed_size);
}

#[test]
fn open_view_starts_an_empty_memory_archive_at_the_root() {
    let dir = tempfile::tempdir().unwrap();
    let file = path_string(&dir, "empty.7z");
    fs_err::write(&file, vec![0u8; 3]).unwrap();
    let archive = MemViewer::open_view(&file).unwrap();
    assert_eq!(archive.current_directory(), "/");
    assert_eq!(archive.size(), 3);
}

#[test]
fn plain_view_handle_wraps_a_path() {
    let _archive = ziphere::view::Archive::new("somewhere.7z");
    let _entry = ziphere::view::Entry {};
}

#[test]
fn removing_a_directory_removes_its_subtree() {
    let dir = tempfile::tempdir().unwrap();
    let mut viewer = sample_viewer(&dir);
    viewer.remove_entry_at(&"/sub".to_string()).unwrap();
    assert!(viewer.path_exists(&"/sub".to_string()).is_none());
    assert!(viewer.path_exists(&"/sub/deep".to_string()).is_none());
    let names: Vec<String> = viewer
        .get_entries(&"/".to_string())
        .unwrap()
        .iter()
        .map(|e| e.path.clone())
        .collect();
    assert_eq!(names, vec!["/top.txt".to_string()]);
    let r = viewer.remove_entry_at(&"/sub".to_string());
    assert!(matches!(r, Err(Error::ViewError(ViewError::NotFound))));
}
