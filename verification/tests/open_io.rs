use std::io::{ErrorKind, Write};
use std::path::Path;

use write_mode::WriteMode;

/// Applies the configuration a mode resolves to through a platform open call.
fn open_with(mode: WriteMode, path: &Path) -> std::io::Result<fs_err::File> {
    let c = mode.to_open_configuration();
    fs_err::OpenOptions::new()
        .read(c.read)
        .write(c.write)
        .create_new(c.create_new)
        .create(c.create)
        .append(c.append)
        .open(path)
}

#[test]
fn create_new_creates_once_then_fails() {
    let dir = tempfile::tempdir().unwrap();
    let f = dir.path().join("f");

    let first = open_with(WriteMode::CreateNew, &f);
    assert!(first.is_ok());
    drop(first);
    assert_eq!(fs_err::metadata(&f).unwrap().len(), 0);

    let second = open_with(WriteMode::CreateNew, &f);
    assert_eq!(second.unwrap_err().kind(), ErrorKind::AlreadyExists);
}

#[test]
fn update_existing_requires_an_existing_file() {
    let dir = tempfile::tempdir().unwrap();
    let f = dir.path().join("f");

    let missing = open_with(WriteMode::UpdateExisting, &f);
    assert_eq!(missing.unwrap_err().kind(), ErrorKind::NotFound);

    let created = open_with(WriteMode::ClassicWrite, &f);
    assert!(created.is_ok());
    drop(created);

    let updated = open_with(WriteMode::UpdateExisting, &f);
    assert!(updated.is_ok());
}

#[test]
fn append_to_existing_appends_bytes() {
    let dir = tempfile::tempdir().unwrap();
    let f = dir.path().join("f");

    let mut w = open_with(WriteMode::ClassicWrite, &f).unwrap();
    w.write_all(b"AB").unwrap();
    drop(w);

    let mut a = open_with(WriteMode::AppendToExisting, &f).unwrap();
    a.write_all(b"CD").unwrap();
    drop(a);

    assert_eq!(fs_err::read(&f).unwrap(), b"ABCD");
}

#[test]
fn update_existing_overwrites_in_place_without_truncating() {
    let dir = tempfile::tempdir().unwrap();
    let f = dir.path().join("f");

    let mut w = open_with(WriteMode::ClassicWrite, &f).unwrap();
    w.write_all(b"ABCD").unwrap();
    drop(w);

    let mut u = open_with(WriteMode::UpdateExisting, &f).unwrap();
    u.write_all(b"XY").unwrap();
    drop(u);

    assert_eq!(fs_err::read(&f).unwrap(), b"XYCD");
}

#[test]
fn classic_append_creates_missing_file_and_appends() {
    let dir = tempfile::tempdir().unwrap();
    let f = dir.path().join("f");

    let mut first = open_with(WriteMode::ClassicAppend, &f).unwrap();
    first.write_all(b"AB").unwrap();
    drop(first);

    let mut second = open_with(WriteMode::ClassicAppend, &f).unwrap();
    second.write_all(b"CD").unwrap();
    drop(second);

    assert_eq!(fs_err::read(&f).unwrap(), b"ABCD");
}
