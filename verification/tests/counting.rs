//! The shared byte counters.

use std::io::Cursor;
use ziphere::utils::CountingReader;
use ziphere::utils::CountingWriter;

#[test]
fn writer_counts_bytes_actually_written() {
    let mut w = CountingWriter::new(Cursor::new(Vec::<u8>::new()));
    assert_eq!(w.bytes_written(), 0);
    assert_eq!(w.write(b"hello").unwrap(), 5);
    assert_eq!(w.bytes_written(), 5);
    assert_eq!(w.write(b" world").unwrap(), 6);
    assert_eq!(w.bytes_written(), 11);
}

#[test]
fn writer_clones_share_one_counter() {
    let mut a = CountingWriter::new(Cursor::new(Vec::<u8>::new()));
    let mut b = a.share();
    assert_eq!(a.write(b"abc").unwrap(), 3);
    assert_eq!(b.write(b"defg").unwrap(), 4);
    assert_eq!(a.bytes_written(), 7);
    assert_eq!(b.bytes_written(), 7);
}

#[test]
fn writer_seek_never_changes_the_counter() {
    let mut w = CountingWriter::new(Cursor::new(Vec::<u8>::new()));
    w.write(b"abcdef").unwrap();
    assert_eq!(w.bytes_written(), 6);
    w.seek(std::io::SeekFrom::Start(0)).unwrap();
    assert_eq!(w.bytes_written(), 6);
    w.seek(std::io::SeekFrom::End(0)).unwrap();
    assert_eq!(w.bytes_written(), 6);
}

#[test]
fn writer_try_into_inner_needs_sole_ownership() {
    let w = CountingWriter::new(Cursor::new(Vec::<u8>::new()));
    let other = w.share();
    let w = match w.try_into_inner() {
        Err(handle) => handle,
        Ok(_) => panic!("reclaiming must fail while another handle lives"),
    };
    drop(other);
    match w.try_into_inner() {
        Ok(cursor) => assert_eq!(cursor.into_inner(), Vec::<u8>::new()),
        Err(_) => panic!("sole handle must reclaim the writer"),
    }
}

#[test]
fn writer_total_matches_requested_when_fully_satisfied() {
    let mut a = CountingWriter::new(Cursor::new(Vec::<u8>::new()));
    let mut b = a.share();
    let chunks: Vec<&[u8]> = vec![b"one", b"four", b"sevenfold"];
    let mut requested = 0u64;
    for (i, c) in chunks.iter().enumerate() {
        let n = if i % 2 == 0 { a.write(c).unwrap() } else { b.write(c).unwrap() };
        assert_eq!(n, c.len());
        requested += c.len() as u64;
    }
    assert_eq!(a.bytes_written(), requested);
}

#[test]
fn reader_counts_bytes_actually_read() {
    let mut r = CountingReader::new(Cursor::new(b"abcdefgh".to_vec()));
    assert_eq!(r.bytes_read(), 0);
    let mut buf = vec![0u8; 3];
    assert_eq!(r.read(&mut buf).unwrap(), 3);
    assert_eq!(buf, b"abc");
    assert_eq!(r.bytes_read(), 3);
    let mut big = vec![0u8; 100];
    assert_eq!(r.read(&mut big).unwrap(), 5);
    assert_eq!(r.bytes_read(), 8);
}

#[test]
fn reader_clones_share_one_counter_and_seek_is_free() {
    let mut a = CountingReader::new(Cursor::new(b"abcdef".to_vec()));
    let b = a.share();
    let mut buf = vec![0u8; 2];
    a.read(&mut buf).unwrap();
    assert_eq!(b.bytes_read(), 2);
    a.seek(std::io::SeekFrom::Start(0)).unwrap();
    assert_eq!(a.bytes_read(), 2);
    let a = match a.try_into_inner() {
        Err(handle) => handle,
        Ok(_) => panic!("reclaiming must fail while another handle lives"),
    };
    drop(b);
    assert!(a.try_into_inner().is_ok());
}
