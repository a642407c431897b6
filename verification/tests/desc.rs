//! The descriptor framing: the continuation-coded size, its minimal length,
//! and tag checking.

use mp4box::descriptor::{size_of_length, BaseDescriptor, MAX_DESC_SIZE};
use mp4box::Mp4BoxError;

fn desc_size_case(buf: &mut Vec<u8>, expected: u32) {
    buf.clear();
    let desc = BaseDescriptor::new(0);
    let total = 1 + size_of_length(expected) as u64 + expected as u64;
    desc.write(buf, total);
    assert_eq!(buf.len() as u32, 1 + size_of_length(expected));
    let (desc, end) = BaseDescriptor::read(buf, 0, 0).unwrap();
    assert_eq!(expected, desc.size);
    assert_eq!(end, buf.len());
    assert_eq!(desc.read_size as usize, buf.len());
}

#[test]
fn desc_size() {
    let mut buf: Vec<u8> = Vec::new();
    // Every value through the one- and two-byte ranges and into the
    // three-byte range, then the remaining range boundaries.
    for expected in 1..0x4_4000u32 {
        desc_size_case(&mut buf, expected);
    }
    for expected in [
        0x1F_FFFEu32,
        0x1F_FFFF,
        0x20_0000,
        0x20_0001,
        0x0FFF_FFFE,
        MAX_DESC_SIZE,
    ] {
        desc_size_case(&mut buf, expected);
    }
}

#[test]
fn size_of_length_boundaries() {
    assert_eq!(size_of_length(0), 1);
    assert_eq!(size_of_length(0x7F), 1);
    assert_eq!(size_of_length(0x80), 2);
    assert_eq!(size_of_length(0x3FFF), 2);
    assert_eq!(size_of_length(0x4000), 3);
    assert_eq!(size_of_length(0x1F_FFFF), 3);
    assert_eq!(size_of_length(0x20_0000), 4);
    assert_eq!(size_of_length(MAX_DESC_SIZE), 4);
}

#[test]
fn desc_header_exact_bytes() {
    // A body of 0x7F takes one size byte; 0x80 takes two, with the
    // continuation bit on the first.
    let mut buf: Vec<u8> = Vec::new();
    let desc = BaseDescriptor::new(0x3);
    desc.write(&mut buf, 1 + 1 + 0x7F);
    assert_eq!(buf, vec![0x03, 0x7F]);
    buf.clear();
    desc.write(&mut buf, 1 + 2 + 0x80);
    assert_eq!(buf, vec![0x03, 0x81, 0x00]);
    buf.clear();
    desc.write(&mut buf, 1 + 2 + 0x3FFF);
    assert_eq!(buf, vec![0x03, 0xFF, 0x7F]);
    buf.clear();
    desc.write(&mut buf, 1 + 4 + MAX_DESC_SIZE as u64);
    assert_eq!(buf, vec![0x03, 0xFF, 0xFF, 0xFF, 0x7F]);
}

#[test]
fn desc_read_rejects_wrong_tag() {
    let buf: Vec<u8> = vec![0x04, 0x02, 0xAA, 0xBB];
    match BaseDescriptor::read(&buf, 0, 0x3) {
        Err(Mp4BoxError::UnexpectedTag(expected, actual)) => {
            assert_eq!(expected, 0x3);
            assert_eq!(actual, 0x4);
        }
        other => panic!("expected a tag mismatch, got {:?}", other),
    }
}

#[test]
fn desc_read_truncated() {
    // The continuation bit promises another size byte that never comes.
    let buf: Vec<u8> = vec![0x03, 0x81];
    match BaseDescriptor::read(&buf, 0, 0x3) {
        Err(Mp4BoxError::Truncated) => {}
        other => panic!("expected truncation, got {:?}", other),
    }
    let empty: Vec<u8> = Vec::new();
    match BaseDescriptor::read(&empty, 0, 0x3) {
        Err(Mp4BoxError::Truncated) => {}
        other => panic!("expected truncation, got {:?}", other),
    }
}

#[test]
fn desc_peek_matches_read_and_does_not_consume() {
    let buf: Vec<u8> = vec![0x05, 0x82, 0x01, 0xFF];
    let peeked = BaseDescriptor::peek(&buf, 0).unwrap();
    assert_eq!(peeked.tag, 0x05);
    assert_eq!(peeked.size, 0x101);
    assert_eq!(peeked.read_size, 0);
    let (read, end) = BaseDescriptor::read(&buf, 0, 0x05).unwrap();
    assert_eq!(read.tag, peeked.tag);
    assert_eq!(read.size, peeked.size);
    assert_eq!(read.read_size, 3);
    assert_eq!(end, 3);
    assert_eq!(read.remaining_size(), 0x101);
}
