//! Container boxes: declared sizes against bytes actually written, and the
//! movie-extends tree's write and read paths.

use mp4box::mehd::MovieExtendsHeaderBox;
use mp4box::mfhd::MovieFragmentHeaderBox;
use mp4box::moof::MovieFragmentBox;
use mp4box::mvex::MovieExtendsBox;
use mp4box::tfdt::TrackFragmentBaseMediaDecodeTimeBox;
use mp4box::tfhd::TrackFragmentHeaderBox;
use mp4box::traf::TrackFragmentBox;
use mp4box::trex::TrackExtendsBox;
use mp4box::trun::TrackFragmentRunBox;
use mp4box::Mp4BoxError;

fn sample_trun(payload_len: usize) -> TrackFragmentRunBox {
    let len = 8 + payload_len;
    let mut data: Vec<u8> = Vec::new();
    data.extend_from_slice(&(len as u32).to_be_bytes());
    data.extend_from_slice(b"trun");
    data.extend_from_slice(&vec![0xAB; payload_len]);
    TrackFragmentRunBox::new(data).unwrap()
}

fn sample_tfhd() -> TrackFragmentHeaderBox {
    TrackFragmentHeaderBox::new(1, None, Some(1), Some(1024), None, None, false, true)
}

#[test]
fn trun_framing_checked() {
    // Too short for a header.
    assert!(matches!(
        TrackFragmentRunBox::new(vec![0, 0, 0, 4]),
        Err(Mp4BoxError::Truncated)
    ));
    // Wrong type code.
    let mut data: Vec<u8> = Vec::new();
    data.extend_from_slice(&8u32.to_be_bytes());
    data.extend_from_slice(b"trex");
    match TrackFragmentRunBox::new(data) {
        Err(Mp4BoxError::UnexpectedBoxType(expected, actual)) => {
            assert_eq!(expected, u32::from_be_bytes(*b"trun"));
            assert_eq!(actual, u32::from_be_bytes(*b"trex"));
        }
        other => panic!("expected a type mismatch, got {:?}", other),
    }
    // Declared size disagrees with the length.
    let mut data: Vec<u8> = Vec::new();
    data.extend_from_slice(&9u32.to_be_bytes());
    data.extend_from_slice(b"trun");
    assert!(matches!(
        TrackFragmentRunBox::new(data),
        Err(Mp4BoxError::Truncated)
    ));
    // A well-framed box is accepted.
    let run = sample_trun(4);
    assert_eq!(run.total_size(), 12);
}

#[test]
fn traf_size_matches_written_bytes() {
    let traf = TrackFragmentBox::new(
        sample_tfhd(),
        vec![sample_trun(4), sample_trun(0), sample_trun(9)],
        Some(TrackFragmentBaseMediaDecodeTimeBox::new(90000)),
    );
    let total = traf.total_size();
    let mut buf: Vec<u8> = Vec::new();
    traf.write(&mut buf);
    assert_eq!(buf.len() as u64, total);
    // The declared size in the header equals the bytes written.
    assert_eq!(u32::from_be_bytes([buf[0], buf[1], buf[2], buf[3]]) as usize, buf.len());
    assert_eq!(&buf[4..8], b"traf");
}

#[test]
fn traf_without_optional_children() {
    let traf = TrackFragmentBox::new(sample_tfhd(), Vec::new(), None);
    let total = traf.total_size();
    let mut buf: Vec<u8> = Vec::new();
    traf.write(&mut buf);
    assert_eq!(buf.len() as u64, total);
    // Header plus the tfhd alone.
    assert_eq!(buf.len(), 8 + 24);
}

#[test]
fn moof_size_matches_written_bytes() {
    let traf = TrackFragmentBox::new(
        sample_tfhd(),
        vec![sample_trun(7)],
        Some(TrackFragmentBaseMediaDecodeTimeBox::new(12345)),
    );
    let moof = MovieFragmentBox::new(MovieFragmentHeaderBox::new(3), traf);
    let total = moof.total_size();
    let mut buf: Vec<u8> = Vec::new();
    moof.write(&mut buf);
    assert_eq!(buf.len() as u64, total);
    assert_eq!(u32::from_be_bytes([buf[0], buf[1], buf[2], buf[3]]) as usize, buf.len());
    assert_eq!(&buf[4..8], b"moof");
    // The children follow in spec order: mfhd first, then traf.
    assert_eq!(&buf[12..16], b"mfhd");
}

#[test]
fn mvex_roundtrip() {
    let mehd = MovieExtendsHeaderBox::new(0x1_0000_0001);
    let trexs = vec![
        TrackExtendsBox::new(1, 1, 1024, 0, 0x0101_0000),
        TrackExtendsBox::new(2, 1, 512, 44, 0),
    ];
    let mvex = MovieExtendsBox::new(mehd, trexs);
    let total = mvex.total_size();
    let mut buf: Vec<u8> = Vec::new();
    mvex.write(&mut buf);
    assert_eq!(buf.len() as u64, total);
    assert_eq!(buf.len(), 8 + 20 + 32 + 32);
    let (parsed, end) = MovieExtendsBox::read(&buf, 0).unwrap();
    assert_eq!(end, buf.len());
    assert_eq!(parsed.mehd.fragment_duration, 0x1_0000_0001);
    assert_eq!(parsed.trexs.len(), 2);
    assert_eq!(parsed.trexs[0].track_id, 1);
    assert_eq!(parsed.trexs[0].default_sample_duration, 1024);
    assert_eq!(parsed.trexs[0].default_sample_flags, 0x0101_0000);
    assert_eq!(parsed.trexs[1].track_id, 2);
    assert_eq!(parsed.trexs[1].default_sample_size, 44);
}

#[test]
fn mvex_roundtrip_without_trexs() {
    let mvex = MovieExtendsBox::new(MovieExtendsHeaderBox::new(500), Vec::new());
    let mut buf: Vec<u8> = Vec::new();
    mvex.write(&mut buf);
    let (parsed, end) = MovieExtendsBox::read(&buf, 0).unwrap();
    assert_eq!(end, buf.len());
    assert_eq!(parsed.mehd.fragment_duration, 500);
    assert_eq!(parsed.trexs.len(), 0);
}

#[test]
fn mvex_read_rejects_wrong_type() {
    let moof = {
        let traf = TrackFragmentBox::new(sample_tfhd(), Vec::new(), None);
        MovieFragmentBox::new(MovieFragmentHeaderBox::new(1), traf)
    };
    let mut buf: Vec<u8> = Vec::new();
    moof.write(&mut buf);
    match MovieExtendsBox::read(&buf, 0) {
        Err(Mp4BoxError::UnexpectedBoxType(expected, actual)) => {
            assert_eq!(expected, u32::from_be_bytes(*b"mvex"));
            assert_eq!(actual, u32::from_be_bytes(*b"moof"));
        }
        other => panic!("expected a type mismatch, got {:?}", other),
    }
}

#[test]
fn mehd_version_zero_widened() {
    let mut buf: Vec<u8> = Vec::new();
    buf.extend_from_slice(&16u32.to_be_bytes());
    buf.extend_from_slice(b"mehd");
    buf.extend_from_slice(&[0, 0, 0, 0]);
    buf.extend_from_slice(&7000u32.to_be_bytes());
    let (parsed, end) = MovieExtendsHeaderBox::read(&buf, 0).unwrap();
    assert_eq!(parsed.fragment_duration, 7000);
    assert_eq!(end, 16);
}

#[test]
fn mehd_unsupported_version_rejected() {
    let mut buf: Vec<u8> = Vec::new();
    buf.extend_from_slice(&16u32.to_be_bytes());
    buf.extend_from_slice(b"mehd");
    buf.extend_from_slice(&[2, 0, 0, 0]);
    buf.extend_from_slice(&7000u32.to_be_bytes());
    assert!(matches!(
        MovieExtendsHeaderBox::read(&buf, 0),
        Err(Mp4BoxError::UnsupportedVersion(2))
    ));
}

#[test]
fn tfdt_version_zero_rejected() {
    let mut buf: Vec<u8> = Vec::new();
    buf.extend_from_slice(&16u32.to_be_bytes());
    buf.extend_from_slice(b"tfdt");
    buf.extend_from_slice(&[0, 0, 0, 0]);
    buf.extend_from_slice(&100u32.to_be_bytes());
    assert!(matches!(
        TrackFragmentBaseMediaDecodeTimeBox::read(&buf, 0),
        Err(Mp4BoxError::UnsupportedVersion(0))
    ));
}
