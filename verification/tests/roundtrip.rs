//! Write-then-read round trips for the fixed-layout fragment boxes.

use mp4box::mfhd::MovieFragmentHeaderBox;
use mp4box::tfdt::TrackFragmentBaseMediaDecodeTimeBox;
use mp4box::tfhd::TrackFragmentHeaderBox;

#[test]
fn mfhd_roundtrip() {
    let b = MovieFragmentHeaderBox::new(42);
    assert_eq!(b.total_size(), 16);
    let mut buf: Vec<u8> = Vec::new();
    b.write(&mut buf);
    assert_eq!(buf.len(), 16);
    let (parsed, end) = MovieFragmentHeaderBox::read(&buf, 0).unwrap();
    assert_eq!(parsed.sequence_number, 42);
    assert_eq!(end, 16);
}

#[test]
fn mfhd_roundtrip_extremes() {
    for v in [0u32, 1, 0x7FFF_FFFF, u32::MAX] {
        let b = MovieFragmentHeaderBox::new(v);
        let mut buf: Vec<u8> = Vec::new();
        b.write(&mut buf);
        let (parsed, _) = MovieFragmentHeaderBox::read(&buf, 0).unwrap();
        assert_eq!(parsed.sequence_number, v);
    }
}

#[test]
fn mfhd_wire_bytes() {
    let b = MovieFragmentHeaderBox::new(1);
    let mut buf: Vec<u8> = Vec::new();
    b.write(&mut buf);
    assert_eq!(
        buf,
        vec![
            0x00, 0x00, 0x00, 0x10, b'm', b'f', b'h', b'd', 0x00, 0x00, 0x00, 0x00, 0x00, 0x00,
            0x00, 0x01,
        ]
    );
}

#[test]
fn tfdt_roundtrip() {
    let b = TrackFragmentBaseMediaDecodeTimeBox::new(0x0123_4567_89AB_CDEF);
    assert_eq!(b.total_size(), 20);
    let mut buf: Vec<u8> = Vec::new();
    b.write(&mut buf);
    assert_eq!(buf.len(), 20);
    let (parsed, end) = TrackFragmentBaseMediaDecodeTimeBox::read(&buf, 0).unwrap();
    assert_eq!(parsed.base_media_decode_time, 0x0123_4567_89AB_CDEF);
    assert_eq!(end, 20);
}

#[test]
fn tfdt_roundtrip_extremes() {
    for v in [0u64, 1, u64::MAX] {
        let b = TrackFragmentBaseMediaDecodeTimeBox::new(v);
        let mut buf: Vec<u8> = Vec::new();
        b.write(&mut buf);
        let (parsed, _) = TrackFragmentBaseMediaDecodeTimeBox::read(&buf, 0).unwrap();
        assert_eq!(parsed.base_media_decode_time, v);
    }
}

#[test]
fn tfhd_roundtrip_fully_populated() {
    let b = TrackFragmentHeaderBox::new(
        9,
        Some(0x1122_3344_5566_7788),
        Some(2),
        Some(1024),
        Some(4096),
        Some(0x0200_0000),
        true,
        true,
    );
    assert_eq!(b.total_size(), 40);
    let mut buf: Vec<u8> = Vec::new();
    b.write(&mut buf);
    assert_eq!(buf.len(), 40);
    let (parsed, end) = TrackFragmentHeaderBox::read(&buf, 0).unwrap();
    assert_eq!(parsed.track_id, 9);
    assert_eq!(parsed.base_data_offset, Some(0x1122_3344_5566_7788));
    assert_eq!(parsed.sample_description_index, Some(2));
    assert_eq!(parsed.default_sample_duration, Some(1024));
    assert_eq!(parsed.default_sample_size, Some(4096));
    assert_eq!(parsed.default_sample_flags, Some(0x0200_0000));
    assert!(parsed.duration_is_empty);
    assert!(parsed.default_base_is_moof);
    assert_eq!(end, 40);
}

#[test]
fn tfhd_roundtrip_all_presence_combinations() {
    for mask in 0u32..128 {
        let base_data_offset = if mask & 1 != 0 { Some(0xAABB_CCDD_EEFF_0011) } else { None };
        let sample_description_index = if mask & 2 != 0 { Some(7) } else { None };
        let default_sample_duration = if mask & 4 != 0 { Some(512) } else { None };
        let default_sample_size = if mask & 8 != 0 { Some(333) } else { None };
        let default_sample_flags = if mask & 16 != 0 { Some(0x0101_0101) } else { None };
        let duration_is_empty = mask & 32 != 0;
        let default_base_is_moof = mask & 64 != 0;
        let b = TrackFragmentHeaderBox::new(
            5,
            base_data_offset,
            sample_description_index,
            default_sample_duration,
            default_sample_size,
            default_sample_flags,
            duration_is_empty,
            default_base_is_moof,
        );
        let expected_flags = (if mask & 1 != 0 { 0x000001 } else { 0 })
            + (if mask & 2 != 0 { 0x000002 } else { 0 })
            + (if mask & 4 != 0 { 0x000008 } else { 0 })
            + (if mask & 8 != 0 { 0x000010 } else { 0 })
            + (if mask & 16 != 0 { 0x000020 } else { 0 })
            + (if mask & 32 != 0 { 0x010000 } else { 0 })
            + (if mask & 64 != 0 { 0x020000 } else { 0 });
        assert_eq!(b.flags_from_fields(), expected_flags);
        let expected_len = 12
            + 4
            + (if mask & 1 != 0 { 8 } else { 0 })
            + (if mask & 2 != 0 { 4 } else { 0 })
            + (if mask & 4 != 0 { 4 } else { 0 })
            + (if mask & 8 != 0 { 4 } else { 0 })
            + (if mask & 16 != 0 { 4 } else { 0 });
        assert_eq!(b.total_size(), expected_len as u64);
        let mut buf: Vec<u8> = Vec::new();
        b.write(&mut buf);
        assert_eq!(buf.len(), expected_len);
        // The flag bytes sit in the low 24 bits of the full-box header.
        let wire_flags = ((buf[9] as u32) << 16) | ((buf[10] as u32) << 8) | (buf[11] as u32);
        assert_eq!(wire_flags, expected_flags);
        let (parsed, end) = TrackFragmentHeaderBox::read(&buf, 0).unwrap();
        assert_eq!(parsed.track_id, 5);
        assert_eq!(parsed.base_data_offset, base_data_offset);
        assert_eq!(parsed.sample_description_index, sample_description_index);
        assert_eq!(parsed.default_sample_duration, default_sample_duration);
        assert_eq!(parsed.default_sample_size, default_sample_size);
        assert_eq!(parsed.default_sample_flags, default_sample_flags);
        assert_eq!(parsed.duration_is_empty, duration_is_empty);
        assert_eq!(parsed.default_base_is_moof, default_base_is_moof);
        assert_eq!(end, expected_len);
    }
}
