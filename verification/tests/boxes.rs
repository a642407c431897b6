//! The tfhd wire scenario, type mismatch rejection, and the audio sample
//! entry tree.

use mp4box::boks::FullBox;
use mp4box::chnl::{ChannelLayout, CHNL_NAME};
use mp4box::esds::{DecoderConfigDescriptor, DecoderSpecificInfo, EsDescriptor, EsdBox};
use mp4box::mfhd::MovieFragmentHeaderBox;
use mp4box::mp4a::Mpeg4AudioSampleEntryBox;
use mp4box::tfhd::TrackFragmentHeaderBox;
use mp4box::Mp4BoxError;

#[test]
fn tfhd_concrete_scenario() {
    let b = TrackFragmentHeaderBox::new(
        7,
        None,
        Some(1),
        Some(1024),
        None,
        Some(0x0200_0000),
        false,
        true,
    );
    assert_eq!(
        b.flags_from_fields(),
        0x000002 | 0x000008 | 0x000020 | 0x020000
    );
    // Twelve header bytes plus the four present 32-bit fields.
    assert_eq!(b.total_size(), 28);
    let mut buf: Vec<u8> = Vec::new();
    b.write(&mut buf);
    assert_eq!(buf.len(), 28);
    assert_eq!(u32::from_be_bytes([buf[0], buf[1], buf[2], buf[3]]), 28);
    assert_eq!(&buf[4..8], b"tfhd");
    assert_eq!(buf[8], 0);
    assert_eq!(&buf[9..12], &[0x02, 0x00, 0x2A]);
    assert_eq!(
        &buf[12..28],
        &[
            0x00, 0x00, 0x00, 0x07, 0x00, 0x00, 0x00, 0x01, 0x00, 0x00, 0x04, 0x00, 0x02, 0x00,
            0x00, 0x00,
        ]
    );
}

#[test]
fn mfhd_reader_rejects_tfhd_bytes() {
    let b = TrackFragmentHeaderBox::new(7, None, None, None, None, None, false, false);
    let mut buf: Vec<u8> = Vec::new();
    b.write(&mut buf);
    match MovieFragmentHeaderBox::read(&buf, 0) {
        Err(Mp4BoxError::UnexpectedBoxType(expected, actual)) => {
            assert_eq!(expected, u32::from_be_bytes(*b"mfhd"));
            assert_eq!(actual, u32::from_be_bytes(*b"tfhd"));
        }
        other => panic!("expected a type mismatch, got {:?}", other),
    }
}

#[test]
fn mfhd_reader_rejects_truncation() {
    let b = MovieFragmentHeaderBox::new(1);
    let mut buf: Vec<u8> = Vec::new();
    b.write(&mut buf);
    buf.truncate(14);
    assert!(matches!(
        MovieFragmentHeaderBox::read(&buf, 0),
        Err(Mp4BoxError::Truncated)
    ));
}

fn sample_esds(with_dsi: bool) -> EsdBox {
    let dsi = if with_dsi {
        Some(DecoderSpecificInfo::new(vec![0x12, 0x10]))
    } else {
        None
    };
    let dcd = DecoderConfigDescriptor::new(0x40, dsi);
    EsdBox::new(EsDescriptor::new(1, dcd))
}

#[test]
fn esds_total_sizes() {
    // Payload 2 gives: decoder-specific 4, decoder config 13 + 4 + 2 header,
    // SL config 3, ES descriptor 2 + 1 + 19 + 3 body + 2 header, esds box 12
    // more.
    let esds = sample_esds(true);
    assert_eq!(esds.descriptor.decoder_descriptor.total_size(), 19);
    assert_eq!(esds.descriptor.total_size(), 27);
    assert_eq!(esds.total_size(), 39);
}

#[test]
fn esds_roundtrip_with_decoder_specific() {
    let esds = sample_esds(true);
    let total = esds.total_size();
    let mut buf: Vec<u8> = Vec::new();
    esds.write(&mut buf);
    assert_eq!(buf.len() as u64, total);
    let (parsed, end) = EsdBox::read(&buf, 0).unwrap();
    assert_eq!(end, buf.len());
    assert_eq!(parsed.descriptor.es_id, 1);
    let dcd = &parsed.descriptor.decoder_descriptor;
    assert_eq!(dcd.object_type_indication, 0x40);
    assert_eq!(dcd.buffer_size_db, 0);
    assert_eq!(dcd.max_bitrate, 0);
    assert_eq!(dcd.avg_bitrate, 0);
    let dsi = dcd.decoder_specific.as_ref().unwrap();
    assert_eq!(dsi.decoder_specific, vec![0x12, 0x10]);
}

#[test]
fn esds_roundtrip_without_decoder_specific() {
    let esds = sample_esds(false);
    let mut buf: Vec<u8> = Vec::new();
    esds.write(&mut buf);
    let (parsed, end) = EsdBox::read(&buf, 0).unwrap();
    assert_eq!(end, buf.len());
    assert!(parsed.descriptor.decoder_descriptor.decoder_specific.is_none());
}

#[test]
fn esds_reader_rejects_wrong_descriptor_tag() {
    let esds = sample_esds(true);
    let mut buf: Vec<u8> = Vec::new();
    esds.write(&mut buf);
    // Corrupt the ES descriptor tag that follows the full-box header.
    buf[12] = 0x04;
    match EsdBox::read(&buf, 0) {
        Err(Mp4BoxError::UnexpectedTag(expected, actual)) => {
            assert_eq!(expected, 0x03);
            assert_eq!(actual, 0x04);
        }
        other => panic!("expected a tag mismatch, got {:?}", other),
    }
}

#[test]
fn mp4a_roundtrip() {
    let mp4a = Mpeg4AudioSampleEntryBox::new(2, 16, 44100, sample_esds(true));
    let total = mp4a.total_size();
    let mut buf: Vec<u8> = Vec::new();
    mp4a.write(&mut buf);
    assert_eq!(buf.len() as u64, total);
    assert_eq!(u32::from_be_bytes([buf[0], buf[1], buf[2], buf[3]]) as usize, buf.len());
    assert_eq!(&buf[4..8], b"mp4a");
    let (parsed, end) = Mpeg4AudioSampleEntryBox::read(&buf, 0).unwrap();
    assert_eq!(end, buf.len());
    assert_eq!(parsed.audio_sample_entry.version, 1);
    assert_eq!(parsed.audio_sample_entry.channel_count, 2);
    assert_eq!(parsed.audio_sample_entry.sample_size, 16);
    assert_eq!(parsed.audio_sample_entry.sample_rate, 44100);
    assert_eq!(parsed.esds.descriptor.es_id, 1);
}

#[test]
fn chnl_roundtrip() {
    let b = ChannelLayout::new();
    assert_eq!(b.total_size(), 13);
    let mut buf: Vec<u8> = Vec::new();
    b.write(&mut buf);
    assert_eq!(buf.len(), 13);
    let (parsed, end) = ChannelLayout::read(&buf, 0).unwrap();
    assert_eq!(parsed.stream_structure, 0);
    assert_eq!(end, 13);
    // A non-zero stream structure survives the round trip too.
    let custom = ChannelLayout { full_box: FullBox::new(CHNL_NAME, 0, 0), stream_structure: 3 };
    let mut buf: Vec<u8> = Vec::new();
    custom.write(&mut buf);
    let (parsed, _) = ChannelLayout::read(&buf, 0).unwrap();
    assert_eq!(parsed.stream_structure, 3);
}

#[test]
fn chnl_skips_trailing_body_bytes() {
    // A box longer than the modeled body: the reader lands on the declared
    // end.
    let mut buf: Vec<u8> = Vec::new();
    buf.extend_from_slice(&16u32.to_be_bytes());
    buf.extend_from_slice(b"chnl");
    buf.extend_from_slice(&[0, 0, 0, 0]);
    buf.extend_from_slice(&[9, 0xAA, 0xBB, 0xCC]);
    let (parsed, end) = ChannelLayout::read(&buf, 0).unwrap();
    assert_eq!(parsed.stream_structure, 9);
    assert_eq!(end, 16);
}
