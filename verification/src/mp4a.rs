//! The MPEG-4 audio sample entry box (`mp4a`): a generic audio sample entry
//! header followed by one `esds` box.

use vstd::prelude::*;

use crate::Mp4BoxError;
use crate::parse_result;
use crate::boks::{spec_boks_bytes, Boks, FullBox};
use crate::bytes::{
    parse_u16, parse_u32, push_u16, push_u32, push_u8, read_u16, read_u32, skip_bytes, spec_skip,
    spec_u16_to_be, spec_u32_to_be,
};
use crate::esds::{esd_matches, EsParts, EsdBox};
use vstd::seq_lib::lemma_concat_associative;

verus! {

/// The `mp4a` type code.
pub const MP4A_NAME: u32 = 0x6D70_3461;

/// The generic audio sample entry header: six reserved bytes and a data
/// reference index, then version, channel count, sample size and sample
/// rate, padded to the fixed 36-byte layout.
#[derive(Debug, Clone, Copy, PartialEq, Eq, Structural)]
pub struct AudioSampleEntry {
    /// The sample entry's four-character code.
    pub name: u32,
    /// The entry version.
    pub version: u16,
    /// The number of channels.
    pub channel_count: u16,
    /// Bits per sample.
    pub sample_size: u16,
    /// Samples per second; stored on the wire as the integral part of a
    /// 16.16 fixed-point value, so it must fit in sixteen bits.
    pub sample_rate: u32,
}

/// The 36 header bytes of an audio sample entry box whose total size —
/// header and children together — is `total`.
pub open spec fn spec_entry_bytes(e: AudioSampleEntry, total: int) -> Seq<u8> {
    spec_boks_bytes(e.name, total) + seq![0u8, 0u8, 0u8, 0u8, 0u8, 0u8] + spec_u16_to_be(1)
        + spec_u16_to_be(e.version) + seq![0u8, 0u8, 0u8, 0u8, 0u8, 0u8] + spec_u16_to_be(
        e.channel_count,
    ) + spec_u16_to_be(e.sample_size) + spec_u16_to_be(0) + spec_u16_to_be(0) + spec_u32_to_be(
        (e.sample_rate << 16) as u32,
    )
}

impl AudioSampleEntry {
    /// The sample rate fits the sixteen integral bits the wire gives it.
    pub open spec fn wf(self) -> bool {
        self.sample_rate <= 0xFFFF
    }

    /// An entry for the given fields.
    pub fn new(name: u32, version: u16, channel_count: u16, sample_size: u16, sample_rate: u32) -> (r:
        Self)
        requires
            sample_rate <= 0xFFFF,
        ensures
            r == (AudioSampleEntry { name, version, channel_count, sample_size, sample_rate }),
            r.wf(),
    {
        AudioSampleEntry { name, version, channel_count, sample_size, sample_rate }
    }

    /// Emits the 36 header bytes, with the caller-computed total size of the
    /// whole sample entry box.
    pub fn write(&self, out: &mut Vec<u8>, size: u64)
        requires
            size <= u32::MAX,
        ensures
            final(out)@ == old(out)@ + spec_entry_bytes(*self, size as int),
    {
        let boks = Boks::new(self.name);
        boks.write(out, size);
        push_u8(out, 0);
        push_u8(out, 0);
        push_u8(out, 0);
        push_u8(out, 0);
        push_u8(out, 0);
        push_u8(out, 0);
        push_u16(out, 1);
        push_u16(out, self.version);
        push_u8(out, 0);
        push_u8(out, 0);
        push_u8(out, 0);
        push_u8(out, 0);
        push_u8(out, 0);
        push_u8(out, 0);
        push_u16(out, self.channel_count);
        push_u16(out, self.sample_size);
        push_u16(out, 0);
        push_u16(out, 0);
        push_u32(out, self.sample_rate << 16);
        proof {
            assert(out@ =~= old(out)@ + spec_entry_bytes(*self, size as int));
        }
    }

    /// The total size of a sample entry whose children occupy `body` bytes.
    pub fn size(&self, body: u64) -> (r: u64)
        requires
            body + 36 <= u64::MAX,
        ensures
            r == body + 36,
    {
        36 + body
    }

    /// What reading an audio sample entry header at `pos` yields.  The type
    /// code is not constrained: the dispatcher has already matched it.  The
    /// position ends right after the fixed header, where the children start.
    pub open spec fn parse(s: Seq<u8>, pos: int) -> Result<(AudioSampleEntry, int), Mp4BoxError> {
        match Boks::parse_any(s, pos) {
            Err(e) => Err(e),
            Ok((boks, p1)) => match spec_skip(s, p1, 6) {
                Err(e) => Err(e),
                Ok(p2) => match parse_u16(s, p2) {
                    Err(e) => Err(e),
                    Ok((_data_reference_index, p3)) => match parse_u16(s, p3) {
                        Err(e) => Err(e),
                        Ok((version, p4)) => match spec_skip(s, p4, 6) {
                            Err(e) => Err(e),
                            Ok(p5) => match parse_u16(s, p5) {
                                Err(e) => Err(e),
                                Ok((channel_count, p6)) => match parse_u16(s, p6) {
                                    Err(e) => Err(e),
                                    Ok((sample_size, p7)) => match spec_skip(s, p7, 4) {
                                        Err(e) => Err(e),
                                        Ok(p8) => match parse_u32(s, p8) {
                                            Err(e) => Err(e),
                                            Ok((raw_rate, p9)) => Ok(
                                                (
                                                    AudioSampleEntry {
                                                        name: boks.name,
                                                        version,
                                                        channel_count,
                                                        sample_size,
                                                        sample_rate: raw_rate >> 16,
                                                    },
                                                    p9,
                                                ),
                                            ),
                                        },
                                    },
                                },
                            },
                        },
                    },
                },
            },
        }
    }

    /// Reads an audio sample entry header.
    pub fn read(data: &Vec<u8>, pos: usize) -> (r: Result<(AudioSampleEntry, usize), Mp4BoxError>)
        ensures
            parse_result(r) == Self::parse(data@, pos as int),
    {
        let (boks, p1) = match Boks::read(data, pos) {
            Ok(x) => x,
            Err(e) => {
                return Err(e);
            },
        };
        let p2 = match skip_bytes(data, p1, 6) {
            Ok(x) => x,
            Err(e) => {
                return Err(e);
            },
        };
        let (_data_reference_index, p3) = match read_u16(data, p2) {
            Ok(x) => x,
            Err(e) => {
                return Err(e);
            },
        };
        let (version, p4) = match read_u16(data, p3) {
            Ok(x) => x,
            Err(e) => {
                return Err(e);
            },
        };
        let p5 = match skip_bytes(data, p4, 6) {
            Ok(x) => x,
            Err(e) => {
                return Err(e);
            },
        };
        let (channel_count, p6) = match read_u16(data, p5) {
            Ok(x) => x,
            Err(e) => {
                return Err(e);
            },
        };
        let (sample_size, p7) = match read_u16(data, p6) {
            Ok(x) => x,
            Err(e) => {
                return Err(e);
            },
        };
        let p8 = match skip_bytes(data, p7, 4) {
            Ok(x) => x,
            Err(e) => {
                return Err(e);
            },
        };
        let (raw_rate, p9) = match read_u32(data, p8) {
            Ok(x) => x,
            Err(e) => {
                return Err(e);
            },
        };
        Ok(
            (
                AudioSampleEntry {
                    name: boks.name,
                    version,
                    channel_count,
                    sample_size,
                    sample_rate: raw_rate >> 16,
                },
                p9,
            ),
        )
    }
}

/// The MPEG-4 audio sample entry box.
#[derive(Debug)]
pub struct Mpeg4AudioSampleEntryBox {
    /// The generic audio sample entry header.
    pub audio_sample_entry: AudioSampleEntry,
    /// The elementary stream descriptor box.
    pub esds: EsdBox,
}

impl Mpeg4AudioSampleEntryBox {
    /// A built box carries the `mp4a` type code and well-formed parts.
    pub open spec fn wf(self) -> bool {
        &&& self.audio_sample_entry.name == MP4A_NAME
        &&& self.audio_sample_entry.wf()
        &&& self.esds.wf()
    }

    /// The exact bytes this box serializes to: the 36 header bytes, then the
    /// `esds` box.
    pub open spec fn spec_bytes(self) -> Seq<u8> {
        spec_entry_bytes(self.audio_sample_entry, 36 + self.esds.spec_bytes().len() as int)
            + self.esds.spec_bytes()
    }

    /// A box for the given audio parameters and descriptor box.  The entry
    /// is version 1, and the sample rate must fit its sixteen wire bits.
    pub fn new(channel_count: u16, sample_size: u16, sample_rate: u32, esds: EsdBox) -> (r: Self)
        requires
            sample_rate <= 0xFFFF,
            esds.wf(),
        ensures
            r.wf(),
            r.audio_sample_entry == (AudioSampleEntry {
                name: MP4A_NAME,
                version: 1,
                channel_count,
                sample_size,
                sample_rate,
            }),
            r.esds == esds,
    {
        Mpeg4AudioSampleEntryBox {
            audio_sample_entry: AudioSampleEntry::new(
                MP4A_NAME,
                1,
                channel_count,
                sample_size,
                sample_rate,
            ),
            esds,
        }
    }

    /// Appends exactly the serialized bytes of this box.
    pub fn write(self, out: &mut Vec<u8>)
        requires
            self.wf(),
        ensures
            final(out)@ == old(out)@ + self.spec_bytes(),
    {
        let total = self.total_size();
        self.audio_sample_entry.write(out, total);
        self.esds.write(out);
        proof {
            lemma_concat_associative(
                old(out)@,
                spec_entry_bytes(
                    self.audio_sample_entry,
                    36 + self.esds.spec_bytes().len() as int,
                ),
                self.esds.spec_bytes(),
            );
        }
    }

    /// The number of bytes `write` appends.
    pub fn total_size(&self) -> (r: u64)
        requires
            self.wf(),
        ensures
            r == self.spec_bytes().len(),
    {
        self.audio_sample_entry.size(self.size())
    }

    /// The body size: the `esds` box's total size.
    fn size(&self) -> (r: u64)
        requires
            self.wf(),
        ensures
            r == self.esds.spec_bytes().len(),
    {
        self.esds.total_size()
    }

    /// What reading an `mp4a` sample entry at `pos` yields: the fixed audio
    /// header, then the `esds` box.
    pub open spec fn parse(s: Seq<u8>, pos: int) -> Result<
        (AudioSampleEntry, FullBox, EsParts, int),
        Mp4BoxError,
    > {
        match AudioSampleEntry::parse(s, pos) {
            Err(e) => Err(e),
            Ok((entry, p1)) => match EsdBox::parse(s, p1) {
                Err(e) => Err(e),
                Ok((full_box, parts, p2)) => Ok((entry, full_box, parts, p2)),
            },
        }
    }

    /// Reads an `mp4a` sample entry.
    pub fn read(data: &Vec<u8>, pos: usize) -> (r: Result<
        (Mpeg4AudioSampleEntryBox, usize),
        Mp4BoxError,
    >)
        ensures
            match r {
                Ok((b, end)) => Self::parse(data@, pos as int) matches Ok(q)
                    && b.audio_sample_entry == q.0 && b.esds.full_box == q.1 && esd_matches(
                    b.esds.descriptor,
                    q.2,
                ) && end as int == q.3,
                Err(e) => Self::parse(data@, pos as int) == Err::<
                    (AudioSampleEntry, FullBox, EsParts, int),
                    Mp4BoxError,
                >(e),
            },
    {
        let (audio_sample_entry, p1) = match AudioSampleEntry::read(data, pos) {
            Ok(x) => x,
            Err(e) => {
                return Err(e);
            },
        };
        let (esds, p2) = match EsdBox::read(data, p1) {
            Ok(x) => x,
            Err(e) => {
                return Err(e);
            },
        };
        Ok((Mpeg4AudioSampleEntryBox { audio_sample_entry, esds }, p2))
    }
}

} // verus!
