//! The track fragment header box (`tfhd`): a track id followed by five
//! independently optional fields.  The header's flag word is never stored as
//! an independent input: it is always recomputed from which fields are
//! present and from the two standalone booleans, so flags and fields cannot
//! drift apart.

use vstd::prelude::*;

use crate::Mp4BoxError;
use crate::parse_result;
use crate::boks::{lemma_parse_fullbox_prefix, spec_fullbox_bytes, Boks, FullBox};
use crate::bytes::{
    lemma_u32_roundtrip, lemma_u64_roundtrip, parse_u32, parse_u64, push_bytes, push_u32, push_u64,
    read_u32, read_u64, spec_u32_to_be, spec_u64_to_be,
};
use vstd::seq_lib::lemma_concat_associative;

verus! {

/// The `tfhd` type code.
pub const TFHD_NAME: u32 = 0x7466_6864;

/// Flag bit: a base data offset follows the track id.
pub const BASE_DATA_OFFSET_PRESENT: u32 = 0x000001;

/// Flag bit: a sample description index is present.
pub const SAMPLE_DESCRIPTION_INDEX_PRESENT: u32 = 0x000002;

/// Flag bit: a default sample duration is present.
pub const DEFAULT_SAMPLE_DURATION_PRESENT: u32 = 0x000008;

/// Flag bit: a default sample size is present.
pub const DEFAULT_SAMPLE_SIZE_PRESENT: u32 = 0x000010;

/// Flag bit: default sample flags are present.
pub const DEFAULT_SAMPLE_FLAGS_PRESENT: u32 = 0x000020;

/// Flag bit: the fragment's duration is empty; contributes no body bytes.
pub const DURATION_IS_EMPTY: u32 = 0x010000;

/// Flag bit: offsets are relative to the enclosing `moof`; contributes no
/// body bytes.
pub const DEFAULT_BASE_IS_MOOF: u32 = 0x020000;

/// The track fragment header box.
#[derive(Debug, Clone, Copy)]
pub struct TrackFragmentHeaderBox {
    /// The `tfhd` full-box header, version 0, flags derived from the fields.
    pub full_box: FullBox,
    /// The track this fragment belongs to.
    pub track_id: u32,
    /// Where the fragment's data begins, as an absolute offset.
    pub base_data_offset: Option<u64>,
    /// Which sample description applies to the fragment's samples.
    pub sample_description_index: Option<u32>,
    /// The duration used for samples that carry none of their own.
    pub default_sample_duration: Option<u32>,
    /// The size used for samples that carry none of their own.
    pub default_sample_size: Option<u32>,
    /// The flags used for samples that carry none of their own.
    pub default_sample_flags: Option<u32>,
    /// Marks a fragment with no samples.
    pub duration_is_empty: bool,
    /// Marks offsets as relative to the start of the enclosing `moof`.
    pub default_base_is_moof: bool,
}

/// The bytes of an optional 32-bit field: its big-endian bytes when present,
/// nothing when absent.
pub open spec fn spec_opt_u32_bytes(o: Option<u32>) -> Seq<u8> {
    match o {
        Some(v) => spec_u32_to_be(v),
        None => Seq::empty(),
    }
}

/// The bytes of an optional 64-bit field.
pub open spec fn spec_opt_u64_bytes(o: Option<u64>) -> Seq<u8> {
    match o {
        Some(v) => spec_u64_to_be(v),
        None => Seq::empty(),
    }
}

/// What reading an optional 32-bit field yields: the decoded value when its
/// flag announces it, nothing (and an unmoved position) otherwise.
pub open spec fn parse_opt_u32(s: Seq<u8>, pos: int, present: bool) -> Result<
    (Option<u32>, int),
    Mp4BoxError,
> {
    if present {
        match parse_u32(s, pos) {
            Err(e) => Err(e),
            Ok((v, p)) => Ok((Some(v), p)),
        }
    } else {
        Ok((None, pos))
    }
}

/// What reading an optional 64-bit field yields.
pub open spec fn parse_opt_u64(s: Seq<u8>, pos: int, present: bool) -> Result<
    (Option<u64>, int),
    Mp4BoxError,
> {
    if present {
        match parse_u64(s, pos) {
            Err(e) => Err(e),
            Ok((v, p)) => Ok((Some(v), p)),
        }
    } else {
        Ok((None, pos))
    }
}

/// Reads an optional 32-bit field.
fn read_opt_u32(data: &Vec<u8>, pos: usize, present: bool) -> (r: Result<
    (Option<u32>, usize),
    Mp4BoxError,
>)
    ensures
        parse_result(r) == parse_opt_u32(data@, pos as int, present),
{
    if present {
        match read_u32(data, pos) {
            Err(e) => Err(e),
            Ok((v, p)) => Ok((Some(v), p)),
        }
    } else {
        Ok((None, pos))
    }
}

/// Reads an optional 64-bit field.
fn read_opt_u64(data: &Vec<u8>, pos: usize, present: bool) -> (r: Result<
    (Option<u64>, usize),
    Mp4BoxError,
>)
    ensures
        parse_result(r) == parse_opt_u64(data@, pos as int, present),
{
    if present {
        match read_u64(data, pos) {
            Err(e) => Err(e),
            Ok((v, p)) => Ok((Some(v), p)),
        }
    } else {
        Ok((None, pos))
    }
}

impl TrackFragmentHeaderBox {
    /// The flag word derived from the fields: one bit per present optional
    /// field, at its ISO-defined position, plus the two standalone booleans.
    pub open spec fn spec_flags(self) -> u32 {
        (if self.base_data_offset is Some {
            BASE_DATA_OFFSET_PRESENT
        } else {
            0
        }) | (if self.sample_description_index is Some {
            SAMPLE_DESCRIPTION_INDEX_PRESENT
        } else {
            0
        }) | (if self.default_sample_duration is Some {
            DEFAULT_SAMPLE_DURATION_PRESENT
        } else {
            0
        }) | (if self.default_sample_size is Some {
            DEFAULT_SAMPLE_SIZE_PRESENT
        } else {
            0
        }) | (if self.default_sample_flags is Some {
            DEFAULT_SAMPLE_FLAGS_PRESENT
        } else {
            0
        }) | (if self.duration_is_empty {
            DURATION_IS_EMPTY
        } else {
            0
        }) | (if self.default_base_is_moof {
            DEFAULT_BASE_IS_MOOF
        } else {
            0
        })
    }

    /// A built box carries the `tfhd` type code, version zero, and exactly
    /// the derived flags.
    pub open spec fn wf(self) -> bool {
        &&& self.full_box.boks.name == TFHD_NAME
        &&& self.full_box.version == 0
        &&& self.full_box.flags == self.spec_flags()
    }

    /// The body bytes: the track id, then each present optional field in the
    /// fixed wire order.
    pub open spec fn spec_body(self) -> Seq<u8> {
        spec_u32_to_be(self.track_id) + spec_opt_u64_bytes(self.base_data_offset)
            + spec_opt_u32_bytes(self.sample_description_index) + spec_opt_u32_bytes(
            self.default_sample_duration,
        ) + spec_opt_u32_bytes(self.default_sample_size) + spec_opt_u32_bytes(
            self.default_sample_flags,
        )
    }

    /// The exact bytes this box serializes to.
    pub open spec fn spec_bytes(self) -> Seq<u8> {
        spec_fullbox_bytes(
            self.full_box.boks.name,
            12 + self.spec_body().len() as int,
            self.full_box.version,
            self.full_box.flags,
        ) + self.spec_body()
    }

    /// The derived flag word.
    pub fn flags_from_fields(&self) -> (r: u32)
        ensures
            r == self.spec_flags(),
    {
        (if self.base_data_offset.is_some() {
            BASE_DATA_OFFSET_PRESENT
        } else {
            0
        }) | (if self.sample_description_index.is_some() {
            SAMPLE_DESCRIPTION_INDEX_PRESENT
        } else {
            0
        }) | (if self.default_sample_duration.is_some() {
            DEFAULT_SAMPLE_DURATION_PRESENT
        } else {
            0
        }) | (if self.default_sample_size.is_some() {
            DEFAULT_SAMPLE_SIZE_PRESENT
        } else {
            0
        }) | (if self.default_sample_flags.is_some() {
            DEFAULT_SAMPLE_FLAGS_PRESENT
        } else {
            0
        }) | (if self.duration_is_empty {
            DURATION_IS_EMPTY
        } else {
            0
        }) | (if self.default_base_is_moof {
            DEFAULT_BASE_IS_MOOF
        } else {
            0
        })
    }

    /// A box for the given fields.  The header flags are recomputed from the
    /// fields and never taken as an input.
    pub fn new(
        track_id: u32,
        base_data_offset: Option<u64>,
        sample_description_index: Option<u32>,
        default_sample_duration: Option<u32>,
        default_sample_size: Option<u32>,
        default_sample_flags: Option<u32>,
        duration_is_empty: bool,
        default_base_is_moof: bool,
    ) -> (r: Self)
        ensures
            r.wf(),
            r.track_id == track_id,
            r.base_data_offset == base_data_offset,
            r.sample_description_index == sample_description_index,
            r.default_sample_duration == default_sample_duration,
            r.default_sample_size == default_sample_size,
            r.default_sample_flags == default_sample_flags,
            r.duration_is_empty == duration_is_empty,
            r.default_base_is_moof == default_base_is_moof,
    {
        let mut tfhd = TrackFragmentHeaderBox {
            full_box: FullBox::new(TFHD_NAME, 0, 0),
            track_id,
            base_data_offset,
            sample_description_index,
            default_sample_duration,
            default_sample_size,
            default_sample_flags,
            duration_is_empty,
            default_base_is_moof,
        };
        let flags = tfhd.flags_from_fields();
        tfhd.full_box = FullBox::new(TFHD_NAME, 0, flags);
        tfhd
    }

    /// The body size: four bytes for the track id plus the width of each
    /// present optional field.
    fn size(&self) -> (r: u64)
        ensures
            r == self.spec_body().len(),
    {
        let mut size: u64 = 4;
        if self.base_data_offset.is_some() {
            size = size + 8;
        }
        if self.sample_description_index.is_some() {
            size = size + 4;
        }
        if self.default_sample_duration.is_some() {
            size = size + 4;
        }
        if self.default_sample_size.is_some() {
            size = size + 4;
        }
        if self.default_sample_flags.is_some() {
            size = size + 4;
        }
        size
    }

    /// The number of bytes `write` appends.
    pub fn total_size(&self) -> (r: u64)
        ensures
            r == self.spec_bytes().len(),
    {
        self.full_box.size(self.size())
    }

    /// Appends exactly the serialized bytes of this box.  The body is built
    /// first, so that the header can be emitted with the full size known.
    pub fn write(self, out: &mut Vec<u8>)
        ensures
            final(out)@ == old(out)@ + self.spec_bytes(),
    {
        let total = self.total_size();
        let mut v: Vec<u8> = Vec::new();
        push_u32(&mut v, self.track_id);
        let ghost p1 = spec_u32_to_be(self.track_id);
        proof {
            assert(v@ =~= p1);
        }
        if let Some(base_data_offset) = self.base_data_offset {
            push_u64(&mut v, base_data_offset);
        } else {
            proof {
                assert(p1 + spec_opt_u64_bytes(self.base_data_offset) =~= p1);
            }
        }
        let ghost p2 = p1 + spec_opt_u64_bytes(self.base_data_offset);
        assert(v@ == p2);
        if let Some(sample_description_index) = self.sample_description_index {
            push_u32(&mut v, sample_description_index);
        } else {
            proof {
                assert(p2 + spec_opt_u32_bytes(self.sample_description_index) =~= p2);
            }
        }
        let ghost p3 = p2 + spec_opt_u32_bytes(self.sample_description_index);
        assert(v@ == p3);
        if let Some(default_sample_duration) = self.default_sample_duration {
            push_u32(&mut v, default_sample_duration);
        } else {
            proof {
                assert(p3 + spec_opt_u32_bytes(self.default_sample_duration) =~= p3);
            }
        }
        let ghost p4 = p3 + spec_opt_u32_bytes(self.default_sample_duration);
        assert(v@ == p4);
        if let Some(default_sample_size) = self.default_sample_size {
            push_u32(&mut v, default_sample_size);
        } else {
            proof {
                assert(p4 + spec_opt_u32_bytes(self.default_sample_size) =~= p4);
            }
        }
        let ghost p5 = p4 + spec_opt_u32_bytes(self.default_sample_size);
        assert(v@ == p5);
        if let Some(default_sample_flags) = self.default_sample_flags {
            push_u32(&mut v, default_sample_flags);
        } else {
            proof {
                assert(p5 + spec_opt_u32_bytes(self.default_sample_flags) =~= p5);
            }
        }
        assert(v@ == self.spec_body());
        self.full_box.write(out, total);
        push_bytes(out, &v);
        proof {
            lemma_concat_associative(
                old(out)@,
                spec_fullbox_bytes(
                    self.full_box.boks.name,
                    12 + self.spec_body().len() as int,
                    self.full_box.version,
                    self.full_box.flags,
                ),
                self.spec_body(),
            );
        }
    }

    /// What reading a `tfhd` box at `pos` yields: the track id, then each
    /// optional field whose flag bit is set, in the fixed wire order.  The
    /// declared size must cover everything read and lie within the buffer;
    /// trailing bytes up to the declared size are skipped.
    pub open spec fn parse(s: Seq<u8>, pos: int) -> Result<
        (TrackFragmentHeaderBox, int),
        Mp4BoxError,
    > {
        match FullBox::parse(s, pos, TFHD_NAME) {
            Err(e) => Err(e),
            Ok((full_box, p1)) => match parse_u32(s, p1) {
                Err(e) => Err(e),
                Ok((track_id, p2)) => match parse_opt_u64(
                    s,
                    p2,
                    full_box.flags & BASE_DATA_OFFSET_PRESENT != 0,
                ) {
                    Err(e) => Err(e),
                    Ok((base_data_offset, p3)) => match parse_opt_u32(
                        s,
                        p3,
                        full_box.flags & SAMPLE_DESCRIPTION_INDEX_PRESENT != 0,
                    ) {
                        Err(e) => Err(e),
                        Ok((sample_description_index, p4)) => match parse_opt_u32(
                            s,
                            p4,
                            full_box.flags & DEFAULT_SAMPLE_DURATION_PRESENT != 0,
                        ) {
                            Err(e) => Err(e),
                            Ok((default_sample_duration, p5)) => match parse_opt_u32(
                                s,
                                p5,
                                full_box.flags & DEFAULT_SAMPLE_SIZE_PRESENT != 0,
                            ) {
                                Err(e) => Err(e),
                                Ok((default_sample_size, p6)) => match parse_opt_u32(
                                    s,
                                    p6,
                                    full_box.flags & DEFAULT_SAMPLE_FLAGS_PRESENT != 0,
                                ) {
                                    Err(e) => Err(e),
                                    Ok((default_sample_flags, p7)) => if pos + full_box.boks.size
                                        < p7 {
                                        Err(Mp4BoxError::Truncated)
                                    } else if pos + full_box.boks.size > s.len() {
                                        Err(Mp4BoxError::Truncated)
                                    } else {
                                        Ok(
                                            (
                                                TrackFragmentHeaderBox {
                                                    full_box,
                                                    track_id,
                                                    base_data_offset,
                                                    sample_description_index,
                                                    default_sample_duration,
                                                    default_sample_size,
                                                    default_sample_flags,
                                                    duration_is_empty: full_box.flags
                                                        & DURATION_IS_EMPTY != 0,
                                                    default_base_is_moof: full_box.flags
                                                        & DEFAULT_BASE_IS_MOOF != 0,
                                                },
                                                pos + full_box.boks.size,
                                            ),
                                        )
                                    },
                                },
                            },
                        },
                    },
                },
            },
        }
    }

    /// Reads a `tfhd` box.
    pub fn read(data: &Vec<u8>, pos: usize) -> (r: Result<
        (TrackFragmentHeaderBox, usize),
        Mp4BoxError,
    >)
        ensures
            parse_result(r) == Self::parse(data@, pos as int),
    {
        let (full_box, p1) = match FullBox::read_named(data, pos, TFHD_NAME) {
            Ok(x) => x,
            Err(e) => {
                return Err(e);
            },
        };
        let (track_id, p2) = match read_u32(data, p1) {
            Ok(x) => x,
            Err(e) => {
                return Err(e);
            },
        };
        let (base_data_offset, p3) = match read_opt_u64(
            data,
            p2,
            full_box.flags & BASE_DATA_OFFSET_PRESENT != 0,
        ) {
            Ok(x) => x,
            Err(e) => {
                return Err(e);
            },
        };
        let (sample_description_index, p4) = match read_opt_u32(
            data,
            p3,
            full_box.flags & SAMPLE_DESCRIPTION_INDEX_PRESENT != 0,
        ) {
            Ok(x) => x,
            Err(e) => {
                return Err(e);
            },
        };
        let (default_sample_duration, p5) = match read_opt_u32(
            data,
            p4,
            full_box.flags & DEFAULT_SAMPLE_DURATION_PRESENT != 0,
        ) {
            Ok(x) => x,
            Err(e) => {
                return Err(e);
            },
        };
        let (default_sample_size, p6) = match read_opt_u32(
            data,
            p5,
            full_box.flags & DEFAULT_SAMPLE_SIZE_PRESENT != 0,
        ) {
            Ok(x) => x,
            Err(e) => {
                return Err(e);
            },
        };
        let (default_sample_flags, p7) = match read_opt_u32(
            data,
            p6,
            full_box.flags & DEFAULT_SAMPLE_FLAGS_PRESENT != 0,
        ) {
            Ok(x) => x,
            Err(e) => {
                return Err(e);
            },
        };
        if full_box.boks.size < (p7 - pos) as u64 {
            Err(Mp4BoxError::Truncated)
        } else if full_box.boks.size > (data.len() - pos) as u64 {
            Err(Mp4BoxError::Truncated)
        } else {
            Ok(
                (
                    TrackFragmentHeaderBox {
                        full_box,
                        track_id,
                        base_data_offset,
                        sample_description_index,
                        default_sample_duration,
                        default_sample_size,
                        default_sample_flags,
                        duration_is_empty: full_box.flags & DURATION_IS_EMPTY != 0,
                        default_base_is_moof: full_box.flags & DEFAULT_BASE_IS_MOOF != 0,
                    },
                    pos + full_box.boks.size as usize,
                ),
            )
        }
    }
}

/// Each bit of the derived flag word is set exactly when the field it
/// announces is present (or the boolean it mirrors is true), and the word
/// never reaches beyond the 24 bits a full-box header can carry.
pub proof fn lemma_tfhd_flag_bits(b: TrackFragmentHeaderBox)
    ensures
        (b.spec_flags() & BASE_DATA_OFFSET_PRESENT != 0) == (b.base_data_offset is Some),
        (b.spec_flags() & SAMPLE_DESCRIPTION_INDEX_PRESENT != 0) == (b.sample_description_index
            is Some),
        (b.spec_flags() & DEFAULT_SAMPLE_DURATION_PRESENT != 0) == (b.default_sample_duration
            is Some),
        (b.spec_flags() & DEFAULT_SAMPLE_SIZE_PRESENT != 0) == (b.default_sample_size is Some),
        (b.spec_flags() & DEFAULT_SAMPLE_FLAGS_PRESENT != 0) == (b.default_sample_flags is Some),
        (b.spec_flags() & DURATION_IS_EMPTY != 0) == b.duration_is_empty,
        (b.spec_flags() & DEFAULT_BASE_IS_MOOF != 0) == b.default_base_is_moof,
        b.spec_flags() < 0x100_0000,
{
    let f = b.spec_flags();
    let x1: u32 = if b.base_data_offset is Some {
        BASE_DATA_OFFSET_PRESENT
    } else {
        0
    };
    let x2: u32 = if b.sample_description_index is Some {
        SAMPLE_DESCRIPTION_INDEX_PRESENT
    } else {
        0
    };
    let x3: u32 = if b.default_sample_duration is Some {
        DEFAULT_SAMPLE_DURATION_PRESENT
    } else {
        0
    };
    let x4: u32 = if b.default_sample_size is Some {
        DEFAULT_SAMPLE_SIZE_PRESENT
    } else {
        0
    };
    let x5: u32 = if b.default_sample_flags is Some {
        DEFAULT_SAMPLE_FLAGS_PRESENT
    } else {
        0
    };
    let x6: u32 = if b.duration_is_empty {
        DURATION_IS_EMPTY
    } else {
        0
    };
    let x7: u32 = if b.default_base_is_moof {
        DEFAULT_BASE_IS_MOOF
    } else {
        0
    };
    assert(f == x1 | x2 | x3 | x4 | x5 | x6 | x7);
    assert((f & 0x000001u32 != 0) == (x1 == 0x000001u32) && (f & 0x000002u32 != 0) == (x2
        == 0x000002u32) && (f & 0x000008u32 != 0) == (x3 == 0x000008u32) && (f & 0x000010u32 != 0)
        == (x4 == 0x000010u32) && (f & 0x000020u32 != 0) == (x5 == 0x000020u32) && (f
        & 0x010000u32 != 0) == (x6 == 0x010000u32) && (f & 0x020000u32 != 0) == (x7
        == 0x020000u32) && f < 0x100_0000u32) by (bit_vector)
        requires
            (x1 == 0x000001u32 || x1 == 0u32),
            (x2 == 0x000002u32 || x2 == 0u32),
            (x3 == 0x000008u32 || x3 == 0u32),
            (x4 == 0x000010u32 || x4 == 0u32),
            (x5 == 0x000020u32 || x5 == 0u32),
            (x6 == 0x010000u32 || x6 == 0u32),
            (x7 == 0x020000u32 || x7 == 0u32),
            f == x1 | x2 | x3 | x4 | x5 | x6 | x7,
    ;
}

/// Writing a well-formed, fully populated `tfhd` box and parsing the bytes
/// back yields every field unchanged, and consumes exactly the declared
/// forty bytes.
pub proof fn lemma_tfhd_roundtrip(b: TrackFragmentHeaderBox)
    requires
        b.wf(),
        b.base_data_offset is Some,
        b.sample_description_index is Some,
        b.default_sample_duration is Some,
        b.default_sample_size is Some,
        b.default_sample_flags is Some,
    ensures
        b.spec_bytes().len() == 40,
        TrackFragmentHeaderBox::parse(b.spec_bytes(), 0) == Ok::<
            (TrackFragmentHeaderBox, int),
            Mp4BoxError,
        >(
            (
                TrackFragmentHeaderBox {
                    full_box: FullBox {
                        boks: Boks { name: TFHD_NAME, size: 40 },
                        version: 0,
                        flags: b.spec_flags(),
                    },
                    track_id: b.track_id,
                    base_data_offset: b.base_data_offset,
                    sample_description_index: b.sample_description_index,
                    default_sample_duration: b.default_sample_duration,
                    default_sample_size: b.default_sample_size,
                    default_sample_flags: b.default_sample_flags,
                    duration_is_empty: b.duration_is_empty,
                    default_base_is_moof: b.default_base_is_moof,
                },
                40,
            ),
        ),
{
    let s = b.spec_bytes();
    lemma_tfhd_flag_bits(b);
    assert(b.spec_body().len() == 28);
    assert(s.subrange(0, 12) =~= spec_fullbox_bytes(TFHD_NAME, 40, 0, b.spec_flags()));
    lemma_parse_fullbox_prefix(s, TFHD_NAME, 40, 0, b.spec_flags());
    assert(s.subrange(12, 16) =~= spec_u32_to_be(b.track_id));
    lemma_u32_roundtrip(b.track_id);
    assert(s.subrange(16, 24) =~= spec_u64_to_be(b.base_data_offset.unwrap()));
    lemma_u64_roundtrip(b.base_data_offset.unwrap());
    assert(s.subrange(24, 28) =~= spec_u32_to_be(b.sample_description_index.unwrap()));
    lemma_u32_roundtrip(b.sample_description_index.unwrap());
    assert(s.subrange(28, 32) =~= spec_u32_to_be(b.default_sample_duration.unwrap()));
    lemma_u32_roundtrip(b.default_sample_duration.unwrap());
    assert(s.subrange(32, 36) =~= spec_u32_to_be(b.default_sample_size.unwrap()));
    lemma_u32_roundtrip(b.default_sample_size.unwrap());
    assert(s.subrange(36, 40) =~= spec_u32_to_be(b.default_sample_flags.unwrap()));
    lemma_u32_roundtrip(b.default_sample_flags.unwrap());
}

} // verus!
