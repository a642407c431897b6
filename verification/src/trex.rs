//! The track extends box (`trex`): per-track defaults that fragments fall
//! back on when a `tfhd` or `trun` carries no value of its own.

use vstd::prelude::*;

use crate::Mp4BoxError;
use crate::parse_result;
use crate::boks::{spec_fullbox_bytes, FullBox};
use crate::bytes::{parse_u32, push_u32, read_u32, spec_u32_to_be};

verus! {

/// The `trex` type code.
pub const TREX_NAME: u32 = 0x7472_6578;

/// The track extends box.
#[derive(Debug, Clone, Copy, PartialEq, Eq, Structural)]
pub struct TrackExtendsBox {
    /// The `trex` full-box header, version 0, no flags.
    pub full_box: FullBox,
    /// The track these defaults belong to.
    pub track_id: u32,
    /// The sample description fragments use by default.
    pub default_sample_description_index: u32,
    /// The sample duration fragments use by default.
    pub default_sample_duration: u32,
    /// The sample size fragments use by default.
    pub default_sample_size: u32,
    /// The sample flags fragments use by default.
    pub default_sample_flags: u32,
}

impl TrackExtendsBox {
    /// A built box carries the `trex` type code, version zero and no flags.
    pub open spec fn wf(self) -> bool {
        &&& self.full_box.boks.name == TREX_NAME
        &&& self.full_box.version == 0
        &&& self.full_box.flags == 0
    }

    /// The body bytes: the five 32-bit fields in wire order.
    pub open spec fn spec_body(self) -> Seq<u8> {
        spec_u32_to_be(self.track_id) + spec_u32_to_be(self.default_sample_description_index)
            + spec_u32_to_be(self.default_sample_duration) + spec_u32_to_be(
            self.default_sample_size,
        ) + spec_u32_to_be(self.default_sample_flags)
    }

    /// The exact bytes this box serializes to: the twelve header bytes with a
    /// declared size of thirty-two, then the body.
    pub open spec fn spec_bytes(self) -> Seq<u8> {
        spec_fullbox_bytes(self.full_box.boks.name, 32, self.full_box.version, self.full_box.flags)
            + self.spec_body()
    }

    /// A box for the given defaults.
    pub fn new(
        track_id: u32,
        default_sample_description_index: u32,
        default_sample_duration: u32,
        default_sample_size: u32,
        default_sample_flags: u32,
    ) -> (r: Self)
        ensures
            r.wf(),
            r.track_id == track_id,
            r.default_sample_description_index == default_sample_description_index,
            r.default_sample_duration == default_sample_duration,
            r.default_sample_size == default_sample_size,
            r.default_sample_flags == default_sample_flags,
    {
        TrackExtendsBox {
            full_box: FullBox::new(TREX_NAME, 0, 0),
            track_id,
            default_sample_description_index,
            default_sample_duration,
            default_sample_size,
            default_sample_flags,
        }
    }

    /// Appends exactly the serialized bytes of this box.
    pub fn write(self, out: &mut Vec<u8>)
        ensures
            final(out)@ == old(out)@ + self.spec_bytes(),
    {
        let total = self.total_size();
        self.full_box.write(out, total);
        push_u32(out, self.track_id);
        push_u32(out, self.default_sample_description_index);
        push_u32(out, self.default_sample_duration);
        push_u32(out, self.default_sample_size);
        push_u32(out, self.default_sample_flags);
        proof {
            assert(out@ =~= old(out)@ + self.spec_bytes());
        }
    }

    /// The number of bytes `write` appends.
    pub fn total_size(&self) -> (r: u64)
        ensures
            r == self.spec_bytes().len(),
    {
        self.full_box.size(20)
    }

    /// What reading a `trex` box at `pos` yields.  The declared size must
    /// cover the fixed body and lie within the buffer; trailing bytes up to
    /// the declared size are skipped.
    pub open spec fn parse(s: Seq<u8>, pos: int) -> Result<(TrackExtendsBox, int), Mp4BoxError> {
        match FullBox::parse(s, pos, TREX_NAME) {
            Err(e) => Err(e),
            Ok((full_box, p1)) => if full_box.boks.size < 32 {
                Err(Mp4BoxError::Truncated)
            } else if pos + full_box.boks.size > s.len() {
                Err(Mp4BoxError::Truncated)
            } else {
                match parse_u32(s, p1) {
                    Err(e) => Err(e),
                    Ok((track_id, p2)) => match parse_u32(s, p2) {
                        Err(e) => Err(e),
                        Ok((default_sample_description_index, p3)) => match parse_u32(s, p3) {
                            Err(e) => Err(e),
                            Ok((default_sample_duration, p4)) => match parse_u32(s, p4) {
                                Err(e) => Err(e),
                                Ok((default_sample_size, p5)) => match parse_u32(s, p5) {
                                    Err(e) => Err(e),
                                    Ok((default_sample_flags, _p6)) => Ok(
                                        (
                                            TrackExtendsBox {
                                                full_box,
                                                track_id,
                                                default_sample_description_index,
                                                default_sample_duration,
                                                default_sample_size,
                                                default_sample_flags,
                                            },
                                            pos + full_box.boks.size,
                                        ),
                                    ),
                                },
                            },
                        },
                    },
                }
            },
        }
    }

    /// Reads a `trex` box.
    pub fn read(data: &Vec<u8>, pos: usize) -> (r: Result<(TrackExtendsBox, usize), Mp4BoxError>)
        ensures
            parse_result(r) == Self::parse(data@, pos as int),
    {
        let (full_box, p1) = match FullBox::read_named(data, pos, TREX_NAME) {
            Ok(x) => x,
            Err(e) => {
                return Err(e);
            },
        };
        if full_box.boks.size < 32 {
            Err(Mp4BoxError::Truncated)
        } else if full_box.boks.size > (data.len() - pos) as u64 {
            Err(Mp4BoxError::Truncated)
        } else {
            let (track_id, p2) = match read_u32(data, p1) {
                Ok(x) => x,
                Err(e) => {
                    return Err(e);
                },
            };
            let (default_sample_description_index, p3) = match read_u32(data, p2) {
                Ok(x) => x,
                Err(e) => {
                    return Err(e);
                },
            };
            let (default_sample_duration, p4) = match read_u32(data, p3) {
                Ok(x) => x,
                Err(e) => {
                    return Err(e);
                },
            };
            let (default_sample_size, p5) = match read_u32(data, p4) {
                Ok(x) => x,
                Err(e) => {
                    return Err(e);
                },
            };
            let (default_sample_flags, _p6) = match read_u32(data, p5) {
                Ok(x) => x,
                Err(e) => {
                    return Err(e);
                },
            };
            Ok(
                (
                    TrackExtendsBox {
                        full_box,
                        track_id,
                        default_sample_description_index,
                        default_sample_duration,
                        default_sample_size,
                        default_sample_flags,
                    },
                    pos + full_box.boks.size as usize,
                ),
            )
        }
    }
}

} // verus!
