//! The movie extends header box (`mehd`): the overall duration of the
//! fragmented presentation.  Built boxes use the 64-bit version-1 form; the
//! reader also accepts the 32-bit version-0 form, zero-extended.

use vstd::prelude::*;

use crate::Mp4BoxError;
use crate::parse_result;
use crate::boks::{spec_fullbox_bytes, FullBox};
use crate::bytes::{parse_u32, parse_u64, push_u64, read_u32, read_u64, spec_u64_to_be};

verus! {

/// The `mehd` type code.
pub const MEHD_NAME: u32 = 0x6D65_6864;

/// The movie extends header box.
#[derive(Debug, Clone, Copy, PartialEq, Eq, Structural)]
pub struct MovieExtendsHeaderBox {
    /// The `mehd` full-box header; version 1 on built boxes.
    pub full_box: FullBox,
    /// The duration of the whole movie including fragments, in the movie's
    /// timescale.
    pub fragment_duration: u64,
}

impl MovieExtendsHeaderBox {
    /// A built box carries the `mehd` type code, version one and no flags.
    pub open spec fn wf(self) -> bool {
        &&& self.full_box.boks.name == MEHD_NAME
        &&& self.full_box.version == 1
        &&& self.full_box.flags == 0
    }

    /// The exact bytes this box serializes to: the twelve header bytes with a
    /// declared size of twenty, then the 64-bit duration.
    pub open spec fn spec_bytes(self) -> Seq<u8> {
        spec_fullbox_bytes(self.full_box.boks.name, 20, self.full_box.version, self.full_box.flags)
            + spec_u64_to_be(self.fragment_duration)
    }

    /// A box for the given duration.
    pub fn new(fragment_duration: u64) -> (r: Self)
        ensures
            r.wf(),
            r.fragment_duration == fragment_duration,
    {
        MovieExtendsHeaderBox { full_box: FullBox::new(MEHD_NAME, 1, 0), fragment_duration }
    }

    /// Appends exactly the serialized bytes of this box.
    pub fn write(self, out: &mut Vec<u8>)
        ensures
            final(out)@ == old(out)@ + self.spec_bytes(),
    {
        let total = self.total_size();
        self.full_box.write(out, total);
        push_u64(out, self.fragment_duration);
        proof {
            assert(out@ =~= old(out)@ + self.spec_bytes());
        }
    }

    /// The number of bytes `write` appends.
    pub fn total_size(&self) -> (r: u64)
        ensures
            r == self.spec_bytes().len(),
    {
        self.full_box.size(8)
    }

    /// What reading a `mehd` box at `pos` yields.  Version 1 carries the
    /// duration in 64 bits, version 0 in 32; any other version is rejected.
    /// The declared size must cover the body and lie within the buffer;
    /// trailing bytes up to the declared size are skipped.
    pub open spec fn parse(s: Seq<u8>, pos: int) -> Result<
        (MovieExtendsHeaderBox, int),
        Mp4BoxError,
    > {
        match FullBox::parse(s, pos, MEHD_NAME) {
            Err(e) => Err(e),
            Ok((full_box, p1)) => if full_box.version == 1 {
                if full_box.boks.size < 20 {
                    Err(Mp4BoxError::Truncated)
                } else if pos + full_box.boks.size > s.len() {
                    Err(Mp4BoxError::Truncated)
                } else {
                    match parse_u64(s, p1) {
                        Err(e) => Err(e),
                        Ok((fragment_duration, _p2)) => Ok(
                            (
                                MovieExtendsHeaderBox { full_box, fragment_duration },
                                pos + full_box.boks.size,
                            ),
                        ),
                    }
                }
            } else if full_box.version == 0 {
                if full_box.boks.size < 16 {
                    Err(Mp4BoxError::Truncated)
                } else if pos + full_box.boks.size > s.len() {
                    Err(Mp4BoxError::Truncated)
                } else {
                    match parse_u32(s, p1) {
                        Err(e) => Err(e),
                        Ok((fragment_duration, _p2)) => Ok(
                            (
                                MovieExtendsHeaderBox {
                                    full_box,
                                    fragment_duration: fragment_duration as u64,
                                },
                                pos + full_box.boks.size,
                            ),
                        ),
                    }
                }
            } else {
                Err(Mp4BoxError::UnsupportedVersion(full_box.version))
            },
        }
    }

    /// Reads a `mehd` box.
    pub fn read(data: &Vec<u8>, pos: usize) -> (r: Result<
        (MovieExtendsHeaderBox, usize),
        Mp4BoxError,
    >)
        ensures
            parse_result(r) == Self::parse(data@, pos as int),
    {
        let (full_box, p1) = match FullBox::read_named(data, pos, MEHD_NAME) {
            Ok(x) => x,
            Err(e) => {
                return Err(e);
            },
        };
        if full_box.version == 1 {
            if full_box.boks.size < 20 {
                Err(Mp4BoxError::Truncated)
            } else if full_box.boks.size > (data.len() - pos) as u64 {
                Err(Mp4BoxError::Truncated)
            } else {
                let (fragment_duration, _p2) = match read_u64(data, p1) {
                    Ok(x) => x,
                    Err(e) => {
                        return Err(e);
                    },
                };
                Ok(
                    (
                        MovieExtendsHeaderBox { full_box, fragment_duration },
                        pos + full_box.boks.size as usize,
                    ),
                )
            }
        } else if full_box.version == 0 {
            if full_box.boks.size < 16 {
                Err(Mp4BoxError::Truncated)
            } else if full_box.boks.size > (data.len() - pos) as u64 {
                Err(Mp4BoxError::Truncated)
            } else {
                let (fragment_duration, _p2) = match read_u32(data, p1) {
                    Ok(x) => x,
                    Err(e) => {
                        return Err(e);
                    },
                };
                Ok(
                    (
                        MovieExtendsHeaderBox {
                            full_box,
                            fragment_duration: fragment_duration as u64,
                        },
                        pos + full_box.boks.size as usize,
                    ),
                )
            }
        } else {
            Err(Mp4BoxError::UnsupportedVersion(full_box.version))
        }
    }
}

} // verus!
