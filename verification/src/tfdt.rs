//! The track fragment base media decode time box (`tfdt`): a version-1 full
//! box whose body is a 64-bit decode time.  The 32-bit version-0 form is not
//! modeled.

use vstd::prelude::*;

use crate::Mp4BoxError;
use crate::parse_result;
use crate::boks::{lemma_parse_fullbox_prefix, spec_fullbox_bytes, Boks, FullBox};
use crate::bytes::{lemma_u64_roundtrip, parse_u64, push_u64, read_u64, spec_u64_to_be};

verus! {

/// The `tfdt` type code.
pub const TFDT_NAME: u32 = 0x7466_6474;

/// The track fragment base media decode time box.
#[derive(Debug, Clone, Copy, PartialEq, Eq, Structural)]
pub struct TrackFragmentBaseMediaDecodeTimeBox {
    /// The `tfdt` full-box header, version 1, no flags.
    pub full_box: FullBox,
    /// The decode time of the first sample of the fragment.
    pub base_media_decode_time: u64,
}

impl TrackFragmentBaseMediaDecodeTimeBox {
    /// A built box carries the `tfdt` type code, version one (the 64-bit
    /// form) and no flags.
    pub open spec fn wf(self) -> bool {
        &&& self.full_box.boks.name == TFDT_NAME
        &&& self.full_box.version == 1
        &&& self.full_box.flags == 0
    }

    /// The exact bytes this box serializes to: the twelve header bytes with a
    /// declared size of twenty, then the decode time.
    pub open spec fn spec_bytes(self) -> Seq<u8> {
        spec_fullbox_bytes(self.full_box.boks.name, 20, self.full_box.version, self.full_box.flags)
            + spec_u64_to_be(self.base_media_decode_time)
    }

    /// A box for the given decode time.
    pub fn new(base_media_decode_time: u64) -> (r: Self)
        ensures
            r.wf(),
            r.base_media_decode_time == base_media_decode_time,
    {
        TrackFragmentBaseMediaDecodeTimeBox {
            full_box: FullBox::new(TFDT_NAME, 1, 0),
            base_media_decode_time,
        }
    }

    /// Appends exactly the serialized bytes of this box.
    pub fn write(self, out: &mut Vec<u8>)
        ensures
            final(out)@ == old(out)@ + self.spec_bytes(),
    {
        let total = self.total_size();
        self.full_box.write(out, total);
        push_u64(out, self.base_media_decode_time);
        proof {
            assert(out@ =~= old(out)@ + self.spec_bytes());
        }
    }

    /// The number of bytes `write` appends.
    pub fn total_size(&self) -> (r: u64)
        ensures
            r == self.spec_bytes().len(),
    {
        self.full_box.size(8)
    }

    /// What reading a `tfdt` box at `pos` yields.  Only version 1 is
    /// accepted; the declared size must cover the fixed body and lie within
    /// the buffer, and trailing bytes up to the declared size are skipped.
    pub open spec fn parse(s: Seq<u8>, pos: int) -> Result<
        (TrackFragmentBaseMediaDecodeTimeBox, int),
        Mp4BoxError,
    > {
        match FullBox::parse(s, pos, TFDT_NAME) {
            Err(e) => Err(e),
            Ok((full_box, p1)) => if full_box.version != 1 {
                Err(Mp4BoxError::UnsupportedVersion(full_box.version))
            } else if full_box.boks.size < 20 {
                Err(Mp4BoxError::Truncated)
            } else if pos + full_box.boks.size > s.len() {
                Err(Mp4BoxError::Truncated)
            } else {
                match parse_u64(s, p1) {
                    Err(e) => Err(e),
                    Ok((base_media_decode_time, _p2)) => Ok(
                        (
                            TrackFragmentBaseMediaDecodeTimeBox { full_box, base_media_decode_time },
                            pos + full_box.boks.size,
                        ),
                    ),
                }
            },
        }
    }

    /// Reads a `tfdt` box.
    pub fn read(data: &Vec<u8>, pos: usize) -> (r: Result<
        (TrackFragmentBaseMediaDecodeTimeBox, usize),
        Mp4BoxError,
    >)
        ensures
            parse_result(r) == Self::parse(data@, pos as int),
    {
        let (full_box, p1) = match FullBox::read_named(data, pos, TFDT_NAME) {
            Ok(x) => x,
            Err(e) => {
                return Err(e);
            },
        };
        if full_box.version != 1 {
            Err(Mp4BoxError::UnsupportedVersion(full_box.version))
        } else if full_box.boks.size < 20 {
            Err(Mp4BoxError::Truncated)
        } else if full_box.boks.size > (data.len() - pos) as u64 {
            Err(Mp4BoxError::Truncated)
        } else {
            let (base_media_decode_time, _p2) = match read_u64(data, p1) {
                Ok(x) => x,
                Err(e) => {
                    return Err(e);
                },
            };
            Ok(
                (
                    TrackFragmentBaseMediaDecodeTimeBox { full_box, base_media_decode_time },
                    pos + full_box.boks.size as usize,
                ),
            )
        }
    }
}

/// Writing a well-formed `tfdt` box and parsing the bytes back yields the
/// same decode time, and consumes exactly the twenty declared bytes.
pub proof fn lemma_tfdt_roundtrip(b: TrackFragmentBaseMediaDecodeTimeBox)
    requires
        b.wf(),
    ensures
        b.spec_bytes().len() == 20,
        TrackFragmentBaseMediaDecodeTimeBox::parse(b.spec_bytes(), 0) == Ok::<
            (TrackFragmentBaseMediaDecodeTimeBox, int),
            Mp4BoxError,
        >(
            (
                TrackFragmentBaseMediaDecodeTimeBox {
                    full_box: FullBox { boks: Boks { name: TFDT_NAME, size: 20 }, version: 1, flags: 0 },
                    base_media_decode_time: b.base_media_decode_time,
                },
                20,
            ),
        ),
{
    let s = b.spec_bytes();
    assert(s.subrange(0, 12) =~= spec_fullbox_bytes(TFDT_NAME, 20, 1, 0));
    lemma_parse_fullbox_prefix(s, TFDT_NAME, 20, 1, 0);
    assert(s.subrange(12, 20) =~= spec_u64_to_be(b.base_media_decode_time));
    lemma_u64_roundtrip(b.base_media_decode_time);
}

} // verus!
