//! The movie fragment header box (`mfhd`): a full box whose body is the
//! fragment's sequence number.

use vstd::prelude::*;

use crate::Mp4BoxError;
use crate::parse_result;
use crate::boks::{lemma_parse_fullbox_prefix, spec_fullbox_bytes, Boks, FullBox};
use crate::bytes::{lemma_u32_roundtrip, parse_u32, push_u32, read_u32, spec_u32_to_be};

verus! {

/// The `mfhd` type code.
pub const MFHD_NAME: u32 = 0x6D66_6864;

/// The movie fragment header box.  The sequence number is chosen by the
/// caller; by convention it increases by one for each fragment, which this
/// box does not enforce.
#[derive(Debug, Clone, Copy, PartialEq, Eq, Structural)]
pub struct MovieFragmentHeaderBox {
    /// The `mfhd` full-box header, version 0, no flags.
    pub full_box: FullBox,
    /// The fragment's sequence number.
    pub sequence_number: u32,
}

impl MovieFragmentHeaderBox {
    /// A built box carries the `mfhd` type code, version zero and no flags.
    pub open spec fn wf(self) -> bool {
        &&& self.full_box.boks.name == MFHD_NAME
        &&& self.full_box.version == 0
        &&& self.full_box.flags == 0
    }

    /// The exact bytes this box serializes to: the twelve header bytes with a
    /// declared size of sixteen, then the sequence number.
    pub open spec fn spec_bytes(self) -> Seq<u8> {
        spec_fullbox_bytes(self.full_box.boks.name, 16, self.full_box.version, self.full_box.flags)
            + spec_u32_to_be(self.sequence_number)
    }

    /// A box for the given sequence number.
    pub fn new(sequence_number: u32) -> (r: Self)
        ensures
            r.wf(),
            r.sequence_number == sequence_number,
    {
        MovieFragmentHeaderBox { full_box: FullBox::new(MFHD_NAME, 0, 0), sequence_number }
    }

    /// Appends exactly the serialized bytes of this box.
    pub fn write(self, out: &mut Vec<u8>)
        ensures
            final(out)@ == old(out)@ + self.spec_bytes(),
    {
        let total = self.total_size();
        self.full_box.write(out, total);
        push_u32(out, self.sequence_number);
        proof {
            assert(out@ =~= old(out)@ + self.spec_bytes());
        }
    }

    /// The number of bytes `write` appends.
    pub fn total_size(&self) -> (r: u64)
        ensures
            r == self.spec_bytes().len(),
    {
        self.full_box.size(4)
    }

    /// What reading an `mfhd` box at `pos` yields.  The declared size must
    /// cover the fixed body and lie within the buffer; trailing bytes up to
    /// the declared size are skipped.
    pub open spec fn parse(s: Seq<u8>, pos: int) -> Result<
        (MovieFragmentHeaderBox, int),
        Mp4BoxError,
    > {
        match FullBox::parse(s, pos, MFHD_NAME) {
            Err(e) => Err(e),
            Ok((full_box, p1)) => if full_box.boks.size < 16 {
                Err(Mp4BoxError::Truncated)
            } else if pos + full_box.boks.size > s.len() {
                Err(Mp4BoxError::Truncated)
            } else {
                match parse_u32(s, p1) {
                    Err(e) => Err(e),
                    Ok((sequence_number, _p2)) => Ok(
                        (
                            MovieFragmentHeaderBox { full_box, sequence_number },
                            pos + full_box.boks.size,
                        ),
                    ),
                }
            },
        }
    }

    /// Reads an `mfhd` box.
    pub fn read(data: &Vec<u8>, pos: usize) -> (r: Result<
        (MovieFragmentHeaderBox, usize),
        Mp4BoxError,
    >)
        ensures
            parse_result(r) == Self::parse(data@, pos as int),
    {
        let (full_box, p1) = match FullBox::read_named(data, pos, MFHD_NAME) {
            Ok(x) => x,
            Err(e) => {
                return Err(e);
            },
        };
        if full_box.boks.size < 16 {
            Err(Mp4BoxError::Truncated)
        } else if full_box.boks.size > (data.len() - pos) as u64 {
            Err(Mp4BoxError::Truncated)
        } else {
            let (sequence_number, _p2) = match read_u32(data, p1) {
                Ok(x) => x,
                Err(e) => {
                    return Err(e);
                },
            };
            Ok((MovieFragmentHeaderBox { full_box, sequence_number }, pos + full_box.boks.size
                as usize))
        }
    }
}

/// Writing a well-formed `mfhd` box and parsing the bytes back yields the
/// same sequence number, and consumes exactly the sixteen declared bytes.
pub proof fn lemma_mfhd_roundtrip(b: MovieFragmentHeaderBox)
    requires
        b.wf(),
    ensures
        b.spec_bytes().len() == 16,
        MovieFragmentHeaderBox::parse(b.spec_bytes(), 0) == Ok::<
            (MovieFragmentHeaderBox, int),
            Mp4BoxError,
        >(
            (
                MovieFragmentHeaderBox {
                    full_box: FullBox { boks: Boks { name: MFHD_NAME, size: 16 }, version: 0, flags: 0 },
                    sequence_number: b.sequence_number,
                },
                16,
            ),
        ),
{
    let s = b.spec_bytes();
    assert(s.subrange(0, 12) =~= spec_fullbox_bytes(MFHD_NAME, 16, 0, 0));
    lemma_parse_fullbox_prefix(s, MFHD_NAME, 16, 0, 0);
    assert(s.subrange(12, 16) =~= spec_u32_to_be(b.sequence_number));
    lemma_u32_roundtrip(b.sequence_number);
}

} // verus!
