//! The channel layout box (`chnl`): a version-0 full box whose modeled body
//! is the single stream-structure byte; anything after it up to the declared
//! size is skipped on read.

use vstd::prelude::*;

use crate::Mp4BoxError;
use crate::parse_result;
use crate::boks::{spec_fullbox_bytes, FullBox};
use crate::bytes::{parse_u8, push_u8, read_u8};

verus! {

/// The `chnl` type code.
pub const CHNL_NAME: u32 = 0x6368_6E6C;

/// The channel layout box.
#[derive(Debug, Clone, Copy, PartialEq, Eq, Structural)]
pub struct ChannelLayout {
    /// The `chnl` full-box header, version 0, no flags.
    pub full_box: FullBox,
    /// How the channels are laid out; zero on a built box.
    pub stream_structure: u8,
}

impl ChannelLayout {
    /// A built box carries the `chnl` type code, version zero and no flags.
    pub open spec fn wf(self) -> bool {
        &&& self.full_box.boks.name == CHNL_NAME
        &&& self.full_box.version == 0
        &&& self.full_box.flags == 0
    }

    /// The exact bytes this box serializes to: the twelve header bytes with
    /// a declared size of thirteen, then the stream-structure byte.
    pub open spec fn spec_bytes(self) -> Seq<u8> {
        spec_fullbox_bytes(self.full_box.boks.name, 13, self.full_box.version, self.full_box.flags)
            + seq![self.stream_structure]
    }

    /// An empty channel layout.
    pub fn new() -> (r: Self)
        ensures
            r.wf(),
            r.stream_structure == 0,
    {
        ChannelLayout { full_box: FullBox::new(CHNL_NAME, 0, 0), stream_structure: 0 }
    }

    /// Appends exactly the serialized bytes of this box.
    pub fn write(&self, out: &mut Vec<u8>)
        ensures
            final(out)@ == old(out)@ + self.spec_bytes(),
    {
        let total = self.total_size();
        self.full_box.write(out, total);
        push_u8(out, self.stream_structure);
        proof {
            assert(out@ =~= old(out)@ + self.spec_bytes());
        }
    }

    /// The number of bytes `write` appends.
    pub fn total_size(&self) -> (r: u64)
        ensures
            r == self.spec_bytes().len(),
    {
        self.full_box.size(1)
    }

    /// What reading a `chnl` box at `pos` yields.  The declared size must
    /// cover the stream-structure byte and lie within the buffer; the rest
    /// of the body, up to the declared size, is skipped.
    pub open spec fn parse(s: Seq<u8>, pos: int) -> Result<(ChannelLayout, int), Mp4BoxError> {
        match FullBox::parse(s, pos, CHNL_NAME) {
            Err(e) => Err(e),
            Ok((full_box, p1)) => if full_box.boks.size < 13 {
                Err(Mp4BoxError::Truncated)
            } else if pos + full_box.boks.size > s.len() {
                Err(Mp4BoxError::Truncated)
            } else {
                match parse_u8(s, p1) {
                    Err(e) => Err(e),
                    Ok((stream_structure, _p2)) => Ok(
                        (ChannelLayout { full_box, stream_structure }, pos + full_box.boks.size),
                    ),
                }
            },
        }
    }

    /// Reads a `chnl` box.
    pub fn read(data: &Vec<u8>, pos: usize) -> (r: Result<(ChannelLayout, usize), Mp4BoxError>)
        ensures
            parse_result(r) == Self::parse(data@, pos as int),
    {
        let (full_box, p1) = match FullBox::read_named(data, pos, CHNL_NAME) {
            Ok(x) => x,
            Err(e) => {
                return Err(e);
            },
        };
        if full_box.boks.size < 13 {
            Err(Mp4BoxError::Truncated)
        } else if full_box.boks.size > (data.len() - pos) as u64 {
            Err(Mp4BoxError::Truncated)
        } else {
            let (stream_structure, _p2) = match read_u8(data, p1) {
                Ok(x) => x,
                Err(e) => {
                    return Err(e);
                },
            };
            Ok((ChannelLayout { full_box, stream_structure }, pos + full_box.boks.size as usize))
        }
    }
}

} // verus!
