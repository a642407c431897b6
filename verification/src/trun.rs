//! Track fragment run boxes (`trun`) are produced by the sample-table layer
//! outside this crate.  Here one is carried as an already-encoded box whose
//! framing — length, declared size and type code — is checked when the value
//! is built, so that a fragment tree never embeds a child whose declared size
//! disagrees with its bytes.

use vstd::prelude::*;

use crate::Mp4BoxError;
use crate::bytes::{push_bytes, read_u32, spec_u32_from_be};

verus! {

/// The `trun` type code.
pub const TRUN_NAME: u32 = 0x7472_756E;

/// An encoded track fragment run box.
#[derive(Debug)]
pub struct TrackFragmentRunBox {
    /// The complete encoded box, header included.
    pub data: Vec<u8>,
}

impl TrackFragmentRunBox {
    /// The bytes form a single well-framed `trun` box: at least a header,
    /// a declared size equal to the actual length, and the `trun` type code.
    pub open spec fn wf(self) -> bool {
        &&& self.data@.len() >= 8
        &&& self.data@.len() <= u32::MAX
        &&& spec_u32_from_be(self.data@.subrange(0, 4)) == self.data@.len()
        &&& spec_u32_from_be(self.data@.subrange(4, 8)) == TRUN_NAME
    }

    /// The exact bytes this box serializes to: the encoded box unchanged.
    pub open spec fn spec_bytes(self) -> Seq<u8> {
        self.data@
    }

    /// Which error, if any, rejects the given encoding.
    pub open spec fn check(data: Seq<u8>) -> Result<(), Mp4BoxError> {
        if data.len() < 8 || data.len() > u32::MAX {
            Err(Mp4BoxError::Truncated)
        } else if spec_u32_from_be(data.subrange(4, 8)) != TRUN_NAME {
            Err(Mp4BoxError::UnexpectedBoxType(TRUN_NAME, spec_u32_from_be(data.subrange(4, 8))))
        } else if spec_u32_from_be(data.subrange(0, 4)) != data.len() {
            Err(Mp4BoxError::Truncated)
        } else {
            Ok(())
        }
    }

    /// Accepts an encoded `trun` box, rejecting one whose framing is wrong.
    pub fn new(data: Vec<u8>) -> (r: Result<TrackFragmentRunBox, Mp4BoxError>)
        ensures
            match r {
                Ok(b) => Self::check(data@) == Ok::<(), Mp4BoxError>(()) && b.data@ == data@
                    && b.wf(),
                Err(e) => Self::check(data@) == Err::<(), Mp4BoxError>(e),
            },
    {
        if data.len() < 8 {
            return Err(Mp4BoxError::Truncated);
        }
        if data.len() as u64 > u32::MAX as u64 {
            return Err(Mp4BoxError::Truncated);
        }
        let (name, _) = match read_u32(&data, 4) {
            Ok(x) => x,
            Err(e) => {
                return Err(e);
            },
        };
        if name != TRUN_NAME {
            return Err(Mp4BoxError::UnexpectedBoxType(TRUN_NAME, name));
        }
        let (declared, _) = match read_u32(&data, 0) {
            Ok(x) => x,
            Err(e) => {
                return Err(e);
            },
        };
        if declared as u64 != data.len() as u64 {
            return Err(Mp4BoxError::Truncated);
        }
        Ok(TrackFragmentRunBox { data })
    }

    /// The number of bytes `write` appends.
    pub fn total_size(&self) -> (r: u64)
        ensures
            r == self.spec_bytes().len(),
    {
        self.data.len() as u64
    }

    /// Appends exactly the serialized bytes of this box.
    pub fn write(&self, out: &mut Vec<u8>)
        ensures
            final(out)@ == old(out)@ + self.spec_bytes(),
    {
        push_bytes(out, &self.data);
    }
}

} // verus!
