//! A codec for the fragmented-movie subset of the ISO base media file format
//! (MP4) together with the MPEG-4 elementary-stream descriptors carried in
//! audio sample entries.
//!
//! Every box and descriptor type exposes three entry points: `new` builds a
//! value from application data, `total_size` returns the exact number of bytes
//! its serialized form occupies, and `write` appends exactly those bytes to an
//! output buffer.  Readers take a byte buffer and a position and either return
//! the parsed value with the position of the first byte after it, or a typed
//! error.  The wire format is big-endian throughout.

use vstd::prelude::*;

pub mod boks;
pub mod bytes;
pub mod chnl;
pub mod descriptor;
pub mod esds;
pub mod mehd;
pub mod mfhd;
pub mod moof;
pub mod mp4a;
pub mod mvex;
pub mod traf;
pub mod trun;
pub mod tfdt;
pub mod tfhd;
pub mod trex;

verus! {

/// The errors surfaced by box and descriptor readers.  Writers never fail:
/// they append to an in-memory buffer, and every input a writer would have to
/// reject is excluded by its precondition.
#[derive(Debug, Clone, Copy, PartialEq, Eq, Structural)]
pub enum Mp4BoxError {
    /// A box header carried the second four-character code where the first
    /// was expected.
    UnexpectedBoxType(u32, u32),
    /// A descriptor header carried the second tag where the first was
    /// expected.
    UnexpectedTag(u8, u8),
    /// The buffer ended before the structure it declares was complete, or a
    /// declared size is inconsistent with the bytes that carry it.
    Truncated,
    /// A box version this library does not model.
    UnsupportedVersion(u8),
}

/// Lifts an executable parse result, whose position is a `usize`, to the
/// mathematical form used by the `parse` specification functions.
pub open spec fn parse_result<T>(r: Result<(T, usize), Mp4BoxError>) -> Result<
    (T, int),
    Mp4BoxError,
> {
    match r {
        Ok((v, end)) => Ok((v, end as int)),
        Err(e) => Err(e),
    }
}

} // verus!
