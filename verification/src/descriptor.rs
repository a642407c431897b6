//! The MPEG-4 descriptor framing primitive: a one-byte tag followed by a
//! base-128 continuation-coded size.  The size counts the body only, never
//! the tag or the size bytes themselves, and is always written with the
//! fewest bytes its value allows.

use vstd::prelude::*;

use crate::Mp4BoxError;
use crate::parse_result;
use crate::bytes::{parse_u8, read_u8};

verus! {

/// The elementary stream descriptor tag.
pub const ES_DESCR_TAG: u8 = 0x3;

/// The decoder configuration descriptor tag.
pub const DECODER_CONFIG_DESCR_TAG: u8 = 0x4;

/// The decoder specific information descriptor tag.
pub const DECODER_SPECIFIC_DESCR_TAG: u8 = 0x5;

/// The synchronization layer configuration descriptor tag.
pub const SL_CONFIG_DESCR_TAG: u8 = 0x6;

/// The largest body size four continuation-coded bytes can carry.
pub const MAX_DESC_SIZE: u32 = 0x0FFF_FFFF;

/// How many bytes the minimal continuation encoding of `n` occupies.
pub open spec fn spec_size_of_length(n: u32) -> u32 {
    if n <= 0x7F {
        1
    } else if n <= 0x3FFF {
        2
    } else if n <= 0x1F_FFFF {
        3
    } else {
        4
    }
}

/// How many bytes the minimal continuation encoding of `size` occupies.
pub fn size_of_length(size: u32) -> (r: u32)
    ensures
        r == spec_size_of_length(size),
{
    if size <= 0x7F {
        1
    } else if size <= 0x3FFF {
        2
    } else if size <= 0x1F_FFFF {
        3
    } else {
        4
    }
}

/// The minimal continuation encoding of `n`: big-endian groups of seven
/// bits, every byte but the last carrying the continuation bit.
pub open spec fn spec_encode_desc_size(n: u32) -> Seq<u8> {
    if n <= 0x7F {
        seq![n as u8]
    } else if n <= 0x3FFF {
        seq![(((n >> 7) & 0x7f) | 0x80) as u8, (n & 0x7f) as u8]
    } else if n <= 0x1F_FFFF {
        seq![
            (((n >> 14) & 0x7f) | 0x80) as u8,
            (((n >> 7) & 0x7f) | 0x80) as u8,
            (n & 0x7f) as u8,
        ]
    } else {
        seq![
            (((n >> 21) & 0x7f) | 0x80) as u8,
            (((n >> 14) & 0x7f) | 0x80) as u8,
            (((n >> 7) & 0x7f) | 0x80) as u8,
            (n & 0x7f) as u8,
        ]
    }
}

/// The total encoded size of a descriptor whose body occupies `body` bytes:
/// one tag byte, the size bytes, then the body.
pub open spec fn spec_desc_total(body: u32) -> int {
    1 + spec_size_of_length(body) + body
}

/// The tag byte followed by the minimal encoding of the body size.
pub open spec fn spec_desc_header_bytes(tag: u8, body: u32) -> Seq<u8> {
    seq![tag] + spec_encode_desc_size(body)
}

/// What decoding a continuation-coded size yields, seven bits per byte,
/// stopping after the first byte whose continuation bit is clear or after
/// `remaining` bytes, whichever comes first.
pub open spec fn parse_desc_size_rec(s: Seq<u8>, pos: int, acc: u32, remaining: int) -> Result<
    (u32, int),
    Mp4BoxError,
>
    decreases remaining,
{
    if remaining <= 0 {
        Ok((acc, pos))
    } else if !(0 <= pos && pos < s.len()) {
        Err(Mp4BoxError::Truncated)
    } else {
        let b = s[pos];
        let acc2 = (acc << 7) | ((b & 0x7f) as u32);
        if b & 0x80 == 0 {
            Ok((acc2, pos + 1))
        } else {
            parse_desc_size_rec(s, pos + 1, acc2, remaining - 1)
        }
    }
}

/// What decoding a continuation-coded size at `pos` yields: at most four
/// bytes are consumed.
pub open spec fn parse_desc_size(s: Seq<u8>, pos: int) -> Result<(u32, int), Mp4BoxError> {
    parse_desc_size_rec(s, pos, 0, 4)
}

/// A successful size decode consumes between one and `remaining` bytes.
pub proof fn lemma_parse_desc_size_rec_bounds(s: Seq<u8>, pos: int, acc: u32, remaining: int)
    requires
        1 <= remaining,
    ensures
        parse_desc_size_rec(s, pos, acc, remaining) matches Ok(q) ==> pos + 1 <= q.1 <= pos
            + remaining,
    decreases remaining,
{
    if 0 <= pos && pos < s.len() {
        let b = s[pos];
        let acc2 = (acc << 7) | ((b & 0x7f) as u32);
        if b & 0x80 != 0 && remaining > 1 {
            lemma_parse_desc_size_rec_bounds(s, pos + 1, acc2, remaining - 1);
        }
    }
}

/// Decodes a continuation-coded size.
fn read_desc_size_rec(data: &Vec<u8>, pos: usize, acc: u32, remaining: u32) -> (r: Result<
    (u32, usize),
    Mp4BoxError,
>)
    ensures
        parse_result(r) == parse_desc_size_rec(data@, pos as int, acc, remaining as int),
    decreases remaining,
{
    if remaining == 0 {
        Ok((acc, pos))
    } else if pos >= data.len() {
        Err(Mp4BoxError::Truncated)
    } else {
        let b = data[pos];
        let acc2 = (acc << 7) | ((b & 0x7f) as u32);
        if b & 0x80 == 0 {
            Ok((acc2, pos + 1))
        } else {
            read_desc_size_rec(data, pos + 1, acc2, remaining - 1)
        }
    }
}

/// Decodes a continuation-coded size: at most four bytes are consumed.
fn read_desc_size(data: &Vec<u8>, pos: usize) -> (r: Result<(u32, usize), Mp4BoxError>)
    ensures
        parse_result(r) == parse_desc_size(data@, pos as int),
{
    read_desc_size_rec(data, pos, 0, 4)
}

/// Appends a descriptor header: the tag, then the minimal encoding of the
/// body size.
fn write_desc_header(out: &mut Vec<u8>, tag: u8, body: u32)
    requires
        body <= MAX_DESC_SIZE,
    ensures
        final(out)@ == old(out)@ + spec_desc_header_bytes(tag, body),
{
    out.push(tag);
    if body <= 0x7F {
        out.push(body as u8);
    } else if body <= 0x3FFF {
        out.push((((body >> 7) & 0x7f) | 0x80) as u8);
        out.push((body & 0x7f) as u8);
    } else if body <= 0x1F_FFFF {
        out.push((((body >> 14) & 0x7f) | 0x80) as u8);
        out.push((((body >> 7) & 0x7f) | 0x80) as u8);
        out.push((body & 0x7f) as u8);
    } else {
        out.push((((body >> 21) & 0x7f) | 0x80) as u8);
        out.push((((body >> 14) & 0x7f) | 0x80) as u8);
        out.push((((body >> 7) & 0x7f) | 0x80) as u8);
        out.push((body & 0x7f) as u8);
    }
    proof {
        assert(out@ =~= old(out)@ + spec_desc_header_bytes(tag, body));
    }
}

/// Two distinct body sizes never share a total encoded size: the size field
/// grows together with the body, so the total determines the body.
pub proof fn lemma_desc_total_injective(b1: u32, b2: u32)
    requires
        b1 <= MAX_DESC_SIZE,
        b2 <= MAX_DESC_SIZE,
        spec_desc_total(b1) == spec_desc_total(b2),
    ensures
        b1 == b2,
{
}

/// The descriptor header: tag, decoded body size, and how many bytes the
/// header itself occupied on the wire.
#[derive(Debug, Clone, Copy, PartialEq, Eq, Structural)]
pub struct BaseDescriptor {
    /// The descriptor's tag.
    pub tag: u8,
    /// The declared body size, excluding the header bytes.
    pub size: u32,
    /// How many header bytes a read consumed: the tag byte plus the size
    /// bytes.  Zero on a built or peeked header.
    pub read_size: u8,
}

impl BaseDescriptor {
    /// A header for a descriptor with the given tag and no size recorded.
    pub fn new(tag: u8) -> (r: Self)
        ensures
            r.tag == tag,
            r.size == 0,
            r.read_size == 0,
    {
        BaseDescriptor { tag, size: 0, read_size: 0 }
    }

    /// Emits the header for a descriptor whose total encoded size — tag,
    /// size bytes and body together — is `size`.  The body size is recovered
    /// from the total; a total no body size produces is excluded by the
    /// precondition.
    pub fn write(&self, out: &mut Vec<u8>, size: u64)
        requires
            exists|b: u32| b <= MAX_DESC_SIZE && size == spec_desc_total(b),
        ensures
            forall|b: u32|
                b <= MAX_DESC_SIZE && size == spec_desc_total(b) ==> final(out)@ == old(out)@
                    + spec_desc_header_bytes(self.tag, b),
    {
        let body: u32;
        if size >= 2 && size - 2 <= 0x7F {
            body = (size - 2) as u32;
        } else if size >= 3 && 0x80 <= size - 3 && size - 3 <= 0x3FFF {
            body = (size - 3) as u32;
        } else if size >= 4 && 0x4000 <= size - 4 && size - 4 <= 0x1F_FFFF {
            body = (size - 4) as u32;
        } else if size >= 5 && 0x20_0000 <= size - 5 && size - 5 <= MAX_DESC_SIZE as u64 {
            body = (size - 5) as u32;
        } else {
            proof {
                let b = choose|b: u32| b <= MAX_DESC_SIZE && size == spec_desc_total(b);
                assert(false);
            }
            body = 0;
        }
        proof {
            assert(spec_desc_total(body) == size);
        }
        write_desc_header(out, self.tag, body);
        proof {
            assert forall|b: u32| b <= MAX_DESC_SIZE && size == spec_desc_total(b) implies out@
                == old(out)@ + spec_desc_header_bytes(self.tag, b) by {
                lemma_desc_total_injective(b, body);
            }
        }
    }

    /// What reading a descriptor header at `pos` yields when the tag must be
    /// `expected`: the decoded size and the count of header bytes consumed.
    pub open spec fn parse(s: Seq<u8>, pos: int, expected: u8) -> Result<
        (BaseDescriptor, int),
        Mp4BoxError,
    > {
        match parse_u8(s, pos) {
            Err(e) => Err(e),
            Ok((tag, p1)) => if tag != expected {
                Err(Mp4BoxError::UnexpectedTag(expected, tag))
            } else {
                match parse_desc_size(s, p1) {
                    Err(e) => Err(e),
                    Ok((size, p2)) => Ok(
                        (BaseDescriptor { tag, size, read_size: (p2 - pos) as u8 }, p2),
                    ),
                }
            },
        }
    }

    /// Reads a descriptor header whose tag must be `expected`.
    pub fn read(data: &Vec<u8>, pos: usize, expected: u8) -> (r: Result<
        (BaseDescriptor, usize),
        Mp4BoxError,
    >)
        ensures
            parse_result(r) == Self::parse(data@, pos as int, expected),
    {
        let (tag, p1) = match read_u8(data, pos) {
            Ok(x) => x,
            Err(e) => {
                return Err(e);
            },
        };
        if tag != expected {
            return Err(Mp4BoxError::UnexpectedTag(expected, tag));
        }
        let (size, p2) = match read_desc_size(data, p1) {
            Ok(x) => x,
            Err(e) => {
                return Err(e);
            },
        };
        proof {
            lemma_parse_desc_size_rec_bounds(data@, p1 as int, 0, 4);
        }
        Ok((BaseDescriptor { tag, size, read_size: (p2 - pos) as u8 }, p2))
    }

    /// What peeking a descriptor header at `pos` yields: the tag and size of
    /// the upcoming descriptor, with nothing consumed.
    pub open spec fn parse_header(s: Seq<u8>, pos: int) -> Result<(u8, u32, int), Mp4BoxError> {
        match parse_u8(s, pos) {
            Err(e) => Err(e),
            Ok((tag, p1)) => match parse_desc_size(s, p1) {
                Err(e) => Err(e),
                Ok((size, p2)) => Ok((tag, size, p2)),
            },
        }
    }

    /// Probes the next descriptor's tag and size without committing the read
    /// position, for descriptors whose presence only the upcoming tag tells.
    pub fn peek(data: &Vec<u8>, pos: usize) -> (r: Result<BaseDescriptor, Mp4BoxError>)
        ensures
            match r {
                Ok(d) => Self::parse_header(data@, pos as int) matches Ok(q) && d.tag == q.0
                    && d.size == q.1 && d.read_size == 0,
                Err(e) => Self::parse_header(data@, pos as int) == Err::<
                    (u8, u32, int),
                    Mp4BoxError,
                >(e),
            },
    {
        let (tag, p1) = match read_u8(data, pos) {
            Ok(x) => x,
            Err(e) => {
                return Err(e);
            },
        };
        let (size, _p2) = match read_desc_size(data, p1) {
            Ok(x) => x,
            Err(e) => {
                return Err(e);
            },
        };
        Ok(BaseDescriptor { tag, size, read_size: 0 })
    }

    /// The body bytes that follow a read header.
    pub fn remaining_size(&self) -> (r: u64)
        ensures
            r == self.size,
    {
        self.size as u64
    }

    /// The total encoded size of a descriptor whose body occupies `size`
    /// bytes: the tag byte, the minimal size bytes, then the body.
    pub fn size(&self, size: u64) -> (r: u64)
        requires
            size <= MAX_DESC_SIZE,
        ensures
            r == spec_desc_total(size as u32),
    {
        1 + size_of_length(size as u32) as u64 + size
    }
}

/// A buffer whose leading tag differs from the expected one is rejected with
/// `UnexpectedTag`, carrying the expected and the actual tag.
pub proof fn lemma_desc_rejects_wrong_tag(s: Seq<u8>, pos: int, expected: u8)
    requires
        0 <= pos < s.len(),
        s[pos] != expected,
    ensures
        BaseDescriptor::parse(s, pos, expected) == Err::<(BaseDescriptor, int), Mp4BoxError>(
            Mp4BoxError::UnexpectedTag(expected, s[pos]),
        ),
{
}

/// Encoding any body size a descriptor can carry and decoding it returns the
/// same value, and the encoding occupies exactly the minimal number of bytes
/// for the value's range.
pub proof fn lemma_desc_size_roundtrip(n: u32)
    requires
        n <= MAX_DESC_SIZE,
    ensures
        spec_encode_desc_size(n).len() == spec_size_of_length(n),
        parse_desc_size(spec_encode_desc_size(n), 0) == Ok::<(u32, int), Mp4BoxError>(
            (n, spec_size_of_length(n) as int),
        ),
{
    reveal_with_fuel(parse_desc_size_rec, 5);
    let s = spec_encode_desc_size(n);
    if n <= 0x7F {
        let b0 = n as u8;
        assert(b0 & 0x80 == 0 && ((0u32 << 7) | ((b0 & 0x7f) as u32)) == n) by (bit_vector)
            requires
                n <= 0x7F,
                b0 == n as u8,
        ;
    } else if n <= 0x3FFF {
        let b0 = (((n >> 7) & 0x7f) | 0x80) as u8;
        let b1 = (n & 0x7f) as u8;
        let a1 = (0u32 << 7) | ((b0 & 0x7f) as u32);
        assert(b0 & 0x80 != 0 && b1 & 0x80 == 0 && ((a1 << 7) | ((b1 & 0x7f) as u32)) == n)
            by (bit_vector)
            requires
                0x7F < n <= 0x3FFF,
                b0 == (((n >> 7) & 0x7f) | 0x80) as u8,
                b1 == (n & 0x7f) as u8,
                a1 == (0u32 << 7) | ((b0 & 0x7f) as u32),
        ;
    } else if n <= 0x1F_FFFF {
        let b0 = (((n >> 14) & 0x7f) | 0x80) as u8;
        let b1 = (((n >> 7) & 0x7f) | 0x80) as u8;
        let b2 = (n & 0x7f) as u8;
        let a1 = (0u32 << 7) | ((b0 & 0x7f) as u32);
        let a2 = (a1 << 7) | ((b1 & 0x7f) as u32);
        assert(b0 & 0x80 != 0 && b1 & 0x80 != 0 && b2 & 0x80 == 0 && ((a2 << 7) | ((b2
            & 0x7f) as u32)) == n) by (bit_vector)
            requires
                0x3FFF < n <= 0x1F_FFFF,
                b0 == (((n >> 14) & 0x7f) | 0x80) as u8,
                b1 == (((n >> 7) & 0x7f) | 0x80) as u8,
                b2 == (n & 0x7f) as u8,
                a1 == (0u32 << 7) | ((b0 & 0x7f) as u32),
                a2 == (a1 << 7) | ((b1 & 0x7f) as u32),
        ;
    } else {
        let b0 = (((n >> 21) & 0x7f) | 0x80) as u8;
        let b1 = (((n >> 14) & 0x7f) | 0x80) as u8;
        let b2 = (((n >> 7) & 0x7f) | 0x80) as u8;
        let b3 = (n & 0x7f) as u8;
        let a1 = (0u32 << 7) | ((b0 & 0x7f) as u32);
        let a2 = (a1 << 7) | ((b1 & 0x7f) as u32);
        let a3 = (a2 << 7) | ((b2 & 0x7f) as u32);
        assert(b0 & 0x80 != 0 && b1 & 0x80 != 0 && b2 & 0x80 != 0 && b3 & 0x80 == 0 && ((a3 << 7)
            | ((b3 & 0x7f) as u32)) == n) by (bit_vector)
            requires
                0x1F_FFFF < n <= 0x0FFF_FFFF,
                b0 == (((n >> 21) & 0x7f) | 0x80) as u8,
                b1 == (((n >> 14) & 0x7f) | 0x80) as u8,
                b2 == (((n >> 7) & 0x7f) | 0x80) as u8,
                b3 == (n & 0x7f) as u8,
                a1 == (0u32 << 7) | ((b0 & 0x7f) as u32),
                a2 == (a1 << 7) | ((b1 & 0x7f) as u32),
                a3 == (a2 << 7) | ((b2 & 0x7f) as u32),
        ;
    }
}

} // verus!
