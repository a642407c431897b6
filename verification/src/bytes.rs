//! Big-endian byte-level primitives shared by every box and descriptor codec.
//!
//! For each integer width there are three pieces: a specification of the bytes
//! a value serializes to, a specification of the value a byte sequence decodes
//! to, and executable writer/reader functions whose contracts are stated with
//! the two specifications.  The round-trip lemmas connect the pair.

use vstd::prelude::*;

use crate::Mp4BoxError;
use crate::parse_result;

verus! {

/// The two big-endian bytes of a 16-bit value.
pub open spec fn spec_u16_to_be(v: u16) -> Seq<u8> {
    seq![((v >> 8) & 0xff) as u8, (v & 0xff) as u8]
}

/// The 16-bit value carried by two big-endian bytes.
pub open spec fn spec_u16_from_be(s: Seq<u8>) -> u16 {
    ((s[0] as u16) << 8) | (s[1] as u16)
}

/// The three big-endian bytes of a 24-bit value stored in a `u32`.
pub open spec fn spec_u24_to_be(v: u32) -> Seq<u8> {
    seq![((v >> 16) & 0xff) as u8, ((v >> 8) & 0xff) as u8, (v & 0xff) as u8]
}

/// The 24-bit value carried by three big-endian bytes, zero-extended.
pub open spec fn spec_u24_from_be(s: Seq<u8>) -> u32 {
    ((s[0] as u32) << 16) | ((s[1] as u32) << 8) | (s[2] as u32)
}

/// The four big-endian bytes of a 32-bit value.
pub open spec fn spec_u32_to_be(v: u32) -> Seq<u8> {
    seq![
        ((v >> 24) & 0xff) as u8,
        ((v >> 16) & 0xff) as u8,
        ((v >> 8) & 0xff) as u8,
        (v & 0xff) as u8,
    ]
}

/// The 32-bit value carried by four big-endian bytes.
pub open spec fn spec_u32_from_be(s: Seq<u8>) -> u32 {
    ((s[0] as u32) << 24) | ((s[1] as u32) << 16) | ((s[2] as u32) << 8) | (s[3] as u32)
}

/// The eight big-endian bytes of a 64-bit value.
pub open spec fn spec_u64_to_be(v: u64) -> Seq<u8> {
    seq![
        ((v >> 56) & 0xff) as u8,
        ((v >> 48) & 0xff) as u8,
        ((v >> 40) & 0xff) as u8,
        ((v >> 32) & 0xff) as u8,
        ((v >> 24) & 0xff) as u8,
        ((v >> 16) & 0xff) as u8,
        ((v >> 8) & 0xff) as u8,
        (v & 0xff) as u8,
    ]
}

/// The 64-bit value carried by eight big-endian bytes.
pub open spec fn spec_u64_from_be(s: Seq<u8>) -> u64 {
    ((s[0] as u64) << 56) | ((s[1] as u64) << 48) | ((s[2] as u64) << 40) | ((s[3] as u64) << 32)
        | ((s[4] as u64) << 24) | ((s[5] as u64) << 16) | ((s[6] as u64) << 8) | (s[7] as u64)
}

/// Decoding the big-endian bytes of a 16-bit value gives the value back.
pub proof fn lemma_u16_roundtrip(v: u16)
    ensures
        spec_u16_from_be(spec_u16_to_be(v)) == v,
{
    let b0 = ((v >> 8) & 0xff) as u8;
    let b1 = (v & 0xff) as u8;
    assert((((b0 as u16) << 8) | (b1 as u16)) == v) by (bit_vector)
        requires
            b0 == ((v >> 8) & 0xff) as u8,
            b1 == (v & 0xff) as u8,
    ;
}

/// Decoding the big-endian bytes of a 24-bit value gives the value back.
pub proof fn lemma_u24_roundtrip(v: u32)
    requires
        v < 0x100_0000,
    ensures
        spec_u24_from_be(spec_u24_to_be(v)) == v,
{
    let b0 = ((v >> 16) & 0xff) as u8;
    let b1 = ((v >> 8) & 0xff) as u8;
    let b2 = (v & 0xff) as u8;
    assert((((b0 as u32) << 16) | ((b1 as u32) << 8) | (b2 as u32)) == v) by (bit_vector)
        requires
            v < 0x100_0000,
            b0 == ((v >> 16) & 0xff) as u8,
            b1 == ((v >> 8) & 0xff) as u8,
            b2 == (v & 0xff) as u8,
    ;
}

/// Decoding the big-endian bytes of a 32-bit value gives the value back.
pub proof fn lemma_u32_roundtrip(v: u32)
    ensures
        spec_u32_from_be(spec_u32_to_be(v)) == v,
{
    let b0 = ((v >> 24) & 0xff) as u8;
    let b1 = ((v >> 16) & 0xff) as u8;
    let b2 = ((v >> 8) & 0xff) as u8;
    let b3 = (v & 0xff) as u8;
    assert((((b0 as u32) << 24) | ((b1 as u32) << 16) | ((b2 as u32) << 8) | (b3 as u32)) == v)
        by (bit_vector)
        requires
            b0 == ((v >> 24) & 0xff) as u8,
            b1 == ((v >> 16) & 0xff) as u8,
            b2 == ((v >> 8) & 0xff) as u8,
            b3 == (v & 0xff) as u8,
    ;
}

/// Decoding the big-endian bytes of a 64-bit value gives the value back.
pub proof fn lemma_u64_roundtrip(v: u64)
    ensures
        spec_u64_from_be(spec_u64_to_be(v)) == v,
{
    let b0 = ((v >> 56) & 0xff) as u8;
    let b1 = ((v >> 48) & 0xff) as u8;
    let b2 = ((v >> 40) & 0xff) as u8;
    let b3 = ((v >> 32) & 0xff) as u8;
    let b4 = ((v >> 24) & 0xff) as u8;
    let b5 = ((v >> 16) & 0xff) as u8;
    let b6 = ((v >> 8) & 0xff) as u8;
    let b7 = (v & 0xff) as u8;
    assert((((b0 as u64) << 56) | ((b1 as u64) << 48) | ((b2 as u64) << 40) | ((b3 as u64) << 32)
        | ((b4 as u64) << 24) | ((b5 as u64) << 16) | ((b6 as u64) << 8) | (b7 as u64)) == v)
        by (bit_vector)
        requires
            b0 == ((v >> 56) & 0xff) as u8,
            b1 == ((v >> 48) & 0xff) as u8,
            b2 == ((v >> 40) & 0xff) as u8,
            b3 == ((v >> 32) & 0xff) as u8,
            b4 == ((v >> 24) & 0xff) as u8,
            b5 == ((v >> 16) & 0xff) as u8,
            b6 == ((v >> 8) & 0xff) as u8,
            b7 == (v & 0xff) as u8,
    ;
}

/// Appends one byte.
pub fn push_u8(out: &mut Vec<u8>, v: u8)
    ensures
        final(out)@ == old(out)@ + seq![v],
{
    out.push(v);
    proof {
        assert(out@ =~= old(out)@ + seq![v]);
    }
}

/// Appends the two big-endian bytes of a 16-bit value.
pub fn push_u16(out: &mut Vec<u8>, v: u16)
    ensures
        final(out)@ == old(out)@ + spec_u16_to_be(v),
{
    out.push(((v >> 8) & 0xff) as u8);
    out.push((v & 0xff) as u8);
    proof {
        assert(out@ =~= old(out)@ + spec_u16_to_be(v));
    }
}

/// Appends the three big-endian bytes of a 24-bit value; higher bits of the
/// argument are discarded.
pub fn push_u24(out: &mut Vec<u8>, v: u32)
    ensures
        final(out)@ == old(out)@ + spec_u24_to_be(v),
{
    out.push(((v >> 16) & 0xff) as u8);
    out.push(((v >> 8) & 0xff) as u8);
    out.push((v & 0xff) as u8);
    proof {
        assert(out@ =~= old(out)@ + spec_u24_to_be(v));
    }
}

/// Appends the four big-endian bytes of a 32-bit value.
pub fn push_u32(out: &mut Vec<u8>, v: u32)
    ensures
        final(out)@ == old(out)@ + spec_u32_to_be(v),
{
    out.push(((v >> 24) & 0xff) as u8);
    out.push(((v >> 16) & 0xff) as u8);
    out.push(((v >> 8) & 0xff) as u8);
    out.push((v & 0xff) as u8);
    proof {
        assert(out@ =~= old(out)@ + spec_u32_to_be(v));
    }
}

/// Appends the eight big-endian bytes of a 64-bit value.
pub fn push_u64(out: &mut Vec<u8>, v: u64)
    ensures
        final(out)@ == old(out)@ + spec_u64_to_be(v),
{
    out.push(((v >> 56) & 0xff) as u8);
    out.push(((v >> 48) & 0xff) as u8);
    out.push(((v >> 40) & 0xff) as u8);
    out.push(((v >> 32) & 0xff) as u8);
    out.push(((v >> 24) & 0xff) as u8);
    out.push(((v >> 16) & 0xff) as u8);
    out.push(((v >> 8) & 0xff) as u8);
    out.push((v & 0xff) as u8);
    proof {
        assert(out@ =~= old(out)@ + spec_u64_to_be(v));
    }
}

/// Appends a copy of every byte of `src`.
pub fn push_bytes(out: &mut Vec<u8>, src: &Vec<u8>)
    ensures
        final(out)@ == old(out)@ + src@,
{
    let mut i: usize = 0;
    while i < src.len()
        invariant
            i <= src@.len(),
            out@ == old(out)@ + src@.subrange(0, i as int),
        decreases src@.len() - i,
    {
        out.push(src[i]);
        i = i + 1;
        proof {
            assert(out@ =~= old(out)@ + src@.subrange(0, i as int));
        }
    }
    proof {
        assert(src@.subrange(0, src@.len() as int) =~= src@);
    }
}

/// What skipping `n` bytes at `pos` yields: the position after them.
pub open spec fn spec_skip(s: Seq<u8>, pos: int, n: int) -> Result<int, Mp4BoxError> {
    if 0 <= pos && pos + n <= s.len() {
        Ok(pos + n)
    } else {
        Err(Mp4BoxError::Truncated)
    }
}

/// Skips `n` bytes.
pub fn skip_bytes(data: &Vec<u8>, pos: usize, n: usize) -> (r: Result<usize, Mp4BoxError>)
    ensures
        match r {
            Ok(p) => spec_skip(data@, pos as int, n as int) == Ok::<int, Mp4BoxError>(p as int),
            Err(e) => spec_skip(data@, pos as int, n as int) == Err::<int, Mp4BoxError>(e),
        },
{
    if n <= data.len() && pos <= data.len() - n {
        Ok(pos + n)
    } else {
        Err(Mp4BoxError::Truncated)
    }
}

/// One byte of the buffer, read without advancing.
pub open spec fn parse_u8(s: Seq<u8>, pos: int) -> Result<(u8, int), Mp4BoxError> {
    if 0 <= pos && pos + 1 <= s.len() {
        Ok((s[pos], pos + 1))
    } else {
        Err(Mp4BoxError::Truncated)
    }
}

/// Reads one byte.
pub fn read_u8(data: &Vec<u8>, pos: usize) -> (r: Result<(u8, usize), Mp4BoxError>)
    ensures
        parse_result(r) == parse_u8(data@, pos as int),
{
    if pos < data.len() {
        Ok((data[pos], pos + 1))
    } else {
        Err(Mp4BoxError::Truncated)
    }
}

/// Two big-endian bytes of the buffer, decoded as a 16-bit value.
pub open spec fn parse_u16(s: Seq<u8>, pos: int) -> Result<(u16, int), Mp4BoxError> {
    if 0 <= pos && pos + 2 <= s.len() {
        Ok((spec_u16_from_be(s.subrange(pos, pos + 2)), pos + 2))
    } else {
        Err(Mp4BoxError::Truncated)
    }
}

/// Reads a big-endian 16-bit value.
pub fn read_u16(data: &Vec<u8>, pos: usize) -> (r: Result<(u16, usize), Mp4BoxError>)
    ensures
        parse_result(r) == parse_u16(data@, pos as int),
{
    if data.len() >= 2 && pos <= data.len() - 2 {
        let b0 = data[pos];
        let b1 = data[pos + 1];
        let v = ((b0 as u16) << 8) | (b1 as u16);
        proof {
            assert(data@.subrange(pos as int, pos as int + 2) =~= seq![b0, b1]);
        }
        Ok((v, pos + 2))
    } else {
        Err(Mp4BoxError::Truncated)
    }
}

/// Three big-endian bytes of the buffer, decoded as a 24-bit value.
pub open spec fn parse_u24(s: Seq<u8>, pos: int) -> Result<(u32, int), Mp4BoxError> {
    if 0 <= pos && pos + 3 <= s.len() {
        Ok((spec_u24_from_be(s.subrange(pos, pos + 3)), pos + 3))
    } else {
        Err(Mp4BoxError::Truncated)
    }
}

/// Reads a big-endian 24-bit value, zero-extended into a `u32`.
pub fn read_u24(data: &Vec<u8>, pos: usize) -> (r: Result<(u32, usize), Mp4BoxError>)
    ensures
        parse_result(r) == parse_u24(data@, pos as int),
{
    if data.len() >= 3 && pos <= data.len() - 3 {
        let b0 = data[pos];
        let b1 = data[pos + 1];
        let b2 = data[pos + 2];
        let v = ((b0 as u32) << 16) | ((b1 as u32) << 8) | (b2 as u32);
        proof {
            assert(data@.subrange(pos as int, pos as int + 3) =~= seq![b0, b1, b2]);
        }
        Ok((v, pos + 3))
    } else {
        Err(Mp4BoxError::Truncated)
    }
}

/// Four big-endian bytes of the buffer, decoded as a 32-bit value.
pub open spec fn parse_u32(s: Seq<u8>, pos: int) -> Result<(u32, int), Mp4BoxError> {
    if 0 <= pos && pos + 4 <= s.len() {
        Ok((spec_u32_from_be(s.subrange(pos, pos + 4)), pos + 4))
    } else {
        Err(Mp4BoxError::Truncated)
    }
}

/// Reads a big-endian 32-bit value.
pub fn read_u32(data: &Vec<u8>, pos: usize) -> (r: Result<(u32, usize), Mp4BoxError>)
    ensures
        parse_result(r) == parse_u32(data@, pos as int),
{
    if data.len() >= 4 && pos <= data.len() - 4 {
        let b0 = data[pos];
        let b1 = data[pos + 1];
        let b2 = data[pos + 2];
        let b3 = data[pos + 3];
        let v = ((b0 as u32) << 24) | ((b1 as u32) << 16) | ((b2 as u32) << 8) | (b3 as u32);
        proof {
            assert(data@.subrange(pos as int, pos as int + 4) =~= seq![b0, b1, b2, b3]);
        }
        Ok((v, pos + 4))
    } else {
        Err(Mp4BoxError::Truncated)
    }
}

/// Eight big-endian bytes of the buffer, decoded as a 64-bit value.
pub open spec fn parse_u64(s: Seq<u8>, pos: int) -> Result<(u64, int), Mp4BoxError> {
    if 0 <= pos && pos + 8 <= s.len() {
        Ok((spec_u64_from_be(s.subrange(pos, pos + 8)), pos + 8))
    } else {
        Err(Mp4BoxError::Truncated)
    }
}

/// Reads a big-endian 64-bit value.
pub fn read_u64(data: &Vec<u8>, pos: usize) -> (r: Result<(u64, usize), Mp4BoxError>)
    ensures
        parse_result(r) == parse_u64(data@, pos as int),
{
    if data.len() >= 8 && pos <= data.len() - 8 {
        let b0 = data[pos];
        let b1 = data[pos + 1];
        let b2 = data[pos + 2];
        let b3 = data[pos + 3];
        let b4 = data[pos + 4];
        let b5 = data[pos + 5];
        let b6 = data[pos + 6];
        let b7 = data[pos + 7];
        let v = ((b0 as u64) << 56) | ((b1 as u64) << 48) | ((b2 as u64) << 40) | ((b3 as u64)
            << 32) | ((b4 as u64) << 24) | ((b5 as u64) << 16) | ((b6 as u64) << 8) | (b7 as u64);
        proof {
            assert(data@.subrange(pos as int, pos as int + 8) =~= seq![b0, b1, b2, b3, b4, b5, b6, b7]);
        }
        Ok((v, pos + 8))
    } else {
        Err(Mp4BoxError::Truncated)
    }
}

/// Reads a copy of `n` bytes starting at `pos`.
pub fn read_bytes(data: &Vec<u8>, pos: usize, n: usize) -> (r: Result<
    (Vec<u8>, usize),
    Mp4BoxError,
>)
    ensures
        match r {
            Ok((v, end)) => pos + n <= data@.len() && v@ == data@.subrange(
                pos as int,
                pos as int + n as int,
            ) && end == pos + n,
            Err(e) => pos + n > data@.len() && e == Mp4BoxError::Truncated,
        },
{
    if n <= data.len() && pos <= data.len() - n {
        let mut v: Vec<u8> = Vec::new();
        let mut i: usize = 0;
        while i < n
            invariant
                i <= n,
                n <= data@.len(),
                pos + n <= data@.len(),
                pos + n <= usize::MAX,
                v@ == data@.subrange(pos as int, pos as int + i as int),
            decreases n - i,
        {
            v.push(data[pos + i]);
            i = i + 1;
            proof {
                assert(v@ =~= data@.subrange(pos as int, pos as int + i as int));
            }
        }
        Ok((v, pos + n))
    } else {
        Err(Mp4BoxError::Truncated)
    }
}

} // verus!
