//! The two box-framing primitives: the plain box header (size + type code)
//! and the full-box header, which adds a version byte and a 24-bit flags
//! field packed into a 32-bit word on the wire.

use vstd::prelude::*;

use crate::Mp4BoxError;
use crate::parse_result;
use crate::bytes::{
    lemma_u24_roundtrip, lemma_u32_roundtrip, parse_u24, parse_u32, parse_u8, push_u24, push_u32,
    push_u8, read_u24, read_u32, read_u8, spec_u24_to_be, spec_u32_from_be, spec_u32_to_be,
};

verus! {

/// The plain box header: a four-character type code, preceded on the wire by
/// the box's total size (header and body together) as a 32-bit value.
#[derive(Debug, Clone, Copy, PartialEq, Eq, Structural)]
pub struct Boks {
    /// The type code, packed big-endian into a `u32`.
    pub name: u32,
    /// The declared total size.  A freshly built header carries zero; after a
    /// read it carries the size field found on the wire.
    pub size: u64,
}

/// The eight header bytes of a box with the given type code and total size.
pub open spec fn spec_boks_bytes(name: u32, total: int) -> Seq<u8> {
    spec_u32_to_be(total as u32) + spec_u32_to_be(name)
}

impl Boks {
    /// A header for a box of the given type, with no size recorded yet.
    pub fn new(name: u32) -> (r: Self)
        ensures
            r.name == name,
            r.size == 0,
    {
        Boks { name, size: 0 }
    }

    /// Emits the header: the caller-computed total size, then the type code.
    pub fn write(&self, out: &mut Vec<u8>, size: u64)
        requires
            size <= u32::MAX,
        ensures
            final(out)@ == old(out)@ + spec_boks_bytes(self.name, size as int),
    {
        push_u32(out, size as u32);
        push_u32(out, self.name);
        proof {
            assert(out@ =~= old(out)@ + spec_boks_bytes(self.name, size as int));
        }
    }

    /// The total size of a box whose body occupies `body` bytes.
    pub fn size(&self, body: u64) -> (r: u64)
        requires
            body + 8 <= u64::MAX,
        ensures
            r == body + 8,
    {
        8 + body
    }

    /// What reading a header at `pos` yields: the declared size and type
    /// code, the type code checked against the expected one, and the declared
    /// size checked to cover at least the header itself.
    pub open spec fn parse(s: Seq<u8>, pos: int, expected: u32) -> Result<
        (Boks, int),
        Mp4BoxError,
    > {
        match parse_u32(s, pos) {
            Err(e) => Err(e),
            Ok((size, p1)) => match parse_u32(s, p1) {
                Err(e) => Err(e),
                Ok((name, p2)) => if name != expected {
                    Err(Mp4BoxError::UnexpectedBoxType(expected, name))
                } else if size < 8 {
                    Err(Mp4BoxError::Truncated)
                } else {
                    Ok((Boks { name, size: size as u64 }, p2))
                },
            },
        }
    }

    /// Reads a header whose type code must be `expected`.
    pub fn read_named(data: &Vec<u8>, pos: usize, expected: u32) -> (r: Result<
        (Boks, usize),
        Mp4BoxError,
    >)
        ensures
            parse_result(r) == Self::parse(data@, pos as int, expected),
    {
        let (size, p1) = match read_u32(data, pos) {
            Ok(x) => x,
            Err(e) => {
                return Err(e);
            },
        };
        let (name, p2) = match read_u32(data, p1) {
            Ok(x) => x,
            Err(e) => {
                return Err(e);
            },
        };
        if name != expected {
            Err(Mp4BoxError::UnexpectedBoxType(expected, name))
        } else if size < 8 {
            Err(Mp4BoxError::Truncated)
        } else {
            Ok((Boks { name, size: size as u64 }, p2))
        }
    }

    /// What reading a header of whatever type at `pos` yields.
    pub open spec fn parse_any(s: Seq<u8>, pos: int) -> Result<(Boks, int), Mp4BoxError> {
        match parse_u32(s, pos) {
            Err(e) => Err(e),
            Ok((size, p1)) => match parse_u32(s, p1) {
                Err(e) => Err(e),
                Ok((name, p2)) => if size < 8 {
                    Err(Mp4BoxError::Truncated)
                } else {
                    Ok((Boks { name, size: size as u64 }, p2))
                },
            },
        }
    }

    /// Reads a header without constraining its type code.
    pub fn read(data: &Vec<u8>, pos: usize) -> (r: Result<(Boks, usize), Mp4BoxError>)
        ensures
            parse_result(r) == Self::parse_any(data@, pos as int),
    {
        let (size, p1) = match read_u32(data, pos) {
            Ok(x) => x,
            Err(e) => {
                return Err(e);
            },
        };
        let (name, p2) = match read_u32(data, p1) {
            Ok(x) => x,
            Err(e) => {
                return Err(e);
            },
        };
        if size < 8 {
            Err(Mp4BoxError::Truncated)
        } else {
            Ok((Boks { name, size: size as u64 }, p2))
        }
    }
}

/// A buffer long enough for a header but carrying the wrong type code is
/// rejected with `UnexpectedBoxType`, naming the expected and the actual
/// code.
pub proof fn lemma_boks_rejects_wrong_type(s: Seq<u8>, pos: int, expected: u32)
    requires
        0 <= pos,
        pos + 8 <= s.len(),
        spec_u32_from_be(s.subrange(pos + 4, pos + 8)) != expected,
    ensures
        Boks::parse(s, pos, expected) == Err::<(Boks, int), Mp4BoxError>(
            Mp4BoxError::UnexpectedBoxType(
                expected,
                spec_u32_from_be(s.subrange(pos + 4, pos + 8)),
            ),
        ),
{
}

/// The full-box header: a plain box header followed by a version byte and a
/// flags field occupying the low 24 bits of a 32-bit word.
#[derive(Debug, Clone, Copy, PartialEq, Eq, Structural)]
pub struct FullBox {
    /// The underlying plain header.
    pub boks: Boks,
    /// The version byte.
    pub version: u8,
    /// The flags, always below `0x100_0000`.
    pub flags: u32,
}

/// The twelve header bytes of a full box.
pub open spec fn spec_fullbox_bytes(name: u32, total: int, version: u8, flags: u32) -> Seq<u8> {
    spec_boks_bytes(name, total) + seq![version] + spec_u24_to_be(flags)
}

impl FullBox {
    /// A header for a full box of the given type, version and flags.
    pub fn new(name: u32, version: u8, flags: u32) -> (r: Self)
        ensures
            r.boks.name == name,
            r.boks.size == 0,
            r.version == version,
            r.flags == flags,
    {
        FullBox { boks: Boks::new(name), version, flags }
    }

    /// Emits the header: size and type code, then the version byte and the
    /// three flag bytes.
    pub fn write(&self, out: &mut Vec<u8>, size: u64)
        requires
            size <= u32::MAX,
        ensures
            final(out)@ == old(out)@ + spec_fullbox_bytes(
                self.boks.name,
                size as int,
                self.version,
                self.flags,
            ),
    {
        self.boks.write(out, size);
        push_u8(out, self.version);
        push_u24(out, self.flags);
        proof {
            assert(out@ =~= old(out)@ + spec_fullbox_bytes(
                self.boks.name,
                size as int,
                self.version,
                self.flags,
            ));
        }
    }

    /// The total size of a full box whose body occupies `body` bytes.
    pub fn size(&self, body: u64) -> (r: u64)
        requires
            body + 12 <= u64::MAX,
        ensures
            r == body + 12,
    {
        12 + body
    }

    /// What reading a full-box header at `pos` yields.  The declared size
    /// must cover the twelve header bytes.
    pub open spec fn parse(s: Seq<u8>, pos: int, expected: u32) -> Result<
        (FullBox, int),
        Mp4BoxError,
    > {
        match Boks::parse(s, pos, expected) {
            Err(e) => Err(e),
            Ok((boks, p1)) => match parse_u8(s, p1) {
                Err(e) => Err(e),
                Ok((version, p2)) => match parse_u24(s, p2) {
                    Err(e) => Err(e),
                    Ok((flags, p3)) => if boks.size < 12 {
                        Err(Mp4BoxError::Truncated)
                    } else {
                        Ok((FullBox { boks, version, flags }, p3))
                    },
                },
            },
        }
    }

    /// Reads a full-box header whose type code must be `expected`.
    pub fn read_named(data: &Vec<u8>, pos: usize, expected: u32) -> (r: Result<
        (FullBox, usize),
        Mp4BoxError,
    >)
        ensures
            parse_result(r) == Self::parse(data@, pos as int, expected),
    {
        let (boks, p1) = match Boks::read_named(data, pos, expected) {
            Ok(x) => x,
            Err(e) => {
                return Err(e);
            },
        };
        let (version, p2) = match read_u8(data, p1) {
            Ok(x) => x,
            Err(e) => {
                return Err(e);
            },
        };
        let (flags, p3) = match read_u24(data, p2) {
            Ok(x) => x,
            Err(e) => {
                return Err(e);
            },
        };
        if boks.size < 12 {
            Err(Mp4BoxError::Truncated)
        } else {
            Ok((FullBox { boks, version, flags }, p3))
        }
    }
}

/// Parsing a buffer that begins with the twelve header bytes of a full box
/// recovers the type code, size, version and flags that were written.
pub proof fn lemma_parse_fullbox_prefix(s: Seq<u8>, name: u32, total: u64, version: u8, flags: u32)
    requires
        12 <= total <= u32::MAX,
        flags < 0x100_0000,
        s.len() >= 12,
        s.subrange(0, 12) == spec_fullbox_bytes(name, total as int, version, flags),
    ensures
        FullBox::parse(s, 0, name) == Ok::<(FullBox, int), Mp4BoxError>(
            (FullBox { boks: Boks { name, size: total }, version, flags }, 12),
        ),
{
    let h = spec_fullbox_bytes(name, total as int, version, flags);
    assert forall|i: int| 0 <= i < 12 implies s[i] == h[i] by {
        assert(s.subrange(0, 12)[i] == s[i]);
    }
    assert(s.subrange(0, 4) =~= spec_u32_to_be(total as u32));
    assert(s.subrange(4, 8) =~= spec_u32_to_be(name));
    assert(s.subrange(9, 12) =~= spec_u24_to_be(flags));
    lemma_u32_roundtrip(total as u32);
    lemma_u32_roundtrip(name);
    lemma_u24_roundtrip(flags);
    assert(s[8] == version);
    assert(parse_u32(s, 0) == Ok::<(u32, int), Mp4BoxError>((total as u32, 4)));
    assert(parse_u32(s, 4) == Ok::<(u32, int), Mp4BoxError>((name, 8)));
    assert(parse_u8(s, 8) == Ok::<(u8, int), Mp4BoxError>((version, 9)));
    assert(parse_u24(s, 9) == Ok::<(u32, int), Mp4BoxError>((flags, 12)));
}

} // verus!
