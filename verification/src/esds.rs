//! The elementary stream descriptor tree carried in the `esds` box: the ES
//! descriptor wraps a decoder configuration descriptor (with an optional
//! decoder-specific payload) and a synchronization layer configuration
//! descriptor.
//!
//! Presence of the optional decoder-specific descriptor is decided by a
//! non-consuming peek at the upcoming tag, so a following descriptor of a
//! different kind is left unconsumed for the next reader.

use vstd::prelude::*;

use crate::Mp4BoxError;
use crate::parse_result;
use crate::boks::{spec_fullbox_bytes, FullBox};
use crate::bytes::{
    parse_u16, parse_u24, parse_u32, parse_u8, push_bytes, push_u16, push_u24, push_u32, push_u8,
    read_bytes, read_u16, read_u24, read_u32, read_u8, skip_bytes, spec_skip, spec_u16_to_be,
    spec_u24_to_be, spec_u32_to_be,
};
use crate::descriptor::{
    spec_desc_header_bytes, spec_desc_total, BaseDescriptor, DECODER_CONFIG_DESCR_TAG,
    DECODER_SPECIFIC_DESCR_TAG, ES_DESCR_TAG, MAX_DESC_SIZE, SL_CONFIG_DESCR_TAG,
};
use vstd::seq_lib::lemma_concat_associative;

verus! {

/// The `esds` type code.
pub const ESDS_NAME: u32 = 0x6573_6473;

/// The decoder-specific information descriptor: an opaque payload such as an
/// AudioSpecificConfig, handed over by the caller.
#[derive(Debug)]
pub struct DecoderSpecificInfo {
    /// The descriptor header, tag `DECODER_SPECIFIC_DESCR_TAG`.
    pub descriptor: BaseDescriptor,
    /// The payload bytes; never empty.
    pub decoder_specific: Vec<u8>,
}

impl DecoderSpecificInfo {
    /// A built descriptor carries the decoder-specific tag and a payload
    /// that is neither empty nor too long for the size encoding.
    pub open spec fn wf(self) -> bool {
        &&& self.descriptor.tag == DECODER_SPECIFIC_DESCR_TAG
        &&& 1 <= self.decoder_specific@.len() <= MAX_DESC_SIZE
    }

    /// The exact bytes this descriptor serializes to: header, then payload.
    pub open spec fn spec_bytes(self) -> Seq<u8> {
        spec_desc_header_bytes(self.descriptor.tag, self.decoder_specific@.len() as u32)
            + self.decoder_specific@
    }

    /// A descriptor for the given payload, which must be non-empty and small
    /// enough for the size encoding.
    pub fn new(decoder_specific: Vec<u8>) -> (r: Self)
        requires
            1 <= decoder_specific@.len() <= MAX_DESC_SIZE,
        ensures
            r.wf(),
            r.decoder_specific@ == decoder_specific@,
    {
        DecoderSpecificInfo {
            descriptor: BaseDescriptor::new(DECODER_SPECIFIC_DESCR_TAG),
            decoder_specific,
        }
    }

    /// Appends exactly the serialized bytes of this descriptor.
    fn write(&self, out: &mut Vec<u8>)
        requires
            self.wf(),
        ensures
            final(out)@ == old(out)@ + self.spec_bytes(),
    {
        let total = self.total_size();
        proof {
            assert(spec_desc_total(self.decoder_specific@.len() as u32) == total as int);
        }
        self.descriptor.write(out, total);
        proof {
            assert(out@ == old(out)@ + spec_desc_header_bytes(
                self.descriptor.tag,
                self.decoder_specific@.len() as u32,
            ));
        }
        push_bytes(out, &self.decoder_specific);
        proof {
            lemma_concat_associative(
                old(out)@,
                spec_desc_header_bytes(
                    self.descriptor.tag,
                    self.decoder_specific@.len() as u32,
                ),
                self.decoder_specific@,
            );
        }
    }

    /// The number of bytes `write` appends.
    pub fn total_size(&self) -> (r: u64)
        requires
            self.wf(),
        ensures
            r == self.spec_bytes().len(),
    {
        self.descriptor.size(self.size())
    }

    /// The body size: the payload length.
    fn size(&self) -> (r: u64)
        ensures
            r == self.decoder_specific@.len(),
    {
        self.decoder_specific.len() as u64
    }
}

/// The synchronization layer configuration descriptor.  Only the reserved
/// "no SL packetization" profile is modeled: the body is the single
/// predefined byte `2`.
#[derive(Debug, Clone, Copy, PartialEq, Eq, Structural)]
pub struct SlConfigDescriptor {
    /// The descriptor header, tag `SL_CONFIG_DESCR_TAG`.
    pub descriptor: BaseDescriptor,
}

impl SlConfigDescriptor {
    /// A built descriptor carries the SL configuration tag.
    pub open spec fn wf(self) -> bool {
        self.descriptor.tag == SL_CONFIG_DESCR_TAG
    }

    /// The exact bytes this descriptor serializes to: header, then the
    /// predefined byte.
    pub open spec fn spec_bytes(self) -> Seq<u8> {
        spec_desc_header_bytes(self.descriptor.tag, 1) + seq![2u8]
    }

    /// A descriptor for the predefined profile.
    pub fn new() -> (r: Self)
        ensures
            r.wf(),
    {
        SlConfigDescriptor { descriptor: BaseDescriptor::new(SL_CONFIG_DESCR_TAG) }
    }

    /// Appends exactly the serialized bytes of this descriptor.
    pub fn write(&self, out: &mut Vec<u8>)
        ensures
            final(out)@ == old(out)@ + self.spec_bytes(),
    {
        let total = self.total_size();
        proof {
            assert(spec_desc_total(1) == total as int);
        }
        self.descriptor.write(out, total);
        push_u8(out, 2);
        proof {
            lemma_concat_associative(
                old(out)@,
                spec_desc_header_bytes(self.descriptor.tag, 1),
                seq![2u8],
            );
        }
    }

    /// The number of bytes `write` appends.
    pub fn total_size(&self) -> (r: u64)
        ensures
            r == self.spec_bytes().len(),
    {
        self.descriptor.size(self.size())
    }

    /// The body size: the predefined byte.
    fn size(&self) -> (r: u64)
        ensures
            r == 1,
    {
        1
    }

    /// What reading an SL configuration descriptor at `pos` yields; its body
    /// is skipped, since only the predefined profile is modeled.
    pub open spec fn parse(s: Seq<u8>, pos: int) -> Result<(SlConfigDescriptor, int), Mp4BoxError> {
        match BaseDescriptor::parse(s, pos, SL_CONFIG_DESCR_TAG) {
            Err(e) => Err(e),
            Ok((descriptor, p1)) => match spec_skip(s, p1, descriptor.size as int) {
                Err(e) => Err(e),
                Ok(p2) => Ok((SlConfigDescriptor { descriptor }, p2)),
            },
        }
    }

    /// Reads an SL configuration descriptor.
    pub fn read(data: &Vec<u8>, pos: usize) -> (r: Result<
        (SlConfigDescriptor, usize),
        Mp4BoxError,
    >)
        ensures
            parse_result(r) == Self::parse(data@, pos as int),
    {
        let (descriptor, p1) = match BaseDescriptor::read(data, pos, SL_CONFIG_DESCR_TAG) {
            Ok(x) => x,
            Err(e) => {
                return Err(e);
            },
        };
        let p2 = match skip_bytes(data, p1, descriptor.size as usize) {
            Ok(x) => x,
            Err(e) => {
                return Err(e);
            },
        };
        Ok((SlConfigDescriptor { descriptor }, p2))
    }
}

/// The fields a decoder configuration descriptor read yields, with the
/// decoder-specific payload as a byte sequence.
pub struct DecoderConfigParts {
    /// The descriptor header as read.
    pub descriptor: BaseDescriptor,
    /// The object type indication byte.
    pub object_type_indication: u8,
    /// The decoding buffer size.
    pub buffer_size_db: u32,
    /// The maximum bitrate.
    pub max_bitrate: u32,
    /// The average bitrate.
    pub avg_bitrate: u32,
    /// The decoder-specific descriptor, when the next tag announced one.
    pub decoder_specific: Option<(BaseDescriptor, Seq<u8>)>,
}

/// The decoder configuration descriptor.
#[derive(Debug)]
pub struct DecoderConfigDescriptor {
    /// The descriptor header, tag `DECODER_CONFIG_DESCR_TAG`.
    pub descriptor: BaseDescriptor,
    /// The object type indication.
    pub object_type_indication: u8,
    /// The decoding buffer size, a 24-bit value.
    pub buffer_size_db: u32,
    /// The maximum bitrate.
    pub max_bitrate: u32,
    /// The average bitrate.
    pub avg_bitrate: u32,
    /// The optional decoder-specific payload.
    pub decoder_specific: Option<DecoderSpecificInfo>,
}

/// The bytes of the optional decoder-specific descriptor.
pub open spec fn spec_opt_dsi_bytes(o: Option<DecoderSpecificInfo>) -> Seq<u8> {
    match o {
        Some(d) => d.spec_bytes(),
        None => Seq::empty(),
    }
}

/// Whether a built decoder configuration descriptor carries the fields a
/// read yielded.
pub open spec fn dcd_matches(d: DecoderConfigDescriptor, q: DecoderConfigParts) -> bool {
    &&& d.descriptor == q.descriptor
    &&& d.object_type_indication == q.object_type_indication
    &&& d.buffer_size_db == q.buffer_size_db
    &&& d.max_bitrate == q.max_bitrate
    &&& d.avg_bitrate == q.avg_bitrate
    &&& match (d.decoder_specific, q.decoder_specific) {
        (Some(i), Some((bd, payload))) => i.descriptor == bd && i.decoder_specific@ == payload,
        (None, None) => true,
        _ => false,
    }
}

impl DecoderConfigDescriptor {
    /// A built descriptor carries the decoder configuration tag, a 24-bit
    /// buffer size, a well-formed decoder-specific payload when present, and
    /// a body small enough for the size encoding.
    pub open spec fn wf(self) -> bool {
        &&& self.descriptor.tag == DECODER_CONFIG_DESCR_TAG
        &&& self.buffer_size_db < 0x100_0000
        &&& (self.decoder_specific matches Some(d) ==> d.wf())
        &&& 13 + spec_opt_dsi_bytes(self.decoder_specific).len() <= MAX_DESC_SIZE
    }

    /// The body bytes: the object type indication, the packed stream-type
    /// byte (stream type 5, upstream clear, reserved set), the buffer size,
    /// the two bitrates, then the optional decoder-specific descriptor.
    pub open spec fn spec_body(self) -> Seq<u8> {
        seq![self.object_type_indication] + seq![0x15u8] + spec_u24_to_be(self.buffer_size_db)
            + spec_u32_to_be(self.max_bitrate) + spec_u32_to_be(self.avg_bitrate)
            + spec_opt_dsi_bytes(self.decoder_specific)
    }

    /// The exact bytes this descriptor serializes to.
    pub open spec fn spec_bytes(self) -> Seq<u8> {
        spec_desc_header_bytes(self.descriptor.tag, self.spec_body().len() as u32)
            + self.spec_body()
    }

    /// A descriptor for the given object type and payload; buffer size and
    /// bitrates start at zero.
    pub fn new(object_type_indication: u8, decoder_specific: Option<DecoderSpecificInfo>) -> (r:
        Self)
        requires
            decoder_specific matches Some(d) ==> d.wf() && 13 + d.spec_bytes().len()
                <= MAX_DESC_SIZE,
        ensures
            r.wf(),
            r.object_type_indication == object_type_indication,
            r.buffer_size_db == 0,
            r.max_bitrate == 0,
            r.avg_bitrate == 0,
            r.decoder_specific == decoder_specific,
    {
        DecoderConfigDescriptor {
            descriptor: BaseDescriptor::new(DECODER_CONFIG_DESCR_TAG),
            object_type_indication,
            buffer_size_db: 0,
            max_bitrate: 0,
            avg_bitrate: 0,
            decoder_specific,
        }
    }

    /// The body size: thirteen fixed bytes plus the optional payload.
    fn size(&self) -> (r: u64)
        requires
            self.wf(),
        ensures
            r == self.spec_body().len(),
    {
        13 + (match &self.decoder_specific {
            Some(d) => d.total_size(),
            None => 0,
        })
    }

    /// The number of bytes `write` appends.
    pub fn total_size(&self) -> (r: u64)
        requires
            self.wf(),
        ensures
            r == self.spec_bytes().len(),
    {
        self.descriptor.size(self.size())
    }

    /// Appends exactly the serialized bytes of this descriptor.
    fn write(&self, out: &mut Vec<u8>)
        requires
            self.wf(),
        ensures
            final(out)@ == old(out)@ + self.spec_bytes(),
    {
        let total = self.total_size();
        let mut v: Vec<u8> = Vec::new();
        push_u8(&mut v, self.object_type_indication);
        proof {
            assert(v@ =~= seq![self.object_type_indication]);
        }
        push_u8(&mut v, 0x15);
        push_u24(&mut v, self.buffer_size_db);
        push_u32(&mut v, self.max_bitrate);
        push_u32(&mut v, self.avg_bitrate);
        let ghost fixed = seq![self.object_type_indication] + seq![0x15u8] + spec_u24_to_be(
            self.buffer_size_db,
        ) + spec_u32_to_be(self.max_bitrate) + spec_u32_to_be(self.avg_bitrate);
        if let Some(d) = &self.decoder_specific {
            d.write(&mut v);
        } else {
            proof {
                assert(fixed + spec_opt_dsi_bytes(self.decoder_specific) =~= fixed);
            }
        }
        assert(v@ == self.spec_body());
        proof {
            assert(spec_desc_total(self.spec_body().len() as u32) == total as int);
        }
        self.descriptor.write(out, total);
        push_bytes(out, &v);
        proof {
            lemma_concat_associative(
                old(out)@,
                spec_desc_header_bytes(self.descriptor.tag, self.spec_body().len() as u32),
                self.spec_body(),
            );
        }
    }

    /// What reading a decoder configuration descriptor at `pos` yields.  The
    /// stream-type byte is read and discarded.  A decoder-specific
    /// descriptor is taken to be present exactly when a peek at the next
    /// descriptor header shows its tag; any other tag, or no room for a
    /// header, means absence and leaves the position unmoved.
    pub open spec fn parse(s: Seq<u8>, pos: int) -> Result<
        (DecoderConfigParts, int),
        Mp4BoxError,
    > {
        match BaseDescriptor::parse(s, pos, DECODER_CONFIG_DESCR_TAG) {
            Err(e) => Err(e),
            Ok((descriptor, p1)) => match parse_u8(s, p1) {
                Err(e) => Err(e),
                Ok((object_type_indication, p2)) => match parse_u8(s, p2) {
                    Err(e) => Err(e),
                    Ok((_packed, p3)) => match parse_u24(s, p3) {
                        Err(e) => Err(e),
                        Ok((buffer_size_db, p4)) => match parse_u32(s, p4) {
                            Err(e) => Err(e),
                            Ok((max_bitrate, p5)) => match parse_u32(s, p5) {
                                Err(e) => Err(e),
                                Ok((avg_bitrate, p6)) => {
                                    let absent = DecoderConfigParts {
                                        descriptor,
                                        object_type_indication,
                                        buffer_size_db,
                                        max_bitrate,
                                        avg_bitrate,
                                        decoder_specific: None,
                                    };
                                    match BaseDescriptor::parse_header(s, p6) {
                                        Err(_) => Ok((absent, p6)),
                                        Ok((tag, _sz, _p7)) => if tag
                                            != DECODER_SPECIFIC_DESCR_TAG {
                                            Ok((absent, p6))
                                        } else {
                                            match BaseDescriptor::parse(
                                                s,
                                                p6,
                                                DECODER_SPECIFIC_DESCR_TAG,
                                            ) {
                                                Err(e) => Err(e),
                                                Ok((d, p7)) => if p7 + d.size <= s.len() {
                                                    Ok(
                                                        (
                                                            DecoderConfigParts {
                                                                decoder_specific: Some(
                                                                    (
                                                                        d,
                                                                        s.subrange(
                                                                            p7,
                                                                            p7 + d.size,
                                                                        ),
                                                                    ),
                                                                ),
                                                                ..absent
                                                            },
                                                            p7 + d.size,
                                                        ),
                                                    )
                                                } else {
                                                    Err(Mp4BoxError::Truncated)
                                                },
                                            }
                                        },
                                    }
                                },
                            },
                        },
                    },
                },
            },
        }
    }

    /// Reads a decoder configuration descriptor.
    pub fn read(data: &Vec<u8>, pos: usize) -> (r: Result<
        (DecoderConfigDescriptor, usize),
        Mp4BoxError,
    >)
        ensures
            match r {
                Ok((d, end)) => Self::parse(data@, pos as int) matches Ok(q) && dcd_matches(d, q.0)
                    && end as int == q.1,
                Err(e) => Self::parse(data@, pos as int) == Err::<
                    (DecoderConfigParts, int),
                    Mp4BoxError,
                >(e),
            },
    {
        let (descriptor, p1) = match BaseDescriptor::read(data, pos, DECODER_CONFIG_DESCR_TAG) {
            Ok(x) => x,
            Err(e) => {
                return Err(e);
            },
        };
        let (object_type_indication, p2) = match read_u8(data, p1) {
            Ok(x) => x,
            Err(e) => {
                return Err(e);
            },
        };
        let (_packed, p3) = match read_u8(data, p2) {
            Ok(x) => x,
            Err(e) => {
                return Err(e);
            },
        };
        let (buffer_size_db, p4) = match read_u24(data, p3) {
            Ok(x) => x,
            Err(e) => {
                return Err(e);
            },
        };
        let (max_bitrate, p5) = match read_u32(data, p4) {
            Ok(x) => x,
            Err(e) => {
                return Err(e);
            },
        };
        let (avg_bitrate, p6) = match read_u32(data, p5) {
            Ok(x) => x,
            Err(e) => {
                return Err(e);
            },
        };
        let peeked = BaseDescriptor::peek(data, p6);
        let take_dsi = match &peeked {
            Ok(d) => d.tag == DECODER_SPECIFIC_DESCR_TAG,
            Err(_) => false,
        };
        if take_dsi {
            let (d, p7) = match BaseDescriptor::read(data, p6, DECODER_SPECIFIC_DESCR_TAG) {
                Ok(x) => x,
                Err(e) => {
                    proof {
                        assert(false);
                    }
                    return Err(e);
                },
            };
            let (payload, p8) = match read_bytes(data, p7, d.size as usize) {
                Ok(x) => x,
                Err(_) => {
                    return Err(Mp4BoxError::Truncated);
                },
            };
            Ok(
                (
                    DecoderConfigDescriptor {
                        descriptor,
                        object_type_indication,
                        buffer_size_db,
                        max_bitrate,
                        avg_bitrate,
                        decoder_specific: Some(
                            DecoderSpecificInfo { descriptor: d, decoder_specific: payload },
                        ),
                    },
                    p8,
                ),
            )
        } else {
            Ok(
                (
                    DecoderConfigDescriptor {
                        descriptor,
                        object_type_indication,
                        buffer_size_db,
                        max_bitrate,
                        avg_bitrate,
                        decoder_specific: None,
                    },
                    p6,
                ),
            )
        }
    }
}

/// The fields an ES descriptor read yields.
pub struct EsParts {
    /// The descriptor header as read.
    pub descriptor: BaseDescriptor,
    /// The elementary stream id.
    pub es_id: u16,
    /// The decoder configuration fields.
    pub decoder: DecoderConfigParts,
    /// The SL configuration descriptor.
    pub sl: SlConfigDescriptor,
}

/// Whether a built ES descriptor carries the fields a read yielded.
pub open spec fn esd_matches(d: EsDescriptor, q: EsParts) -> bool {
    &&& d.descriptor == q.descriptor
    &&& d.es_id == q.es_id
    &&& dcd_matches(d.decoder_descriptor, q.decoder)
    &&& d.sl_descriptor == q.sl
}

/// The elementary stream descriptor.
#[derive(Debug)]
pub struct EsDescriptor {
    /// The descriptor header, tag `ES_DESCR_TAG`.
    pub descriptor: BaseDescriptor,
    /// The elementary stream id.
    pub es_id: u16,
    /// The decoder configuration.
    pub decoder_descriptor: DecoderConfigDescriptor,
    /// The SL configuration.
    pub sl_descriptor: SlConfigDescriptor,
}

/// What skipping the three optional ES fields announced by the flags byte
/// yields: two bytes for a stream dependency, a length-prefixed URL, and two
/// bytes for an OCR stream id, in that order.
pub open spec fn spec_skip_es_optionals(s: Seq<u8>, pos: int, flags: u8) -> Result<
    int,
    Mp4BoxError,
> {
    let r1 = if flags & 0x01 != 0 {
        spec_skip(s, pos, 2)
    } else {
        Ok(pos)
    };
    match r1 {
        Err(e) => Err(e),
        Ok(p1) => {
            let r2 = if flags & 0x02 != 0 {
                match parse_u8(s, p1) {
                    Err(e) => Err(e),
                    Ok((len, p2)) => spec_skip(s, p2, len as int),
                }
            } else {
                Ok(p1)
            };
            match r2 {
                Err(e) => Err(e),
                Ok(p2) => if flags & 0x04 != 0 {
                    spec_skip(s, p2, 2)
                } else {
                    Ok(p2)
                },
            }
        },
    }
}

/// Skips the optional ES fields announced by the flags byte.
fn skip_es_optionals(data: &Vec<u8>, pos: usize, flags: u8) -> (r: Result<usize, Mp4BoxError>)
    ensures
        match r {
            Ok(p) => spec_skip_es_optionals(data@, pos as int, flags) == Ok::<int, Mp4BoxError>(
                p as int,
            ),
            Err(e) => spec_skip_es_optionals(data@, pos as int, flags) == Err::<int, Mp4BoxError>(
                e,
            ),
        },
{
    let p1 = if flags & 0x01 != 0 {
        match skip_bytes(data, pos, 2) {
            Ok(x) => x,
            Err(e) => {
                return Err(e);
            },
        }
    } else {
        pos
    };
    let p2 = if flags & 0x02 != 0 {
        let (len, q) = match read_u8(data, p1) {
            Ok(x) => x,
            Err(e) => {
                return Err(e);
            },
        };
        match skip_bytes(data, q, len as usize) {
            Ok(x) => x,
            Err(e) => {
                return Err(e);
            },
        }
    } else {
        p1
    };
    if flags & 0x04 != 0 {
        skip_bytes(data, p2, 2)
    } else {
        Ok(p2)
    }
}

impl EsDescriptor {
    /// A built descriptor carries the ES tag, well-formed children, and a
    /// body small enough for the size encoding.
    pub open spec fn wf(self) -> bool {
        &&& self.descriptor.tag == ES_DESCR_TAG
        &&& self.decoder_descriptor.wf()
        &&& self.sl_descriptor.wf()
        &&& 3 + self.decoder_descriptor.spec_bytes().len() + self.sl_descriptor.spec_bytes().len()
            <= MAX_DESC_SIZE
    }

    /// The body bytes: the stream id, a zero flags byte (none of the
    /// optional ES fields are written), the decoder configuration, then the
    /// SL configuration.
    pub open spec fn spec_body(self) -> Seq<u8> {
        spec_u16_to_be(self.es_id) + seq![0u8] + self.decoder_descriptor.spec_bytes()
            + self.sl_descriptor.spec_bytes()
    }

    /// The exact bytes this descriptor serializes to.
    pub open spec fn spec_bytes(self) -> Seq<u8> {
        spec_desc_header_bytes(self.descriptor.tag, self.spec_body().len() as u32)
            + self.spec_body()
    }

    /// A descriptor for the given stream id and decoder configuration; the
    /// SL configuration is the predefined profile.
    pub fn new(es_id: u16, decoder_descriptor: DecoderConfigDescriptor) -> (r: Self)
        requires
            decoder_descriptor.wf(),
            6 + decoder_descriptor.spec_bytes().len() <= MAX_DESC_SIZE,
        ensures
            r.wf(),
            r.es_id == es_id,
            r.decoder_descriptor == decoder_descriptor,
            r.sl_descriptor.wf(),
    {
        EsDescriptor {
            descriptor: BaseDescriptor::new(ES_DESCR_TAG),
            es_id,
            decoder_descriptor,
            sl_descriptor: SlConfigDescriptor::new(),
        }
    }

    /// The body size: stream id, flags byte, and the two children.
    fn size(&self) -> (r: u64)
        requires
            self.wf(),
        ensures
            r == self.spec_body().len(),
    {
        3 + self.decoder_descriptor.total_size() + self.sl_descriptor.total_size()
    }

    /// The number of bytes `write` appends.
    pub fn total_size(&self) -> (r: u64)
        requires
            self.wf(),
        ensures
            r == self.spec_bytes().len(),
    {
        self.descriptor.size(self.size())
    }

    /// Appends exactly the serialized bytes of this descriptor.
    pub fn write(&self, out: &mut Vec<u8>)
        requires
            self.wf(),
        ensures
            final(out)@ == old(out)@ + self.spec_bytes(),
    {
        let total = self.total_size();
        let mut v: Vec<u8> = Vec::new();
        push_u16(&mut v, self.es_id);
        proof {
            assert(v@ =~= spec_u16_to_be(self.es_id));
        }
        push_u8(&mut v, 0);
        self.decoder_descriptor.write(&mut v);
        self.sl_descriptor.write(&mut v);
        assert(v@ == self.spec_body());
        proof {
            assert(spec_desc_total(self.spec_body().len() as u32) == total as int);
        }
        self.descriptor.write(out, total);
        push_bytes(out, &v);
        proof {
            lemma_concat_associative(
                old(out)@,
                spec_desc_header_bytes(self.descriptor.tag, self.spec_body().len() as u32),
                self.spec_body(),
            );
        }
    }

    /// What reading an ES descriptor at `pos` yields.  The three optional
    /// fields the flags byte announces are skipped, not retained; the
    /// decoder and SL configurations follow.
    pub open spec fn parse(s: Seq<u8>, pos: int) -> Result<(EsParts, int), Mp4BoxError> {
        match BaseDescriptor::parse(s, pos, ES_DESCR_TAG) {
            Err(e) => Err(e),
            Ok((descriptor, p1)) => match parse_u16(s, p1) {
                Err(e) => Err(e),
                Ok((es_id, p2)) => match parse_u8(s, p2) {
                    Err(e) => Err(e),
                    Ok((flags, p3)) => match spec_skip_es_optionals(s, p3, flags) {
                        Err(e) => Err(e),
                        Ok(p4) => match DecoderConfigDescriptor::parse(s, p4) {
                            Err(e) => Err(e),
                            Ok((decoder, p5)) => match SlConfigDescriptor::parse(s, p5) {
                                Err(e) => Err(e),
                                Ok((sl, p6)) => Ok(
                                    (EsParts { descriptor, es_id, decoder, sl }, p6),
                                ),
                            },
                        },
                    },
                },
            },
        }
    }

    /// Reads an ES descriptor.
    pub fn read(data: &Vec<u8>, pos: usize) -> (r: Result<(EsDescriptor, usize), Mp4BoxError>)
        ensures
            match r {
                Ok((d, end)) => Self::parse(data@, pos as int) matches Ok(q) && esd_matches(d, q.0)
                    && end as int == q.1,
                Err(e) => Self::parse(data@, pos as int) == Err::<(EsParts, int), Mp4BoxError>(e),
            },
    {
        let (descriptor, p1) = match BaseDescriptor::read(data, pos, ES_DESCR_TAG) {
            Ok(x) => x,
            Err(e) => {
                return Err(e);
            },
        };
        let (es_id, p2) = match read_u16(data, p1) {
            Ok(x) => x,
            Err(e) => {
                return Err(e);
            },
        };
        let (flags, p3) = match read_u8(data, p2) {
            Ok(x) => x,
            Err(e) => {
                return Err(e);
            },
        };
        let p4 = match skip_es_optionals(data, p3, flags) {
            Ok(x) => x,
            Err(e) => {
                return Err(e);
            },
        };
        let (decoder_descriptor, p5) = match DecoderConfigDescriptor::read(data, p4) {
            Ok(x) => x,
            Err(e) => {
                return Err(e);
            },
        };
        let (sl_descriptor, p6) = match SlConfigDescriptor::read(data, p5) {
            Ok(x) => x,
            Err(e) => {
                return Err(e);
            },
        };
        Ok((EsDescriptor { descriptor, es_id, decoder_descriptor, sl_descriptor }, p6))
    }
}

/// The `esds` box: a version-0 full box wrapping one ES descriptor.
#[derive(Debug)]
pub struct EsdBox {
    /// The `esds` full-box header, version 0, no flags.
    pub full_box: FullBox,
    /// The ES descriptor.
    pub descriptor: EsDescriptor,
}

impl EsdBox {
    /// A built box carries the `esds` type code, version zero, no flags and
    /// a well-formed descriptor.
    pub open spec fn wf(self) -> bool {
        &&& self.full_box.boks.name == ESDS_NAME
        &&& self.full_box.version == 0
        &&& self.full_box.flags == 0
        &&& self.descriptor.wf()
    }

    /// The exact bytes this box serializes to.
    pub open spec fn spec_bytes(self) -> Seq<u8> {
        spec_fullbox_bytes(
            self.full_box.boks.name,
            12 + self.descriptor.spec_bytes().len() as int,
            self.full_box.version,
            self.full_box.flags,
        ) + self.descriptor.spec_bytes()
    }

    /// A box for the given descriptor.
    pub fn new(descriptor: EsDescriptor) -> (r: Self)
        requires
            descriptor.wf(),
        ensures
            r.wf(),
            r.descriptor == descriptor,
    {
        EsdBox { full_box: FullBox::new(ESDS_NAME, 0, 0), descriptor }
    }

    /// Appends exactly the serialized bytes of this box.
    pub fn write(&self, out: &mut Vec<u8>)
        requires
            self.wf(),
        ensures
            final(out)@ == old(out)@ + self.spec_bytes(),
    {
        let total = self.total_size();
        self.full_box.write(out, total);
        self.descriptor.write(out);
        proof {
            lemma_concat_associative(
                old(out)@,
                spec_fullbox_bytes(
                    self.full_box.boks.name,
                    12 + self.descriptor.spec_bytes().len() as int,
                    self.full_box.version,
                    self.full_box.flags,
                ),
                self.descriptor.spec_bytes(),
            );
        }
    }

    /// The number of bytes `write` appends.
    pub fn total_size(&self) -> (r: u64)
        requires
            self.wf(),
        ensures
            r == self.spec_bytes().len(),
    {
        self.full_box.size(self.size())
    }

    /// The body size: the descriptor's total size.
    fn size(&self) -> (r: u64)
        requires
            self.wf(),
        ensures
            r == self.descriptor.spec_bytes().len(),
    {
        self.descriptor.total_size()
    }

    /// What reading an `esds` box at `pos` yields: the header, then the ES
    /// descriptor; afterwards the position moves to the box's declared end,
    /// which must lie within the buffer.
    pub open spec fn parse(s: Seq<u8>, pos: int) -> Result<(FullBox, EsParts, int), Mp4BoxError> {
        match FullBox::parse(s, pos, ESDS_NAME) {
            Err(e) => Err(e),
            Ok((full_box, p1)) => match EsDescriptor::parse(s, p1) {
                Err(e) => Err(e),
                Ok((parts, _p2)) => if pos + full_box.boks.size > s.len() {
                    Err(Mp4BoxError::Truncated)
                } else {
                    Ok((full_box, parts, pos + full_box.boks.size))
                },
            },
        }
    }

    /// Reads an `esds` box.
    pub fn read(data: &Vec<u8>, pos: usize) -> (r: Result<(EsdBox, usize), Mp4BoxError>)
        ensures
            match r {
                Ok((b, end)) => Self::parse(data@, pos as int) matches Ok(q) && b.full_box == q.0
                    && esd_matches(b.descriptor, q.1) && end as int == q.2,
                Err(e) => Self::parse(data@, pos as int) == Err::<
                    (FullBox, EsParts, int),
                    Mp4BoxError,
                >(e),
            },
    {
        let (full_box, p1) = match FullBox::read_named(data, pos, ESDS_NAME) {
            Ok(x) => x,
            Err(e) => {
                return Err(e);
            },
        };
        let (descriptor, _p2) = match EsDescriptor::read(data, p1) {
            Ok(x) => x,
            Err(e) => {
                return Err(e);
            },
        };
        if full_box.boks.size > (data.len() - pos) as u64 {
            Err(Mp4BoxError::Truncated)
        } else {
            Ok((EsdBox { full_box, descriptor }, pos + full_box.boks.size as usize))
        }
    }
}

} // verus!
