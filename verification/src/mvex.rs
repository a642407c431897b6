//! The movie extends box (`mvex`): one `mehd` followed by one `trex` per
//! track.  Reading gathers `trex` children until the declared size is
//! exhausted or a different child type appears, then skips to the declared
//! end.

use vstd::prelude::*;

use crate::Mp4BoxError;
use crate::boks::{spec_boks_bytes, Boks};
use crate::bytes::{read_u32, spec_u32_from_be};
use crate::mehd::MovieExtendsHeaderBox;
use crate::trex::{TrackExtendsBox, TREX_NAME};
use vstd::seq_lib::lemma_concat_associative;

verus! {

/// The `mvex` type code.
pub const MVEX_NAME: u32 = 0x6D76_6578;

/// The movie extends box.
#[derive(Debug)]
pub struct MovieExtendsBox {
    /// The `mvex` box header.
    pub boks: Boks,
    /// The movie extends header.
    pub mehd: MovieExtendsHeaderBox,
    /// One track extends box per track, in the order they are written.
    pub trexs: Vec<TrackExtendsBox>,
}

/// The concatenated bytes of a sequence of `trex` boxes, in order.
pub open spec fn spec_trexs_bytes(trexs: Seq<TrackExtendsBox>) -> Seq<u8>
    decreases trexs.len(),
{
    if trexs.len() == 0 {
        Seq::empty()
    } else {
        spec_trexs_bytes(trexs.drop_last()) + trexs.last().spec_bytes()
    }
}

/// Extending a `trex` sequence by one box appends that box's bytes.
pub proof fn lemma_trexs_bytes_step(trexs: Seq<TrackExtendsBox>, i: int)
    requires
        0 <= i < trexs.len(),
    ensures
        spec_trexs_bytes(trexs.take(i + 1)) == spec_trexs_bytes(trexs.take(i))
            + trexs[i].spec_bytes(),
{
    assert(trexs.take(i + 1).drop_last() =~= trexs.take(i));
    assert(trexs.take(i + 1).last() == trexs[i]);
}

/// The bytes of a prefix of a `trex` sequence are never longer than the
/// bytes of the whole sequence.
pub proof fn lemma_trexs_bytes_prefix_len(trexs: Seq<TrackExtendsBox>, i: int)
    requires
        0 <= i <= trexs.len(),
    ensures
        spec_trexs_bytes(trexs.take(i)).len() <= spec_trexs_bytes(trexs).len(),
    decreases trexs.len() - i,
{
    if i == trexs.len() {
        assert(trexs.take(i) =~= trexs);
    } else {
        lemma_trexs_bytes_step(trexs, i);
        lemma_trexs_bytes_prefix_len(trexs, i + 1);
    }
}

/// What reading consecutive `trex` children between `pos` and `end` yields:
/// children are gathered while the next eight bytes fit before `end` and
/// carry the `trex` type code; a child reaching past `end` is an error.
pub open spec fn parse_trex_list(s: Seq<u8>, pos: int, end: int) -> Result<
    (Seq<TrackExtendsBox>, int),
    Mp4BoxError,
>
    decreases end - pos,
{
    if pos + 8 <= end && pos + 8 <= s.len() && spec_u32_from_be(s.subrange(pos + 4, pos + 8))
        == TREX_NAME {
        match TrackExtendsBox::parse(s, pos) {
            Err(e) => Err(e),
            Ok((t, p2)) => if p2 <= pos || p2 > end {
                Err(Mp4BoxError::Truncated)
            } else {
                match parse_trex_list(s, p2, end) {
                    Err(e) => Err(e),
                    Ok((rest, p3)) => Ok((seq![t] + rest, p3)),
                }
            },
        }
    } else {
        Ok((Seq::empty(), pos))
    }
}

/// Reads consecutive `trex` children between `pos` and `end`.
fn read_trex_list(data: &Vec<u8>, pos: usize, end: usize) -> (r: Result<
    (Vec<TrackExtendsBox>, usize),
    Mp4BoxError,
>)
    requires
        pos <= end,
        end <= data@.len(),
    ensures
        match r {
            Ok((v, p)) => parse_trex_list(data@, pos as int, end as int) matches Ok(q) && v@ == q.0
                && p as int == q.1,
            Err(e) => parse_trex_list(data@, pos as int, end as int) == Err::<
                (Seq<TrackExtendsBox>, int),
                Mp4BoxError,
            >(e),
        },
    decreases end - pos,
{
    if end >= 8 && pos <= end - 8 {
        let peeked = match read_u32(data, pos + 4) {
            Ok((name, _)) => name,
            Err(_) => {
                proof {
                    assert(false);
                }
                return Err(Mp4BoxError::Truncated);
            },
        };
        if peeked == TREX_NAME {
            let (t, p2) = match TrackExtendsBox::read(data, pos) {
                Ok(x) => x,
                Err(e) => {
                    return Err(e);
                },
            };
            if p2 <= pos || p2 > end {
                Err(Mp4BoxError::Truncated)
            } else {
                let (rest, p3) = match read_trex_list(data, p2, end) {
                    Ok(x) => x,
                    Err(e) => {
                        return Err(e);
                    },
                };
                let mut v = rest;
                v.insert(0, t);
                proof {
                    assert(v@ =~= seq![t] + rest@);
                }
                Ok((v, p3))
            }
        } else {
            Ok((Vec::new(), pos))
        }
    } else {
        Ok((Vec::new(), pos))
    }
}

impl MovieExtendsBox {
    /// The body bytes: the `mehd`, then every `trex`.
    pub open spec fn spec_body(self) -> Seq<u8> {
        self.mehd.spec_bytes() + spec_trexs_bytes(self.trexs@)
    }

    /// The exact bytes this box serializes to.
    pub open spec fn spec_bytes(self) -> Seq<u8> {
        spec_boks_bytes(self.boks.name, 8 + self.spec_body().len() as int) + self.spec_body()
    }

    /// A built box carries the `mvex` type code, well-formed children, and a
    /// total size that fits the 32-bit size field.
    pub open spec fn wf(self) -> bool {
        &&& self.boks.name == MVEX_NAME
        &&& self.mehd.wf()
        &&& (forall|i: int| 0 <= i < self.trexs@.len() ==> self.trexs@[i].wf())
        &&& 8 + self.spec_body().len() <= u32::MAX
    }

    /// A box for the given children.  The total size must fit the box
    /// header's 32-bit size field.
    pub fn new(mehd: MovieExtendsHeaderBox, trexs: Vec<TrackExtendsBox>) -> (r: MovieExtendsBox)
        requires
            mehd.wf(),
            forall|i: int| 0 <= i < trexs@.len() ==> trexs@[i].wf(),
            8 + mehd.spec_bytes().len() + spec_trexs_bytes(trexs@).len() <= u32::MAX,
        ensures
            r.wf(),
            r.mehd == mehd,
            r.trexs == trexs,
    {
        MovieExtendsBox { boks: Boks::new(MVEX_NAME), mehd, trexs }
    }

    /// What reading an `mvex` box at `pos` yields: the header, the `mehd`,
    /// and the `trex` children up to the declared end, which must lie within
    /// the buffer.  Trailing bytes up to the declared size are skipped.
    pub open spec fn parse(s: Seq<u8>, pos: int) -> Result<
        (Boks, MovieExtendsHeaderBox, Seq<TrackExtendsBox>, int),
        Mp4BoxError,
    > {
        match Boks::parse(s, pos, MVEX_NAME) {
            Err(e) => Err(e),
            Ok((boks, p1)) => if pos + boks.size > s.len() {
                Err(Mp4BoxError::Truncated)
            } else {
                match MovieExtendsHeaderBox::parse(s, p1) {
                    Err(e) => Err(e),
                    Ok((mehd, p2)) => if p2 > pos + boks.size {
                        Err(Mp4BoxError::Truncated)
                    } else {
                        match parse_trex_list(s, p2, pos + boks.size) {
                            Err(e) => Err(e),
                            Ok((trexs, _p3)) => Ok((boks, mehd, trexs, pos + boks.size)),
                        }
                    },
                }
            },
        }
    }

    /// Reads an `mvex` box.
    pub fn read(data: &Vec<u8>, pos: usize) -> (r: Result<(MovieExtendsBox, usize), Mp4BoxError>)
        ensures
            match r {
                Ok((b, end)) => Self::parse(data@, pos as int) matches Ok(q) && b.boks == q.0
                    && b.mehd == q.1 && b.trexs@ == q.2 && end as int == q.3,
                Err(e) => Self::parse(data@, pos as int) == Err::<
                    (Boks, MovieExtendsHeaderBox, Seq<TrackExtendsBox>, int),
                    Mp4BoxError,
                >(e),
            },
    {
        let (boks, p1) = match Boks::read_named(data, pos, MVEX_NAME) {
            Ok(x) => x,
            Err(e) => {
                return Err(e);
            },
        };
        if boks.size > (data.len() - pos) as u64 {
            return Err(Mp4BoxError::Truncated);
        }
        let end = pos + boks.size as usize;
        let (mehd, p2) = match MovieExtendsHeaderBox::read(data, p1) {
            Ok(x) => x,
            Err(e) => {
                return Err(e);
            },
        };
        if p2 > end {
            return Err(Mp4BoxError::Truncated);
        }
        let (trexs, _p3) = match read_trex_list(data, p2, end) {
            Ok(x) => x,
            Err(e) => {
                return Err(e);
            },
        };
        Ok((MovieExtendsBox { boks, mehd, trexs }, end))
    }

    /// The body size: the sizes of every child summed.
    fn size(&self) -> (r: u64)
        requires
            self.wf(),
        ensures
            r == self.spec_body().len(),
    {
        let mut size: u64 = self.mehd.total_size();
        let ghost head = self.mehd.spec_bytes().len() as int;
        let mut i: usize = 0;
        proof {
            assert(self.trexs@.take(0) =~= Seq::<TrackExtendsBox>::empty());
        }
        while i < self.trexs.len()
            invariant
                self.wf(),
                i <= self.trexs@.len(),
                head == self.mehd.spec_bytes().len(),
                size == head + spec_trexs_bytes(self.trexs@.take(i as int)).len(),
            decreases self.trexs@.len() - i,
        {
            proof {
                lemma_trexs_bytes_step(self.trexs@, i as int);
                lemma_trexs_bytes_prefix_len(self.trexs@, i as int + 1);
            }
            size = size + self.trexs[i].total_size();
            i = i + 1;
        }
        proof {
            assert(self.trexs@.take(self.trexs@.len() as int) =~= self.trexs@);
        }
        size
    }

    /// The number of bytes `write` appends.
    pub fn total_size(&self) -> (r: u64)
        requires
            self.wf(),
        ensures
            r == self.spec_bytes().len(),
    {
        self.boks.size(self.size())
    }

    /// Appends exactly the serialized bytes of this box: header, `mehd`,
    /// then every `trex`, in order.
    pub fn write(self, out: &mut Vec<u8>)
        requires
            self.wf(),
        ensures
            final(out)@ == old(out)@ + self.spec_bytes(),
    {
        let total = self.total_size();
        let ghost header = spec_boks_bytes(self.boks.name, 8 + self.spec_body().len() as int);
        let ghost mehd_bytes = self.mehd.spec_bytes();
        self.boks.write(out, total);
        self.mehd.write(out);
        proof {
            lemma_concat_associative(old(out)@, header, mehd_bytes);
        }
        let ghost acc = header + mehd_bytes;
        assert(out@ == old(out)@ + acc);
        let trexs = self.trexs;
        let mut i: usize = 0;
        proof {
            assert(trexs@.take(0) =~= Seq::<TrackExtendsBox>::empty());
            assert(acc + spec_trexs_bytes(trexs@.take(0)) =~= acc);
        }
        while i < trexs.len()
            invariant
                i <= trexs@.len(),
                out@ == old(out)@ + (acc + spec_trexs_bytes(trexs@.take(i as int))),
            decreases trexs@.len() - i,
        {
            let t = trexs[i];
            t.write(out);
            proof {
                lemma_concat_associative(
                    old(out)@,
                    acc + spec_trexs_bytes(trexs@.take(i as int)),
                    trexs@[i as int].spec_bytes(),
                );
                lemma_concat_associative(
                    acc,
                    spec_trexs_bytes(trexs@.take(i as int)),
                    trexs@[i as int].spec_bytes(),
                );
                lemma_trexs_bytes_step(trexs@, i as int);
            }
            i = i + 1;
        }
        proof {
            assert(trexs@.take(trexs@.len() as int) =~= trexs@);
            lemma_concat_associative(header, mehd_bytes, spec_trexs_bytes(trexs@));
            assert(out@ == old(out)@ + self.spec_bytes());
        }
    }
}

} // verus!
