//! The track fragment box (`traf`): a `tfhd`, an optional `tfdt`, then any
//! number of track run boxes, written in that fixed order.

use vstd::prelude::*;

use crate::Mp4BoxError;
use crate::boks::{spec_boks_bytes, Boks};
use crate::tfdt::TrackFragmentBaseMediaDecodeTimeBox;
use crate::tfhd::TrackFragmentHeaderBox;
use crate::trun::TrackFragmentRunBox;
use vstd::seq_lib::lemma_concat_associative;

verus! {

/// The `traf` type code.
pub const TRAF_NAME: u32 = 0x7472_6166;

/// The track fragment box.
#[derive(Debug)]
pub struct TrackFragmentBox {
    /// The `traf` box header.
    pub boks: Boks,
    /// The mandatory track fragment header.
    pub tfhd: TrackFragmentHeaderBox,
    /// The track run boxes, in the order they are written.
    pub track_runs: Vec<TrackFragmentRunBox>,
    /// The optional decode-time box, written between `tfhd` and the runs.
    pub base_media_decode_time: Option<TrackFragmentBaseMediaDecodeTimeBox>,
}

/// The concatenated bytes of a sequence of track run boxes, in order.
pub open spec fn spec_runs_bytes(runs: Seq<TrackFragmentRunBox>) -> Seq<u8>
    decreases runs.len(),
{
    if runs.len() == 0 {
        Seq::empty()
    } else {
        spec_runs_bytes(runs.drop_last()) + runs.last().spec_bytes()
    }
}

/// The bytes of an optional `tfdt` box: its serialized form when present.
pub open spec fn spec_opt_tfdt_bytes(o: Option<TrackFragmentBaseMediaDecodeTimeBox>) -> Seq<u8> {
    match o {
        Some(b) => b.spec_bytes(),
        None => Seq::empty(),
    }
}

/// Extending a run sequence by one box appends that box's bytes.
pub proof fn lemma_runs_bytes_step(runs: Seq<TrackFragmentRunBox>, i: int)
    requires
        0 <= i < runs.len(),
    ensures
        spec_runs_bytes(runs.take(i + 1)) == spec_runs_bytes(runs.take(i)) + runs[i].spec_bytes(),
{
    assert(runs.take(i + 1).drop_last() =~= runs.take(i));
    assert(runs.take(i + 1).last() == runs[i]);
}

/// The bytes of a prefix of a run sequence are never longer than the bytes of
/// the whole sequence.
pub proof fn lemma_runs_bytes_prefix_len(runs: Seq<TrackFragmentRunBox>, i: int)
    requires
        0 <= i <= runs.len(),
    ensures
        spec_runs_bytes(runs.take(i)).len() <= spec_runs_bytes(runs).len(),
    decreases runs.len() - i,
{
    if i == runs.len() {
        assert(runs.take(i) =~= runs);
    } else {
        lemma_runs_bytes_step(runs, i);
        lemma_runs_bytes_prefix_len(runs, i + 1);
    }
}

impl TrackFragmentBox {
    /// The body bytes: the `tfhd`, the optional `tfdt`, then every run.
    pub open spec fn spec_body(self) -> Seq<u8> {
        self.tfhd.spec_bytes() + spec_opt_tfdt_bytes(self.base_media_decode_time)
            + spec_runs_bytes(self.track_runs@)
    }

    /// The exact bytes this box serializes to.
    pub open spec fn spec_bytes(self) -> Seq<u8> {
        spec_boks_bytes(self.boks.name, 8 + self.spec_body().len() as int) + self.spec_body()
    }

    /// A built box carries the `traf` type code, well-formed children, and a
    /// total size that fits the 32-bit size field.
    pub open spec fn wf(self) -> bool {
        &&& self.boks.name == TRAF_NAME
        &&& self.tfhd.wf()
        &&& (self.base_media_decode_time matches Some(b) ==> b.wf())
        &&& (forall|i: int| 0 <= i < self.track_runs@.len() ==> self.track_runs@[i].wf())
        &&& 8 + self.spec_body().len() <= u32::MAX
    }

    /// A box for the given children.  The total size must fit the box
    /// header's 32-bit size field.
    pub fn new(
        tfhd: TrackFragmentHeaderBox,
        track_runs: Vec<TrackFragmentRunBox>,
        base_media_decode_time: Option<TrackFragmentBaseMediaDecodeTimeBox>,
    ) -> (r: TrackFragmentBox)
        requires
            tfhd.wf(),
            base_media_decode_time matches Some(b) ==> b.wf(),
            forall|i: int| 0 <= i < track_runs@.len() ==> track_runs@[i].wf(),
            8 + tfhd.spec_bytes().len() + spec_opt_tfdt_bytes(base_media_decode_time).len()
                + spec_runs_bytes(track_runs@).len() <= u32::MAX,
        ensures
            r.wf(),
            r.tfhd == tfhd,
            r.track_runs == track_runs,
            r.base_media_decode_time == base_media_decode_time,
    {
        TrackFragmentBox { boks: Boks::new(TRAF_NAME), tfhd, track_runs, base_media_decode_time }
    }

    /// The body size: the sizes of every child summed.
    fn size(&self) -> (r: u64)
        requires
            self.wf(),
        ensures
            r == self.spec_body().len(),
    {
        let mut size: u64 = self.tfhd.total_size();
        if let Some(b) = &self.base_media_decode_time {
            size = size + b.total_size();
        }
        let ghost head = self.tfhd.spec_bytes().len() + spec_opt_tfdt_bytes(
            self.base_media_decode_time,
        ).len();
        let mut i: usize = 0;
        proof {
            assert(self.track_runs@.take(0) =~= Seq::<TrackFragmentRunBox>::empty());
        }
        while i < self.track_runs.len()
            invariant
                self.wf(),
                i <= self.track_runs@.len(),
                head == self.tfhd.spec_bytes().len() + spec_opt_tfdt_bytes(
                    self.base_media_decode_time,
                ).len(),
                size == head + spec_runs_bytes(self.track_runs@.take(i as int)).len(),
            decreases self.track_runs@.len() - i,
        {
            proof {
                lemma_runs_bytes_step(self.track_runs@, i as int);
                lemma_runs_bytes_prefix_len(self.track_runs@, i as int + 1);
            }
            size = size + self.track_runs[i].total_size();
            i = i + 1;
        }
        proof {
            assert(self.track_runs@.take(self.track_runs@.len() as int) =~= self.track_runs@);
        }
        size
    }

    /// The number of bytes `write` appends.
    pub fn total_size(&self) -> (r: u64)
        requires
            self.wf(),
        ensures
            r == self.spec_bytes().len(),
    {
        self.boks.size(self.size())
    }

    /// A `traf`'s serialized length is its eight header bytes plus the
    /// serialized lengths of every child present, whatever the children
    /// hold; together with the contracts of `total_size` and `write`, the
    /// declared size always equals the bytes actually written.
    pub proof fn lemma_size_consistent(self)
        ensures
            self.spec_bytes().len() == 8 + self.tfhd.spec_bytes().len() + spec_opt_tfdt_bytes(
                self.base_media_decode_time,
            ).len() + spec_runs_bytes(self.track_runs@).len(),
    {
    }

    /// Appends exactly the serialized bytes of this box: header, `tfhd`,
    /// optional `tfdt`, then every run, in order.
    pub fn write(self, out: &mut Vec<u8>)
        requires
            self.wf(),
        ensures
            final(out)@ == old(out)@ + self.spec_bytes(),
    {
        let total = self.total_size();
        let ghost header = spec_boks_bytes(self.boks.name, 8 + self.spec_body().len() as int);
        let ghost tfhd_bytes = self.tfhd.spec_bytes();
        let ghost opt_bytes = spec_opt_tfdt_bytes(self.base_media_decode_time);
        self.boks.write(out, total);
        self.tfhd.write(out);
        proof {
            lemma_concat_associative(old(out)@, header, tfhd_bytes);
        }
        if let Some(base_media_decode_time) = self.base_media_decode_time {
            base_media_decode_time.write(out);
        } else {
            proof {
                assert((header + tfhd_bytes) + opt_bytes =~= header + tfhd_bytes);
            }
        }
        proof {
            if self.base_media_decode_time is Some {
                lemma_concat_associative(old(out)@, header + tfhd_bytes, opt_bytes);
            }
        }
        let ghost acc = (header + tfhd_bytes) + opt_bytes;
        assert(out@ == old(out)@ + acc);
        let runs = self.track_runs;
        let mut i: usize = 0;
        proof {
            assert(runs@.take(0) =~= Seq::<TrackFragmentRunBox>::empty());
            assert(acc + spec_runs_bytes(runs@.take(0)) =~= acc);
        }
        while i < runs.len()
            invariant
                i <= runs@.len(),
                out@ == old(out)@ + (acc + spec_runs_bytes(runs@.take(i as int))),
            decreases runs@.len() - i,
        {
            runs[i].write(out);
            proof {
                lemma_concat_associative(
                    old(out)@,
                    acc + spec_runs_bytes(runs@.take(i as int)),
                    runs@[i as int].spec_bytes(),
                );
                lemma_concat_associative(
                    acc,
                    spec_runs_bytes(runs@.take(i as int)),
                    runs@[i as int].spec_bytes(),
                );
                lemma_runs_bytes_step(runs@, i as int);
            }
            i = i + 1;
        }
        proof {
            assert(runs@.take(runs@.len() as int) =~= runs@);
            lemma_concat_associative(header, tfhd_bytes, opt_bytes);
            lemma_concat_associative(header, tfhd_bytes + opt_bytes, spec_runs_bytes(runs@));
            assert(out@ == old(out)@ + self.spec_bytes());
        }
    }
}

} // verus!
