//! The movie fragment box (`moof`): exactly one `mfhd` followed by exactly
//! one `traf`.  This models the single-track-fragment case.

use vstd::prelude::*;

use crate::boks::{spec_boks_bytes, Boks};
use crate::mfhd::MovieFragmentHeaderBox;
use crate::traf::TrackFragmentBox;
use vstd::seq_lib::lemma_concat_associative;

verus! {

/// The `moof` type code.
pub const MOOF_NAME: u32 = 0x6D6F_6F66;

/// The movie fragment box.
#[derive(Debug)]
pub struct MovieFragmentBox {
    /// The `moof` box header.
    pub boks: Boks,
    /// The fragment's header box.
    pub mfhd: MovieFragmentHeaderBox,
    /// The fragment's single track fragment.
    pub traf: TrackFragmentBox,
}

impl MovieFragmentBox {
    /// The body bytes: the `mfhd`, then the `traf`.
    pub open spec fn spec_body(self) -> Seq<u8> {
        self.mfhd.spec_bytes() + self.traf.spec_bytes()
    }

    /// The exact bytes this box serializes to.
    pub open spec fn spec_bytes(self) -> Seq<u8> {
        spec_boks_bytes(self.boks.name, 8 + self.spec_body().len() as int) + self.spec_body()
    }

    /// A built box carries the `moof` type code, well-formed children, and a
    /// total size that fits the 32-bit size field.
    pub open spec fn wf(self) -> bool {
        &&& self.boks.name == MOOF_NAME
        &&& self.mfhd.wf()
        &&& self.traf.wf()
        &&& 8 + self.spec_body().len() <= u32::MAX
    }

    /// A box for the given children.  The total size must fit the box
    /// header's 32-bit size field.
    pub fn new(mfhd: MovieFragmentHeaderBox, traf: TrackFragmentBox) -> (r: MovieFragmentBox)
        requires
            mfhd.wf(),
            traf.wf(),
            8 + mfhd.spec_bytes().len() + traf.spec_bytes().len() <= u32::MAX,
        ensures
            r.wf(),
            r.mfhd == mfhd,
            r.traf == traf,
    {
        MovieFragmentBox { boks: Boks::new(MOOF_NAME), mfhd, traf }
    }

    /// The body size: the sizes of the two children summed.
    fn size(&self) -> (r: u64)
        requires
            self.wf(),
        ensures
            r == self.spec_body().len(),
    {
        let mut size: u64 = self.mfhd.total_size();
        size = size + self.traf.total_size();
        size
    }

    /// The number of bytes `write` appends.
    pub fn total_size(&self) -> (r: u64)
        requires
            self.wf(),
        ensures
            r == self.spec_bytes().len(),
    {
        self.boks.size(self.size())
    }

    /// A `moof`'s serialized length is its eight header bytes plus the
    /// serialized lengths of its two children, whatever the children hold;
    /// together with the contracts of `total_size` and `write`, the declared
    /// size always equals the bytes actually written.
    pub proof fn lemma_size_consistent(self)
        ensures
            self.spec_bytes().len() == 8 + self.mfhd.spec_bytes().len()
                + self.traf.spec_bytes().len(),
    {
    }

    /// Appends exactly the serialized bytes of this box: header, `mfhd`,
    /// then `traf`.
    pub fn write(self, out: &mut Vec<u8>)
        requires
            self.wf(),
        ensures
            final(out)@ == old(out)@ + self.spec_bytes(),
    {
        let total = self.total_size();
        let ghost header = spec_boks_bytes(self.boks.name, 8 + self.spec_body().len() as int);
        let ghost mfhd_bytes = self.mfhd.spec_bytes();
        let ghost traf_bytes = self.traf.spec_bytes();
        self.boks.write(out, total);
        self.mfhd.write(out);
        proof {
            lemma_concat_associative(old(out)@, header, mfhd_bytes);
        }
        self.traf.write(out);
        proof {
            lemma_concat_associative(old(out)@, header + mfhd_bytes, traf_bytes);
            lemma_concat_associative(header, mfhd_bytes, traf_bytes);
            assert(out@ == old(out)@ + self.spec_bytes());
        }
    }
}

} // verus!
