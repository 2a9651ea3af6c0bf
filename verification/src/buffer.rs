//! An interleaved point buffer: point entries of one layout, back to back.

use crate::layout::PointLayout;
use vstd::prelude::*;

verus! {

/// Point entries of one layout, stored one after the other.
#[derive(Debug)]
pub struct PointBuffer {
    layout: PointLayout,
    data: Vec<u8>,
    points: usize,
}

impl PointBuffer {
    /// Layout of the entries.
    pub closed spec fn spec_point_layout(self) -> PointLayout {
        self.layout
    }

    /// The bytes of all entries.
    pub closed spec fn bytes(self) -> Seq<u8> {
        self.data@
    }

    /// Number of entries.
    pub closed spec fn spec_len(self) -> nat {
        self.points as nat
    }

    /// The layout is well formed and every entry has its width.
    pub open spec fn wf(self) -> bool {
        &&& self.spec_point_layout().wf()
        &&& self.bytes().len() == self.spec_len() * self.spec_point_layout().spec_size_of_point_entry()
    }

    /// An empty buffer for entries of the given layout.
    pub fn new(layout: PointLayout) -> (buffer: PointBuffer)
        requires
            layout.wf(),
        ensures
            buffer.wf(),
            buffer.spec_point_layout() == layout,
            buffer.bytes() == Seq::<u8>::empty(),
            buffer.spec_len() == 0,
    {
        assert(0 * layout.spec_size_of_point_entry() == 0) by (nonlinear_arith);
        PointBuffer { layout, data: Vec::new(), points: 0 }
    }

    /// Layout of the entries.
    pub fn point_layout(&self) -> (layout: &PointLayout)
        ensures
            *layout == self.spec_point_layout(),
    {
        &self.layout
    }

    /// Number of entries.
    pub fn len(&self) -> (points: usize)
        ensures
            points == self.spec_len(),
    {
        self.points
    }

    /// The bytes of all entries.
    pub fn raw_bytes(&self) -> (data: &Vec<u8>)
        ensures
            data@ == self.bytes(),
    {
        &self.data
    }

    /// Appends `count` entries, given as their bytes back to back.
    pub fn push_points_interleaved(&mut self, entries: Vec<u8>, count: usize)
        requires
            old(self).wf(),
            entries@.len() == count * old(self).spec_point_layout().spec_size_of_point_entry(),
            old(self).spec_len() + count <= usize::MAX,
        ensures
            final(self).wf(),
            final(self).spec_point_layout() == old(self).spec_point_layout(),
            final(self).bytes() == old(self).bytes() + entries@,
            final(self).spec_len() == old(self).spec_len() + count,
    {
        let mut entries = entries;
        let ghost size = self.layout.spec_size_of_point_entry();
        assert((self.points + count) * size == self.points * size + count * size)
            by (nonlinear_arith);
        self.data.append(&mut entries);
        self.points = self.points + count;
    }
}

} // verus!
