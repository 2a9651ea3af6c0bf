//! Where the attributes of a point stand inside one entry of a point buffer.

use crate::attribute::{attribute_at, Attribute, ATTRIBUTE_COUNT};
use crate::datatype::DataType;
use vstd::prelude::*;

verus! {

/// Storage type and byte offset of one attribute inside a point entry.
#[derive(Clone, Copy, Debug, PartialEq, Eq, Structural)]
pub struct Slot {
    pub datatype: DataType,
    pub offset: usize,
}

/// Why an attribute cannot be added to a layout.
#[derive(Clone, Copy, Debug, PartialEq, Eq, Structural)]
pub enum LayoutError {
    /// The layout already declares the attribute.
    Duplicate,
    /// The attribute would reach past the end of the point entry.
    OutOfBounds,
    /// The attribute would share bytes with one that is already declared.
    Overlap,
}

/// Layout of one point entry: for each attribute of the catalogue at most one
/// slot, and the width of the entry. Slots lie inside the entry and share no
/// byte; the entry may hold bytes that belong to no slot.
#[derive(Clone, Debug)]
pub struct PointLayout {
    slots: Vec<Option<Slot>>,
    point_size: usize,
}

/// Whether the byte ranges of two slots share no byte.
pub open spec fn slots_apart(first: Slot, second: Slot) -> bool {
    first.offset + first.datatype.spec_size() <= second.offset || second.offset
        + second.datatype.spec_size() <= first.offset
}

impl PointLayout {
    /// The slot of an attribute, if the layout declares it.
    pub closed spec fn slot(self, attribute: Attribute) -> Option<Slot> {
        self.slots@[attribute.spec_ordinal()]
    }

    /// Width in bytes of one point entry.
    pub closed spec fn spec_size_of_point_entry(self) -> nat {
        self.point_size as nat
    }

    /// Whether the layout declares the attribute.
    pub open spec fn declares(self, attribute: Attribute) -> bool {
        self.slot(attribute) is Some
    }

    /// The layout has a place for every attribute of the catalogue.
    pub closed spec fn table_complete(self) -> bool {
        self.slots@.len() == ATTRIBUTE_COUNT
    }

    /// Slots lie inside the entry and share no byte.
    #[verifier::opaque]
    pub open spec fn wf(self) -> bool {
        &&& self.table_complete()
        &&& forall|a: Attribute|
            (#[trigger] self.slot(a)) is Some ==> self.slot(a)->0.offset + self.slot(
                a,
            )->0.datatype.spec_size() <= self.spec_size_of_point_entry()
        &&& forall|a: Attribute, b: Attribute|
            a != b && (#[trigger] self.slot(a)) is Some && (#[trigger] self.slot(b)) is Some
                ==> slots_apart(self.slot(a)->0, self.slot(b)->0)
    }

    /// Whether a slot shares bytes with a slot of the layout.
    pub open spec fn overlaps(self, added: Slot) -> bool {
        exists|a: Attribute| (#[trigger] self.slot(a)) is Some && !slots_apart(self.slot(a)->0, added)
    }

    /// What declaring an attribute at an offset comes to: it is refused where
    /// the attribute is declared already, else where it would reach past the
    /// end of the entry, else where it would share bytes with a declared
    /// attribute.
    pub open spec fn declare_outcome(self, attribute: Attribute, datatype: DataType, offset: usize)
        -> Result<(), LayoutError> {
        if self.declares(attribute) {
            Err(LayoutError::Duplicate)
        } else if offset + datatype.spec_size() > self.spec_size_of_point_entry() {
            Err(LayoutError::OutOfBounds)
        } else if self.overlaps(Slot { datatype, offset }) {
            Err(LayoutError::Overlap)
        } else {
            Ok(())
        }
    }

    /// Two layouts are structurally equal: the same width, and the same
    /// attributes with the same types at the same offsets.
    pub open spec fn same_as(self, other: PointLayout) -> bool {
        &&& self.spec_size_of_point_entry() == other.spec_size_of_point_entry()
        &&& forall|a: Attribute| #[trigger] self.slot(a) == other.slot(a)
    }

    /// A layout of the given width that declares nothing.
    pub fn new(point_size: usize) -> (layout: PointLayout)
        ensures
            layout.wf(),
            layout.spec_size_of_point_entry() == point_size,
            forall|a: Attribute| (#[trigger] layout.slot(a)) is None,
    {
        reveal(PointLayout::wf);
        let mut slots: Vec<Option<Slot>> = Vec::new();
        let mut i: usize = 0;
        while i < ATTRIBUTE_COUNT
            invariant
                i <= ATTRIBUTE_COUNT,
                slots@.len() == i,
                forall|j: int| 0 <= j < i ==> slots@[j] is None,
            decreases ATTRIBUTE_COUNT - i,
        {
            slots.push(None);
            i = i + 1;
        }
        PointLayout { slots, point_size }
    }

    /// Width in bytes of one point entry.
    pub fn size_of_point_entry(&self) -> (size: usize)
        ensures
            size == self.spec_size_of_point_entry(),
    {
        self.point_size
    }

    /// The slot of an attribute, if the layout declares it.
    pub fn get(&self, attribute: Attribute) -> (found: Option<Slot>)
        requires
            self.wf(),
        ensures
            found == self.slot(attribute),
    {
        reveal(PointLayout::wf);
        self.slots[attribute.ordinal()]
    }

    /// Declares an attribute at the end of the entry, which grows by the
    /// attribute's size. Fails, and leaves the layout as it is, if the
    /// attribute is declared already or the entry would outgrow the address
    /// range.
    pub fn append(&mut self, attribute: Attribute, datatype: DataType) -> (done: Result<
        (),
        LayoutError,
    >)
        requires
            old(self).wf(),
        ensures
            final(self).wf(),
            old(self).declares(attribute) ==> done == Err::<(), LayoutError>(LayoutError::Duplicate),
            !old(self).declares(attribute) && old(self).spec_size_of_point_entry()
                + datatype.spec_size() > usize::MAX ==> done == Err::<(), LayoutError>(
                LayoutError::OutOfBounds,
            ),
            !old(self).declares(attribute) && old(self).spec_size_of_point_entry()
                + datatype.spec_size() <= usize::MAX ==> done is Ok,
            done is Err ==> *final(self) == *old(self),
            done is Ok ==> {
                &&& final(self).spec_size_of_point_entry() == old(self).spec_size_of_point_entry()
                    + datatype.spec_size()
                &&& final(self).slot(attribute) == Some(
                    Slot { datatype, offset: old(self).spec_size_of_point_entry() as usize },
                )
                &&& forall|a: Attribute|
                    a != attribute ==> #[trigger] final(self).slot(a) == old(self).slot(a)
            },
    {
        reveal(PointLayout::wf);
        let at = attribute.ordinal();
        if self.slots[at].is_some() {
            return Err(LayoutError::Duplicate);
        }
        let size = datatype.size();
        if size > usize::MAX - self.point_size {
            return Err(LayoutError::OutOfBounds);
        }
        let offset = self.point_size;
        self.slots.set(at, Some(Slot { datatype, offset }));
        self.point_size = offset + size;
        proof {
            let before = *old(self);
            let after = *self;
            assert forall|a: Attribute| a != attribute implies #[trigger] after.slot(a)
                == before.slot(a) by {}
            assert forall|a: Attribute| (#[trigger] after.slot(a)) is Some implies after.slot(
                a,
            )->0.offset + after.slot(a)->0.datatype.spec_size()
                <= after.spec_size_of_point_entry() by {
                if a != attribute {
                    assert(before.slot(a) is Some);
                }
            }
            assert forall|a: Attribute, b: Attribute|
                a != b && (#[trigger] after.slot(a)) is Some && (#[trigger] after.slot(
                    b,
                )) is Some implies slots_apart(after.slot(a)->0, after.slot(b)->0) by {
                if a != attribute {
                    assert(before.slot(a) is Some);
                }
                if b != attribute {
                    assert(before.slot(b) is Some);
                }
            }
        }
        Ok(())
    }

    /// Declares an attribute at a given offset. Fails, and leaves the layout as
    /// it is, if the attribute is declared already, if it would reach past the
    /// end of the entry, or if it would share bytes with a declared attribute.
    pub fn declare(&mut self, attribute: Attribute, datatype: DataType, offset: usize) -> (done:
        Result<(), LayoutError>)
        requires
            old(self).wf(),
        ensures
            final(self).wf(),
            final(self).spec_size_of_point_entry() == old(self).spec_size_of_point_entry(),
            done == old(self).declare_outcome(attribute, datatype, offset),
            done is Err ==> *final(self) == *old(self),
            done is Ok ==> {
                &&& final(self).slot(attribute) == Some(Slot { datatype, offset })
                &&& forall|a: Attribute|
                    a != attribute ==> #[trigger] final(self).slot(a) == old(self).slot(a)
            },
    {
        reveal(PointLayout::wf);
        let at = attribute.ordinal();
        if self.slots[at].is_some() {
            return Err(LayoutError::Duplicate);
        }
        let size = datatype.size();
        if offset > self.point_size || size > self.point_size - offset {
            return Err(LayoutError::OutOfBounds);
        }
        let added = Slot { datatype, offset };
        let mut i: usize = 0;
        while i < ATTRIBUTE_COUNT
            invariant
                i <= ATTRIBUTE_COUNT,
                self.wf(),
                *self == *old(self),
                size == datatype.spec_size(),
                added == (Slot { datatype, offset }),
                !self.declares(attribute),
                offset + size <= self.point_size,
                forall|j: int|
                    0 <= j < i && self.slots@[j] is Some ==> slots_apart(
                        (#[trigger] self.slots@[j])->0,
                        added,
                    ),
            decreases ATTRIBUTE_COUNT - i,
        {
            proof {
                reveal(PointLayout::wf);
            }
            match self.slots[i] {
                Some(held) => {
                    let held_size = held.datatype.size();
                    proof {
                        let a = attribute_at(i as int);
                        assert(a.spec_ordinal() == i);
                        assert(self.slot(a) is Some);
                    }
                    if !(held.offset + held_size <= offset || offset + size <= held.offset) {
                        proof {
                            let a = attribute_at(i as int);
                            assert(old(self).slot(a) is Some && !slots_apart(
                                old(self).slot(a)->0,
                                added,
                            ));
                        }
                        return Err(LayoutError::Overlap);
                    }
                },
                None => {},
            }
            i = i + 1;
        }
        self.slots.set(at, Some(added));
        proof {
            let before = *old(self);
            let after = *self;
            assert forall|a: Attribute| a != attribute implies #[trigger] after.slot(a)
                == before.slot(a) by {}
            assert forall|a: Attribute| (#[trigger] before.slot(a)) is Some implies slots_apart(
                before.slot(a)->0,
                added,
            ) by {
                assert(before.slots@[a.spec_ordinal()] is Some);
            }
            assert forall|a: Attribute| (#[trigger] after.slot(a)) is Some implies after.slot(
                a,
            )->0.offset + after.slot(a)->0.datatype.spec_size()
                <= after.spec_size_of_point_entry() by {
                if a != attribute {
                    assert(before.slot(a) is Some);
                }
            }
            assert forall|a: Attribute, b: Attribute|
                a != b && (#[trigger] after.slot(a)) is Some && (#[trigger] after.slot(
                    b,
                )) is Some implies slots_apart(after.slot(a)->0, after.slot(b)->0) by {
                if a != attribute {
                    assert(before.slot(a) is Some);
                }
                if b != attribute {
                    assert(before.slot(b) is Some);
                }
            }
        }
        Ok(())
    }

    /// A declared slot lies inside the entry.
    pub proof fn lemma_slot_in_entry(self, a: Attribute)
        requires
            self.wf(),
            self.slot(a) is Some,
        ensures
            self.slot(a)->0.offset + self.slot(a)->0.datatype.spec_size()
                <= self.spec_size_of_point_entry(),
    {
        reveal(PointLayout::wf);
    }

    /// The slots of two attributes share no byte.
    pub proof fn lemma_slots_apart(self, a: Attribute, b: Attribute)
        requires
            self.wf(),
            a != b,
            self.slot(a) is Some,
            self.slot(b) is Some,
        ensures
            slots_apart(self.slot(a)->0, self.slot(b)->0),
    {
        reveal(PointLayout::wf);
    }

    /// Whether two layouts are structurally equal.
    pub fn equals(&self, other: &PointLayout) -> (same: bool)
        requires
            self.wf(),
            other.wf(),
        ensures
            same == self.same_as(*other),
    {
        reveal(PointLayout::wf);
        if self.point_size != other.point_size {
            return false;
        }
        let mut i: usize = 0;
        while i < ATTRIBUTE_COUNT
            invariant
                i <= ATTRIBUTE_COUNT,
                self.wf(),
                other.wf(),
                self.point_size == other.point_size,
                forall|j: int| 0 <= j < i ==> self.slots@[j] == other.slots@[j],
            decreases ATTRIBUTE_COUNT - i,
        {
            proof {
                reveal(PointLayout::wf);
            }
            let mine = self.slots[i];
            let theirs = other.slots[i];
            let same = match (mine, theirs) {
                (None, None) => true,
                (Some(a), Some(b)) => a.offset == b.offset && a.datatype == b.datatype,
                _ => false,
            };
            if !same {
                proof {
                    let a = attribute_at(i as int);
                    assert(a.spec_ordinal() == i);
                    assert(self.slot(a) != other.slot(a));
                }
                return false;
            }
            i = i + 1;
        }
        true
    }
}

} // verus!
