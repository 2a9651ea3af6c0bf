//! The attribute parse plan: for one target layout, where each attribute of the
//! catalogue goes and how its bytes come about.

use crate::attribute::{attribute_at, Attribute, ATTRIBUTE_COUNT};
use crate::convert::{choose_fill, fill_between, Fill};
use crate::datatype::DataType;
use crate::format::FormatDescriptor;
use crate::layout::{PointLayout, Slot};
use vstd::prelude::*;

verus! {

/// Where one attribute goes in a point entry of the target, and how.
#[derive(Clone, Copy, Debug, PartialEq, Eq, Structural)]
pub struct PlanEntry {
    pub offset: usize,
    pub size: usize,
    pub fill: Fill,
}

/// Why no plan exists for a target layout.
#[derive(Clone, Copy, Debug, PartialEq, Eq, Structural)]
pub enum PlanError {
    /// The target stores the attribute in a type that its source type neither
    /// equals nor converts to.
    UnsupportedConversion { attribute: Attribute },
}

/// How a slot is filled with an attribute of a format; none where the target
/// asks for a type that the attribute does not convert to.
pub open spec fn fill_for(format: FormatDescriptor, attribute: Attribute, to: DataType) -> Option<
    Fill,
> {
    if attribute.spec_in_format(format) {
        fill_between(attribute, attribute.spec_source_type(format), to)
    } else {
        Some(Fill::Zero)
    }
}

/// What the plan holds for an attribute: nothing where the target does not
/// declare it, else the target's offset and size and the way to fill the slot.
pub open spec fn planned_entry(format: FormatDescriptor, slot: Option<Slot>, attribute: Attribute)
    -> Option<PlanEntry> {
    match slot {
        None => None,
        Some(slot) => match fill_for(format, attribute, slot.datatype) {
            None => None,
            Some(fill) => Some(
                PlanEntry { offset: slot.offset, size: slot.datatype.spec_size() as usize, fill },
            ),
        },
    }
}

/// Whether the target declares the attribute in a type that cannot be filled.
pub open spec fn unsupported(format: FormatDescriptor, target: PointLayout, attribute: Attribute)
    -> bool {
    target.slot(attribute) is Some && fill_for(
        format,
        attribute,
        target.slot(attribute)->0.datatype,
    ) is None
}

/// Whether the size of an entry fits the way it is filled.
pub open spec fn entry_fits(format: FormatDescriptor, attribute: Attribute, entry: PlanEntry)
    -> bool {
    let source = attribute.spec_source_type(format).spec_size();
    match entry.fill {
        Fill::Zero => true,
        Fill::Copy => entry.size == source,
        Fill::WidenUnsigned | Fill::WidenSigned => source <= entry.size,
        Fill::NarrowPosition => entry.size == 12,
        Fill::NarrowColor => entry.size == 3,
    }
}

/// Whether two entries share no byte.
pub open spec fn entries_apart(first: PlanEntry, second: PlanEntry) -> bool {
    first.offset + first.size <= second.offset || second.offset + second.size <= first.offset
}

/// Whether the entry at a place of the catalogue is the one planned for the
/// attribute at that place.
spec fn resolved(
    format: FormatDescriptor,
    target: PointLayout,
    entries: Seq<Option<PlanEntry>>,
    place: int,
) -> bool {
    &&& !unsupported(format, target, attribute_at(place))
    &&& entries[place] == planned_entry(
        format,
        target.slot(attribute_at(place)),
        attribute_at(place),
    )
}

/// Looks one attribute up in the target layout and says where it goes and how
/// it is filled. Nothing where the target does not declare the attribute.
pub fn get_attribute_parser(format: &FormatDescriptor, target: &PointLayout, attribute: Attribute)
    -> (found: Result<Option<PlanEntry>, PlanError>)
    requires
        target.wf(),
    ensures
        unsupported(*format, *target, attribute) ==> found == Err::<Option<PlanEntry>, PlanError>(
            PlanError::UnsupportedConversion { attribute },
        ),
        !unsupported(*format, *target, attribute) ==> found == Ok::<Option<PlanEntry>, PlanError>(
            planned_entry(*format, target.slot(attribute), attribute),
        ),
{
    match target.get(attribute) {
        None => Ok(None),
        Some(slot) => {
            let fill = if attribute.in_format(format) {
                choose_fill(attribute, attribute.source_type(format), slot.datatype)
            } else {
                Some(Fill::Zero)
            };
            match fill {
                None => Err(PlanError::UnsupportedConversion { attribute }),
                Some(fill) => Ok(
                    Some(PlanEntry { offset: slot.offset, size: slot.datatype.size(), fill }),
                ),
            }
        },
    }
}

/// What a plan says, as a value of mathematics: for each place of the
/// catalogue the entry of the attribute at that place, and the width of a point
/// entry of the target.
pub struct PlanModel {
    pub entries: Seq<Option<PlanEntry>>,
    pub point_size: nat,
}

impl PlanModel {
    /// What the plan holds for an attribute.
    pub open spec fn entry(self, attribute: Attribute) -> Option<PlanEntry> {
        self.entries[attribute.spec_ordinal()]
    }

    /// Entries lie inside the point entry, share no byte, and have the size
    /// that their fill writes.
    #[verifier::opaque]
    pub open spec fn wf(self, format: FormatDescriptor) -> bool {
        &&& self.entries.len() == ATTRIBUTE_COUNT
        &&& forall|a: Attribute|
            (#[trigger] self.entry(a)) is Some ==> self.entry(a)->0.offset + self.entry(a)->0.size
                <= self.point_size && entry_fits(format, a, self.entry(a)->0)
        &&& forall|a: Attribute, b: Attribute|
            a != b && (#[trigger] self.entry(a)) is Some && (#[trigger] self.entry(b)) is Some
                ==> entries_apart(self.entry(a)->0, self.entry(b)->0)
    }

    /// An entry lies inside the point entry and has the size that its fill
    /// writes.
    pub proof fn lemma_entry_in_bounds(self, format: FormatDescriptor, a: Attribute)
        requires
            self.wf(format),
            self.entry(a) is Some,
        ensures
            self.entries.len() == ATTRIBUTE_COUNT,
            self.entry(a)->0.offset + self.entry(a)->0.size <= self.point_size,
            entry_fits(format, a, self.entry(a)->0),
    {
        reveal(PlanModel::wf);
    }

    /// The entries of two attributes share no byte.
    pub proof fn lemma_entries_apart(self, format: FormatDescriptor, a: Attribute, b: Attribute)
        requires
            self.wf(format),
            a != b,
            self.entry(a) is Some,
            self.entry(b) is Some,
        ensures
            entries_apart(self.entry(a)->0, self.entry(b)->0),
    {
        reveal(PlanModel::wf);
    }
}

/// The plan for a target layout in which every declared attribute can be
/// filled.
pub open spec fn plan_for(format: FormatDescriptor, target: PointLayout) -> PlanModel {
    PlanModel {
        entries: Seq::new(
            ATTRIBUTE_COUNT as nat,
            |place: int|
                planned_entry(format, target.slot(attribute_at(place)), attribute_at(place)),
        ),
        point_size: target.spec_size_of_point_entry(),
    }
}

/// The plan for one target layout.
#[derive(Clone, Debug)]
pub struct ParsePlan {
    entries: Vec<Option<PlanEntry>>,
    point_size: usize,
}

impl View for ParsePlan {
    type V = PlanModel;

    closed spec fn view(&self) -> PlanModel {
        PlanModel { entries: self.entries@, point_size: self.point_size as nat }
    }
}

impl ParsePlan {
    /// Width in bytes of a point entry of the target.
    pub fn point_size(&self) -> (size: usize)
        ensures
            size == self@.point_size,
    {
        self.point_size
    }

    /// What the plan holds for an attribute.
    pub fn get(&self, attribute: Attribute) -> (found: Option<PlanEntry>)
        requires
            self@.entries.len() == ATTRIBUTE_COUNT,
        ensures
            found == self@.entry(attribute),
    {
        self.entries[attribute.ordinal()]
    }

    /// Makes the plan for a target layout: one look-up per attribute of the
    /// catalogue, in the order of the catalogue. Fails at the first attribute
    /// that the target declares in a type that cannot be filled.
    pub fn resolve(format: &FormatDescriptor, target: &PointLayout) -> (made: Result<
        ParsePlan,
        PlanError,
    >)
        requires
            target.wf(),
        ensures
            made is Ok <==> forall|a: Attribute| !unsupported(*format, *target, a),
            made matches Ok(plan) ==> plan@.wf(*format) && plan@ == plan_for(*format, *target),
            made matches Err(PlanError::UnsupportedConversion { attribute }) ==> unsupported(
                *format,
                *target,
                attribute,
            ) && forall|b: Attribute|
                b.spec_ordinal() < attribute.spec_ordinal() ==> !unsupported(*format, *target, b),
    {
        let mut entries: Vec<Option<PlanEntry>> = Vec::new();
        let mut i: usize = 0;
        while i < ATTRIBUTE_COUNT
            invariant
                i <= ATTRIBUTE_COUNT,
                target.wf(),
                entries@.len() == i,
                forall|j: int| 0 <= j < i ==> #[trigger] resolved(*format, *target, entries@, j),
            decreases ATTRIBUTE_COUNT - i,
        {
            let attribute = Attribute::from_index(i);
            let ghost before = entries@;
            match get_attribute_parser(format, target, attribute) {
                Ok(entry) => {
                    entries.push(entry);
                },
                Err(error) => {
                    proof {
                        assert forall|b: Attribute|
                            b.spec_ordinal() < attribute.spec_ordinal() implies !unsupported(
                            *format,
                            *target,
                            b,
                        ) by {
                            assert(attribute_at(b.spec_ordinal()) == b);
                            assert(resolved(*format, *target, entries@, b.spec_ordinal()));
                        }
                    }
                    return Err(error);
                },
            }
            i = i + 1;
            assert forall|j: int| 0 <= j < i implies #[trigger] resolved(
                *format,
                *target,
                entries@,
                j,
            ) by {
                if j < i - 1 {
                    assert(resolved(*format, *target, before, j));
                    assert(entries@[j] == before[j]);
                } else {
                    assert(attribute_at(j) == attribute);
                    assert(!unsupported(*format, *target, attribute));
                    assert(entries@[j] == planned_entry(*format, target.slot(attribute), attribute));
                }
            }
        }
        let plan = ParsePlan { entries, point_size: target.size_of_point_entry() };
        proof {
            assert forall|a: Attribute| !unsupported(*format, *target, a) by {
                assert(attribute_at(a.spec_ordinal()) == a);
                assert(resolved(*format, *target, plan.entries@, a.spec_ordinal()));
            }
            assert forall|place: int| 0 <= place < ATTRIBUTE_COUNT implies plan@.entries[place]
                == plan_for(*format, *target).entries[place] by {
                assert(resolved(*format, *target, plan.entries@, place));
            }
            assert(plan@.entries =~= plan_for(*format, *target).entries);
            lemma_plan_wf(*format, *target);
        }
        Ok(plan)
    }
}

/// The plan of a well-formed layout is well formed.
pub proof fn lemma_plan_wf(format: FormatDescriptor, target: PointLayout)
    requires
        target.wf(),
    ensures
        plan_for(format, target).wf(format),
        forall|a: Attribute| #[trigger]
            plan_for(format, target).entry(a) == planned_entry(format, target.slot(a), a),
{
    reveal(PlanModel::wf);
    let plan = plan_for(format, target);
    assert forall|a: Attribute| #[trigger]
        plan.entry(a) == planned_entry(format, target.slot(a), a) by {
        assert(attribute_at(a.spec_ordinal()) == a);
    }
    assert forall|a: Attribute| (#[trigger] plan.entry(a)) is Some implies plan.entry(a)->0.offset
        + plan.entry(a)->0.size <= plan.point_size && entry_fits(format, a, plan.entry(a)->0) by {
        assert(target.slot(a) is Some);
        target.lemma_slot_in_entry(a);
    }
    assert forall|a: Attribute, b: Attribute|
        a != b && (#[trigger] plan.entry(a)) is Some && (#[trigger] plan.entry(
            b,
        )) is Some implies entries_apart(plan.entry(a)->0, plan.entry(b)->0) by {
        assert(target.slot(a) is Some);
        assert(target.slot(b) is Some);
        target.lemma_slots_apart(a, b);
    }
}

} // verus!
