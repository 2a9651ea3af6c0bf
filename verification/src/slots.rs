//! What a point entry of the custom path holds, slot by slot.

use crate::attribute::Attribute;
use crate::byte_order::Endianness;
use crate::convert::repeated;
use crate::decode::{in_slot, lemma_planned_bytes_len, planned_bytes, planned_record};
use crate::format::FormatDescriptor;
use crate::layout::PointLayout;
use crate::plan::{lemma_plan_wf, plan_for, planned_entry, PlanModel};
use crate::record::PointRecord;
use crate::value::WorldPosition;
use vstd::prelude::*;

verus! {

/// A point entry of the custom path is as wide as the plan says.
pub proof fn lemma_planned_record_len(
    format: FormatDescriptor,
    plan: PlanModel,
    order: Endianness,
    record: PointRecord,
    position: WorldPosition,
)
    ensures
        planned_record(format, plan, order, record, position).len() == plan.point_size,
{
}

/// The slot of a planned attribute holds the bytes that the plan writes for
/// it: no other attribute writes there.
pub proof fn lemma_slot_holds_planned_bytes(
    format: FormatDescriptor,
    plan: PlanModel,
    order: Endianness,
    record: PointRecord,
    position: WorldPosition,
    attribute: Attribute,
)
    requires
        plan.wf(format),
        plan.entry(attribute) is Some,
    ensures
        planned_record(format, plan, order, record, position).subrange(
            plan.entry(attribute)->0.offset as int,
            plan.entry(attribute)->0.offset + plan.entry(attribute)->0.size,
        ) == planned_bytes(format, order, record, position, attribute, plan.entry(attribute)->0),
{
    let entry = plan.entry(attribute)->0;
    let whole = planned_record(format, plan, order, record, position);
    let bytes = planned_bytes(format, order, record, position, attribute, entry);
    plan.lemma_entry_in_bounds(format, attribute);
    lemma_planned_bytes_len(format, order, record, position, attribute, entry);
    assert forall|k: int| 0 <= k < entry.size implies whole[entry.offset + k] == bytes[k] by {
        let i = entry.offset + k;
        assert(in_slot(plan, attribute, i));
        let found = choose|a: Attribute| in_slot(plan, a, i);
        if found != attribute {
            plan.lemma_entries_apart(format, found, attribute);
        }
    }
    assert(whole.subrange(entry.offset as int, entry.offset + entry.size) =~= bytes);
}

/// A byte that lies in no slot is zero.
pub proof fn lemma_gap_is_zero(
    format: FormatDescriptor,
    plan: PlanModel,
    order: Endianness,
    record: PointRecord,
    position: WorldPosition,
    i: int,
)
    requires
        0 <= i < plan.point_size,
        forall|a: Attribute| !#[trigger] in_slot(plan, a, i),
    ensures
        planned_record(format, plan, order, record, position)[i] == 0,
{
}

/// An attribute that the target declares and the format lacks comes out as
/// the zero of its type, for every record: every byte of its slot is zero.
pub proof fn lemma_missing_attribute_is_zero(
    format: FormatDescriptor,
    target: PointLayout,
    order: Endianness,
    record: PointRecord,
    position: WorldPosition,
    attribute: Attribute,
)
    requires
        target.wf(),
        target.slot(attribute) is Some,
        !attribute.spec_in_format(format),
    ensures
        planned_record(format, plan_for(format, target), order, record, position).subrange(
            target.slot(attribute)->0.offset as int,
            target.slot(attribute)->0.offset + target.slot(attribute)->0.datatype.spec_size(),
        ) == repeated(0, target.slot(attribute)->0.datatype.spec_size()),
{
    let plan = plan_for(format, target);
    lemma_plan_wf(format, target);
    assert(plan.entry(attribute) == planned_entry(format, target.slot(attribute), attribute));
    lemma_slot_holds_planned_bytes(format, plan, order, record, position, attribute);
}

} // verus!
