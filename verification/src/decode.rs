//! Decoding one record into one point entry.
//!
//! There are two paths. The default path writes the natural layout of the
//! format: every attribute that the format holds, in the order of the fields,
//! without gaps. The custom path follows a parse plan: every planned attribute
//! stands in its slot, and every byte outside the slots is zero.

use crate::attribute::{attribute_at, Attribute, ATTRIBUTE_COUNT};
use crate::byte_order::Endianness;
use crate::convert::{encode_narrow_color, narrow_color, repeat_byte, repeated, widen, widened, Fill};
use crate::format::FormatDescriptor;
use crate::natural::natural_size;
use crate::plan::{entry_fits, ParsePlan, PlanEntry, PlanModel};
use crate::record::PointRecord;
use crate::value::{
    encode_attribute, encode_single_position, lemma_source_bytes_len, single_position_bytes,
    source_bytes, WorldPosition,
};
use vstd::prelude::*;

verus! {

/// The point entry of a record in the natural layout of its format.
pub open spec fn natural_bytes(
    format: FormatDescriptor,
    order: Endianness,
    record: PointRecord,
    position: WorldPosition,
) -> Seq<u8> {
    let bytes = |a: Attribute| source_bytes(format, order, record, position, a);
    let entry = bytes(Attribute::Position) + bytes(Attribute::Intensity) + bytes(
        Attribute::ReturnNumber,
    ) + bytes(Attribute::NumberOfReturns);
    let entry = if format.is_extended {
        entry + bytes(Attribute::ClassificationFlags) + bytes(Attribute::ScannerChannel)
    } else {
        entry
    };
    let entry = entry + bytes(Attribute::ScanDirectionFlag) + bytes(Attribute::EdgeOfFlightLine)
        + bytes(Attribute::Classification);
    let entry = if format.is_extended {
        entry + bytes(Attribute::UserData) + bytes(Attribute::ScanAngle)
    } else {
        entry + bytes(Attribute::ScanAngle) + bytes(Attribute::UserData)
    };
    let entry = entry + bytes(Attribute::PointSourceId);
    let entry = if format.has_gps_time {
        entry + bytes(Attribute::GpsTime)
    } else {
        entry
    };
    let entry = if format.has_color {
        entry + bytes(Attribute::Color)
    } else {
        entry
    };
    let entry = if format.has_nir {
        entry + bytes(Attribute::Nir)
    } else {
        entry
    };
    if format.has_waveform {
        entry + bytes(Attribute::WavePacketIndex) + bytes(Attribute::WaveformByteOffset) + bytes(
            Attribute::WaveformPacketSize,
        ) + bytes(Attribute::WaveformReturnPoint) + bytes(Attribute::WaveformParameters)
    } else {
        entry
    }
}

/// Appends the source bytes of one attribute.
fn push_attribute(
    entry: &mut Vec<u8>,
    format: &FormatDescriptor,
    order: Endianness,
    record: &PointRecord,
    position: &WorldPosition,
    attribute: Attribute,
)
    ensures
        final(entry)@ == old(entry)@ + source_bytes(*format, order, *record, *position, attribute),
        final(entry)@.len() == old(entry)@.len() + attribute.spec_source_type(*format).spec_size(),
{
    let mut bytes = encode_attribute(format, order, record, position, attribute);
    entry.append(&mut bytes);
}

/// Writes the point entry of a record in the natural layout of its format.
pub fn encode_natural(
    format: &FormatDescriptor,
    order: Endianness,
    record: &PointRecord,
    position: &WorldPosition,
) -> (entry: Vec<u8>)
    ensures
        entry@ == natural_bytes(*format, order, *record, *position),
        entry@.len() == natural_size(*format),
{
    let mut entry = encode_attribute(format, order, record, position, Attribute::Position);
    push_attribute(&mut entry, format, order, record, position, Attribute::Intensity);
    push_attribute(&mut entry, format, order, record, position, Attribute::ReturnNumber);
    push_attribute(&mut entry, format, order, record, position, Attribute::NumberOfReturns);
    if format.is_extended {
        push_attribute(&mut entry, format, order, record, position, Attribute::ClassificationFlags);
        push_attribute(&mut entry, format, order, record, position, Attribute::ScannerChannel);
    }
    push_attribute(&mut entry, format, order, record, position, Attribute::ScanDirectionFlag);
    push_attribute(&mut entry, format, order, record, position, Attribute::EdgeOfFlightLine);
    push_attribute(&mut entry, format, order, record, position, Attribute::Classification);
    if format.is_extended {
        push_attribute(&mut entry, format, order, record, position, Attribute::UserData);
        push_attribute(&mut entry, format, order, record, position, Attribute::ScanAngle);
    } else {
        push_attribute(&mut entry, format, order, record, position, Attribute::ScanAngle);
        push_attribute(&mut entry, format, order, record, position, Attribute::UserData);
    }
    push_attribute(&mut entry, format, order, record, position, Attribute::PointSourceId);
    if format.has_gps_time {
        push_attribute(&mut entry, format, order, record, position, Attribute::GpsTime);
    }
    if format.has_color {
        push_attribute(&mut entry, format, order, record, position, Attribute::Color);
    }
    if format.has_nir {
        push_attribute(&mut entry, format, order, record, position, Attribute::Nir);
    }
    if format.has_waveform {
        push_attribute(&mut entry, format, order, record, position, Attribute::WavePacketIndex);
        push_attribute(&mut entry, format, order, record, position, Attribute::WaveformByteOffset);
        push_attribute(&mut entry, format, order, record, position, Attribute::WaveformPacketSize);
        push_attribute(&mut entry, format, order, record, position, Attribute::WaveformReturnPoint);
        push_attribute(&mut entry, format, order, record, position, Attribute::WaveformParameters);
    }
    entry
}

/// The bytes that a plan entry puts into its slot.
pub open spec fn planned_bytes(
    format: FormatDescriptor,
    order: Endianness,
    record: PointRecord,
    position: WorldPosition,
    attribute: Attribute,
    entry: PlanEntry,
) -> Seq<u8> {
    let source = source_bytes(format, order, record, position, attribute);
    match entry.fill {
        Fill::Zero => repeated(0, entry.size as nat),
        Fill::Copy => source,
        Fill::WidenUnsigned | Fill::WidenSigned => widened(
            entry.fill,
            order,
            source,
            entry.size as nat,
        ),
        Fill::NarrowPosition => single_position_bytes(order, position),
        Fill::NarrowColor => narrow_color(record),
    }
}

/// A buffer with `data` written over the bytes that start at `offset`.
pub open spec fn written(base: Seq<u8>, offset: int, data: Seq<u8>) -> Seq<u8> {
    Seq::new(
        base.len(),
        |i: int|
            if offset <= i < offset + data.len() {
                data[i - offset]
            } else {
                base[i]
            },
    )
}

/// Whether byte `i` of a point entry lies in the slot of an attribute.
pub open spec fn in_slot(plan: PlanModel, attribute: Attribute, i: int) -> bool {
    plan.entry(attribute) is Some && plan.entry(attribute)->0.offset <= i < plan.entry(
        attribute,
    )->0.offset + plan.entry(attribute)->0.size
}

/// The attribute in whose slot byte `i` of a point entry lies, if there is
/// one. The slots of a well-formed plan share no byte, so there is at most one.
pub open spec fn attribute_of_byte(plan: PlanModel, i: int) -> Option<Attribute> {
    if exists|a: Attribute| in_slot(plan, a, i) {
        Some(choose|a: Attribute| in_slot(plan, a, i))
    } else {
        None
    }
}

/// The point entry of a record in the layout of a plan: a byte in the slot of
/// an attribute is the byte that the plan puts there, and a byte in no slot is
/// zero.
pub open spec fn planned_record(
    format: FormatDescriptor,
    plan: PlanModel,
    order: Endianness,
    record: PointRecord,
    position: WorldPosition,
) -> Seq<u8> {
    Seq::new(
        plan.point_size,
        |i: int|
            match attribute_of_byte(plan, i) {
                Some(a) => planned_bytes(format, order, record, position, a, plan.entry(a)->0)[i
                    - plan.entry(a)->0.offset],
                None => 0u8,
            },
    )
}

/// The point entry after the decoder has visited the first `visited`
/// attributes of the catalogue: an entry of zero bytes into which each planned
/// attribute among them was written.
spec fn planned_prefix(
    format: FormatDescriptor,
    plan: PlanModel,
    order: Endianness,
    record: PointRecord,
    position: WorldPosition,
    visited: nat,
) -> Seq<u8>
    decreases visited,
{
    if visited == 0 {
        repeated(0, plan.point_size)
    } else {
        let before = planned_prefix(format, plan, order, record, position, (visited - 1) as nat);
        let attribute = attribute_at(visited - 1);
        match plan.entry(attribute) {
            None => before,
            Some(entry) => written(
                before,
                entry.offset as int,
                planned_bytes(format, order, record, position, attribute, entry),
            ),
        }
    }
}

/// An entry that fits writes as many bytes as its slot is wide.
pub proof fn lemma_planned_bytes_len(
    format: FormatDescriptor,
    order: Endianness,
    record: PointRecord,
    position: WorldPosition,
    attribute: Attribute,
    entry: PlanEntry,
)
    requires
        entry_fits(format, attribute, entry),
    ensures
        planned_bytes(format, order, record, position, attribute, entry).len() == entry.size,
{
    lemma_source_bytes_len(format, order, record, position, attribute);
}

/// Byte `i` of the entry after the first `visited` attributes: the byte that
/// the plan writes there, if one of these attributes has `i` in its slot, and
/// zero else.
proof fn lemma_prefix_byte(
    format: FormatDescriptor,
    plan: PlanModel,
    order: Endianness,
    record: PointRecord,
    position: WorldPosition,
    visited: nat,
    i: int,
)
    requires
        plan.wf(format),
        visited <= ATTRIBUTE_COUNT,
        0 <= i < plan.point_size,
    ensures
        planned_prefix(format, plan, order, record, position, visited).len() == plan.point_size,
        forall|a: Attribute|
            a.spec_ordinal() < visited && #[trigger] in_slot(plan, a, i) ==> planned_prefix(
                format,
                plan,
                order,
                record,
                position,
                visited,
            )[i] == planned_bytes(format, order, record, position, a, plan.entry(a)->0)[i
                - plan.entry(a)->0.offset],
        (forall|a: Attribute| a.spec_ordinal() < visited ==> !#[trigger] in_slot(plan, a, i))
            ==> planned_prefix(format, plan, order, record, position, visited)[i] == 0,
    decreases visited,
{
    if visited > 0 {
        let before = (visited - 1) as nat;
        lemma_prefix_byte(format, plan, order, record, position, before, i);
        let current = attribute_at(before as int);
        assert(current.spec_ordinal() == before);
        let earlier = planned_prefix(format, plan, order, record, position, before);
        let now = planned_prefix(format, plan, order, record, position, visited);
        match plan.entry(current) {
            None => {
                assert(now == earlier);
                assert forall|a: Attribute|
                    a.spec_ordinal() < visited && #[trigger] in_slot(plan, a, i) implies now[i]
                    == planned_bytes(format, order, record, position, a, plan.entry(a)->0)[i
                    - plan.entry(a)->0.offset] by {
                    assert(a != current);
                    assert(a.spec_ordinal() < before);
                }
                if forall|a: Attribute| a.spec_ordinal() < visited ==> !#[trigger] in_slot(plan, a, i) {
                    assert forall|a: Attribute| a.spec_ordinal() < before implies !#[trigger] in_slot(
                        plan,
                        a,
                        i,
                    ) by {}
                }
            },
            Some(entry) => {
                plan.lemma_entry_in_bounds(format, current);
                lemma_planned_bytes_len(format, order, record, position, current, entry);
                let bytes = planned_bytes(format, order, record, position, current, entry);
                assert(now == written(earlier, entry.offset as int, bytes));
                assert forall|a: Attribute|
                    a.spec_ordinal() < visited && #[trigger] in_slot(plan, a, i) implies now[i]
                    == planned_bytes(format, order, record, position, a, plan.entry(a)->0)[i
                    - plan.entry(a)->0.offset] by {
                    if a != current {
                        plan.lemma_entries_apart(format, a, current);
                        assert(a.spec_ordinal() < before);
                    }
                }
                if forall|a: Attribute| a.spec_ordinal() < visited ==> !#[trigger] in_slot(plan, a, i) {
                    assert(!in_slot(plan, current, i));
                    assert forall|a: Attribute| a.spec_ordinal() < before implies !#[trigger] in_slot(
                        plan,
                        a,
                        i,
                    ) by {}
                }
            },
        }
    }
}

/// Without room for any byte, the entry is empty.
proof fn lemma_empty_prefix(
    format: FormatDescriptor,
    plan: PlanModel,
    order: Endianness,
    record: PointRecord,
    position: WorldPosition,
    visited: nat,
)
    requires
        plan.point_size == 0,
    ensures
        planned_prefix(format, plan, order, record, position, visited).len() == 0,
    decreases visited,
{
    if visited > 0 {
        lemma_empty_prefix(format, plan, order, record, position, (visited - 1) as nat);
    }
}

/// Visiting every attribute of the catalogue, in its order, leaves the entry
/// that the plan describes.
proof fn lemma_visited_all(
    format: FormatDescriptor,
    plan: PlanModel,
    order: Endianness,
    record: PointRecord,
    position: WorldPosition,
)
    requires
        plan.wf(format),
    ensures
        planned_prefix(format, plan, order, record, position, ATTRIBUTE_COUNT as nat)
            == planned_record(format, plan, order, record, position),
{
    let walked = planned_prefix(format, plan, order, record, position, ATTRIBUTE_COUNT as nat);
    let stated = planned_record(format, plan, order, record, position);
    if plan.point_size == 0 {
        lemma_empty_prefix(format, plan, order, record, position, ATTRIBUTE_COUNT as nat);
    } else {
        lemma_prefix_byte(format, plan, order, record, position, ATTRIBUTE_COUNT as nat, 0);
    }
    assert forall|i: int| 0 <= i < plan.point_size implies walked[i] == stated[i] by {
        lemma_prefix_byte(format, plan, order, record, position, ATTRIBUTE_COUNT as nat, i);
        match attribute_of_byte(plan, i) {
            Some(a) => {
                assert(in_slot(plan, a, i));
            },
            None => {
                assert forall|a: Attribute| !#[trigger] in_slot(plan, a, i) by {}
            },
        }
    }
    assert(walked =~= stated);
}

/// Writes `data` over the bytes of `buffer` that start at `offset`.
pub fn write_at(buffer: &mut Vec<u8>, offset: usize, data: &Vec<u8>)
    requires
        offset + data.len() <= old(buffer).len(),
    ensures
        final(buffer)@ == written(old(buffer)@, offset as int, data@),
{
    let mut i: usize = 0;
    while i < data.len()
        invariant
            i <= data@.len(),
            offset + data.len() <= buffer.len(),
            buffer@.len() == old(buffer)@.len(),
            forall|j: int|
                0 <= j < buffer@.len() ==> #[trigger] buffer@[j] == (if offset <= j < offset + i {
                    data@[j - offset]
                } else {
                    old(buffer)@[j]
                }),
        decreases data@.len() - i,
    {
        buffer.set(offset + i, data[i]);
        i = i + 1;
    }
    assert(buffer@ =~= written(old(buffer)@, offset as int, data@));
}

/// The bytes that a plan entry puts into its slot.
pub fn encode_planned(
    format: &FormatDescriptor,
    order: Endianness,
    record: &PointRecord,
    position: &WorldPosition,
    attribute: Attribute,
    entry: &PlanEntry,
) -> (bytes: Vec<u8>)
    requires
        entry_fits(*format, attribute, *entry),
    ensures
        bytes@ == planned_bytes(*format, order, *record, *position, attribute, *entry),
        bytes@.len() == entry.size,
{
    match entry.fill {
        Fill::Zero => repeat_byte(0, entry.size),
        Fill::Copy => encode_attribute(format, order, record, position, attribute),
        Fill::WidenUnsigned | Fill::WidenSigned => widen(
            entry.fill,
            order,
            encode_attribute(format, order, record, position, attribute),
            entry.size,
        ),
        Fill::NarrowPosition => encode_single_position(order, position),
        Fill::NarrowColor => encode_narrow_color(record),
    }
}

/// Writes the point entry of a record in the layout of a plan. It starts from
/// an entry of zero bytes and visits the attributes in the order of the
/// catalogue.
pub fn encode_planned_record(
    format: &FormatDescriptor,
    plan: &ParsePlan,
    order: Endianness,
    record: &PointRecord,
    position: &WorldPosition,
) -> (entry: Vec<u8>)
    requires
        plan@.wf(*format),
    ensures
        entry@ == planned_record(*format, plan@, order, *record, *position),
        entry@.len() == plan@.point_size,
{
    let mut entry = repeat_byte(0, plan.point_size());
    let mut visited: usize = 0;
    while visited < ATTRIBUTE_COUNT
        invariant
            visited <= ATTRIBUTE_COUNT,
            plan@.wf(*format),
            entry@.len() == plan@.point_size,
            entry@ == planned_prefix(*format, plan@, order, *record, *position, visited as nat),
        decreases ATTRIBUTE_COUNT - visited,
    {
        let attribute = Attribute::from_index(visited);
        proof {
            reveal(PlanModel::wf);
        }
        match plan.get(attribute) {
            None => {},
            Some(slot) => {
                proof {
                    plan@.lemma_entry_in_bounds(*format, attribute);
                }
                let bytes = encode_planned(format, order, record, position, attribute, &slot);
                write_at(&mut entry, slot.offset, &bytes);
            },
        }
        visited = visited + 1;
    }
    proof {
        lemma_visited_all(*format, plan@, order, *record, *position);
    }
    entry
}

} // verus!
