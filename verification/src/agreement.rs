//! The two paths agree: decoding into a target that has the natural layout
//! gives, byte for byte, what the default path writes.

use crate::attribute::Attribute;
use crate::byte_order::Endianness;
use crate::decode::{natural_bytes, planned_bytes, planned_record};
use crate::format::FormatDescriptor;
use crate::layout::PointLayout;
use crate::natural::{
    is_natural, natural_fixed_size, natural_offset, natural_size, natural_slot,
    natural_waveform_offset,
};
use crate::plan::{lemma_plan_wf, plan_for, planned_entry, unsupported};
use crate::record::{record_at, PointRecord};
use crate::run::decoded_run;
use crate::slots::{lemma_planned_record_len, lemma_slot_holds_planned_bytes};
use crate::value::{lemma_source_bytes_len, source_bytes, WorldPosition};
use vstd::prelude::*;

verus! {

/// The lengths of the source bytes of all attributes.
proof fn lemma_all_source_lens(
    format: FormatDescriptor,
    order: Endianness,
    record: PointRecord,
    position: WorldPosition,
)
    ensures
        forall|a: Attribute| #[trigger]
            source_bytes(format, order, record, position, a).len() == a.spec_source_type(
                format,
            ).spec_size(),
{
    assert forall|a: Attribute| #[trigger]
        source_bytes(format, order, record, position, a).len() == a.spec_source_type(
            format,
        ).spec_size() by {
        lemma_source_bytes_len(format, order, record, position, a);
    }
}

/// Whether `part` stands in `whole` at offset `at`.
pub open spec fn stands_at(whole: Seq<u8>, at: int, part: Seq<u8>) -> bool {
    0 <= at && at + part.len() <= whole.len() && whole.subrange(at, at + part.len()) == part
}

/// What stands in a sequence stays where it is when the sequence grows, and
/// what is appended stands at the old end.
proof fn lemma_grow(whole: Seq<u8>, piece: Seq<u8>, at: int, part: Seq<u8>)
    ensures
        (whole + piece).len() == whole.len() + piece.len(),
        stands_at(whole, at, part) ==> stands_at(whole + piece, at, part),
        at == whole.len() && piece == part ==> stands_at(whole + piece, at, part),
        whole.len() == 0 ==> whole + piece == piece,
{
    if stands_at(whole, at, part) {
        assert((whole + piece).subrange(at, at + part.len()) =~= whole.subrange(
            at,
            at + part.len(),
        ));
    }
    if at == whole.len() && piece == part {
        assert((whole + piece).subrange(at, at + part.len()) =~= part);
    }
    if whole.len() == 0 {
        assert(whole + piece =~= piece);
    }
}

/// In an entry of the default path, every attribute of the format stands at
/// its offset in the natural layout, and the entry is as wide as that layout.
pub proof fn lemma_natural_bytes_slot(
    format: FormatDescriptor,
    order: Endianness,
    record: PointRecord,
    position: WorldPosition,
    attribute: Attribute,
)
    requires
        attribute.spec_in_format(format),
    ensures
        natural_bytes(format, order, record, position).len() == natural_size(format),
        stands_at(
            natural_bytes(format, order, record, position),
            natural_offset(format, attribute) as int,
            source_bytes(format, order, record, position, attribute),
        ),
{
    lemma_all_source_lens(format, order, record, position);
    let part = source_bytes(format, order, record, position, attribute);
    let at = natural_offset(format, attribute) as int;
    let mut entry: Seq<u8> = Seq::empty();
    let mut next = source_bytes(format, order, record, position, Attribute::Position);
    lemma_grow(entry, next, at, part);
    entry = entry + next;
    next = source_bytes(format, order, record, position, Attribute::Intensity);
    lemma_grow(entry, next, at, part);
    entry = entry + next;
    next = source_bytes(format, order, record, position, Attribute::ReturnNumber);
    lemma_grow(entry, next, at, part);
    entry = entry + next;
    next = source_bytes(format, order, record, position, Attribute::NumberOfReturns);
    lemma_grow(entry, next, at, part);
    entry = entry + next;
    if format.is_extended {
        next = source_bytes(format, order, record, position, Attribute::ClassificationFlags);
        lemma_grow(entry, next, at, part);
        entry = entry + next;
        next = source_bytes(format, order, record, position, Attribute::ScannerChannel);
        lemma_grow(entry, next, at, part);
        entry = entry + next;
    }
    next = source_bytes(format, order, record, position, Attribute::ScanDirectionFlag);
    lemma_grow(entry, next, at, part);
    entry = entry + next;
    next = source_bytes(format, order, record, position, Attribute::EdgeOfFlightLine);
    lemma_grow(entry, next, at, part);
    entry = entry + next;
    next = source_bytes(format, order, record, position, Attribute::Classification);
    lemma_grow(entry, next, at, part);
    entry = entry + next;
    if format.is_extended {
        next = source_bytes(format, order, record, position, Attribute::UserData);
        lemma_grow(entry, next, at, part);
        entry = entry + next;
        next = source_bytes(format, order, record, position, Attribute::ScanAngle);
        lemma_grow(entry, next, at, part);
        entry = entry + next;
    } else {
        next = source_bytes(format, order, record, position, Attribute::ScanAngle);
        lemma_grow(entry, next, at, part);
        entry = entry + next;
        next = source_bytes(format, order, record, position, Attribute::UserData);
        lemma_grow(entry, next, at, part);
        entry = entry + next;
    }
    next = source_bytes(format, order, record, position, Attribute::PointSourceId);
    lemma_grow(entry, next, at, part);
    entry = entry + next;
    if format.has_gps_time {
        next = source_bytes(format, order, record, position, Attribute::GpsTime);
        lemma_grow(entry, next, at, part);
        entry = entry + next;
    }
    if format.has_color {
        next = source_bytes(format, order, record, position, Attribute::Color);
        lemma_grow(entry, next, at, part);
        entry = entry + next;
    }
    if format.has_nir {
        next = source_bytes(format, order, record, position, Attribute::Nir);
        lemma_grow(entry, next, at, part);
        entry = entry + next;
    }
    if format.has_waveform {
        next = source_bytes(format, order, record, position, Attribute::WavePacketIndex);
        lemma_grow(entry, next, at, part);
        entry = entry + next;
        next = source_bytes(format, order, record, position, Attribute::WaveformByteOffset);
        lemma_grow(entry, next, at, part);
        entry = entry + next;
        next = source_bytes(format, order, record, position, Attribute::WaveformPacketSize);
        lemma_grow(entry, next, at, part);
        entry = entry + next;
        next = source_bytes(format, order, record, position, Attribute::WaveformReturnPoint);
        lemma_grow(entry, next, at, part);
        entry = entry + next;
        next = source_bytes(format, order, record, position, Attribute::WaveformParameters);
        lemma_grow(entry, next, at, part);
        entry = entry + next;
    }
    assert(entry == natural_bytes(format, order, record, position));
}

/// The attribute of the format in whose natural slot byte `i` lies.
pub open spec fn natural_attribute_at(format: FormatDescriptor, i: int) -> Attribute {
    let shift: int = if format.is_extended { 2 } else { 0 };
    let gps = natural_fixed_size(format) as int;
    let color = gps + (if format.has_gps_time { 8int } else { 0int });
    let nir = color + (if format.has_color { 6int } else { 0int });
    let wave = natural_waveform_offset(format) as int;
    if i < 24 {
        Attribute::Position
    } else if i < 26 {
        Attribute::Intensity
    } else if i < 27 {
        Attribute::ReturnNumber
    } else if i < 28 {
        Attribute::NumberOfReturns
    } else if i < 28 + shift {
        if i == 28 {
            Attribute::ClassificationFlags
        } else {
            Attribute::ScannerChannel
        }
    } else if i < 29 + shift {
        Attribute::ScanDirectionFlag
    } else if i < 30 + shift {
        Attribute::EdgeOfFlightLine
    } else if i < 31 + shift {
        Attribute::Classification
    } else if i < gps - 2 {
        if format.is_extended {
            if i == 33 {
                Attribute::UserData
            } else {
                Attribute::ScanAngle
            }
        } else {
            if i == 31 {
                Attribute::ScanAngle
            } else {
                Attribute::UserData
            }
        }
    } else if i < gps {
        Attribute::PointSourceId
    } else if i < color {
        Attribute::GpsTime
    } else if i < nir {
        Attribute::Color
    } else if i < wave {
        Attribute::Nir
    } else if i < wave + 1 {
        Attribute::WavePacketIndex
    } else if i < wave + 9 {
        Attribute::WaveformByteOffset
    } else if i < wave + 13 {
        Attribute::WaveformPacketSize
    } else if i < wave + 17 {
        Attribute::WaveformReturnPoint
    } else {
        Attribute::WaveformParameters
    }
}

/// The natural slots leave no gap: every byte of an entry lies in the slot of
/// an attribute that the format holds.
pub proof fn lemma_natural_slots_cover(format: FormatDescriptor, i: int)
    requires
        0 <= i < natural_size(format),
    ensures
        natural_attribute_at(format, i).spec_in_format(format),
        natural_offset(format, natural_attribute_at(format, i)) <= i < natural_offset(
            format,
            natural_attribute_at(format, i),
        ) + natural_attribute_at(format, i).spec_source_type(format).spec_size(),
{
}

/// Decoding into a target that has the natural layout of the format gives the
/// entry of the default path.
pub proof fn lemma_paths_agree(
    format: FormatDescriptor,
    layout: PointLayout,
    order: Endianness,
    record: PointRecord,
    position: WorldPosition,
)
    requires
        layout.wf(),
        is_natural(format, layout),
    ensures
        planned_record(format, plan_for(format, layout), order, record, position) == natural_bytes(
            format,
            order,
            record,
            position,
        ),
{
    let plan = plan_for(format, layout);
    let custom = planned_record(format, plan, order, record, position);
    let default = natural_bytes(format, order, record, position);
    lemma_plan_wf(format, layout);
    lemma_planned_record_len(format, plan, order, record, position);
    lemma_natural_bytes_slot(format, order, record, position, Attribute::Position);
    assert forall|i: int| 0 <= i < custom.len() implies custom[i] == default[i] by {
        let a = natural_attribute_at(format, i);
        lemma_natural_slots_cover(format, i);
        assert(layout.slot(a) == natural_slot(format, a));
        assert(plan.entry(a) == planned_entry(format, layout.slot(a), a));
        let entry = plan.entry(a)->0;
        lemma_slot_holds_planned_bytes(format, plan, order, record, position, a);
        lemma_natural_bytes_slot(format, order, record, position, a);
        let bytes = source_bytes(format, order, record, position, a);
        assert(planned_bytes(format, order, record, position, a, entry) == bytes);
        assert(custom.subrange(entry.offset as int, entry.offset + entry.size)[i - entry.offset]
            == bytes[i - entry.offset]);
        assert(default.subrange(entry.offset as int, entry.offset + bytes.len())[i - entry.offset]
            == bytes[i - entry.offset]);
    }
    assert(custom =~= default);
}

/// Every attribute of the natural layout can be filled: it has its source
/// type.
pub proof fn lemma_natural_layout_is_supported(format: FormatDescriptor, layout: PointLayout)
    requires
        is_natural(format, layout),
    ensures
        forall|a: Attribute| !unsupported(format, layout, a),
{
    assert forall|a: Attribute| !unsupported(format, layout, a) by {
        assert(layout.slot(a) == natural_slot(format, a));
    }
}

/// Decoding a run of records into a target that has the natural layout gives
/// the entries of the default path.
pub proof fn lemma_runs_agree(
    format: FormatDescriptor,
    layout: PointLayout,
    order: Endianness,
    source: Seq<u8>,
    stride: nat,
    positions: Seq<WorldPosition>,
    first: nat,
    end: nat,
)
    requires
        layout.wf(),
        is_natural(format, layout),
    ensures
        decoded_run(
            format,
            Some(plan_for(format, layout)),
            order,
            source,
            stride,
            positions,
            first,
            end,
        ) == decoded_run(format, None, order, source, stride, positions, first, end),
    decreases end,
{
    if first < end {
        let before = (end - 1) as nat;
        lemma_runs_agree(format, layout, order, source, stride, positions, first, before);
        lemma_paths_agree(
            format,
            layout,
            order,
            record_at(format, source, (before * stride) as int),
            positions[before as int],
        );
    }
}

} // verus!
