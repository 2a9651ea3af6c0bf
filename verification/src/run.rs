//! Decoding runs of records: the records of a stream from one index up to
//! another, entry after entry, into the bytes of an interleaved buffer.

use crate::byte_order::Endianness;
use crate::decode::{encode_natural, encode_planned_record, natural_bytes, planned_record};
use crate::format::{record_width, FormatDescriptor};
use crate::natural::natural_size;
use crate::plan::{ParsePlan, PlanModel};
use crate::record::{read_record, record_at, PointRecord};
use crate::value::WorldPosition;
use vstd::prelude::*;

verus! {

/// The point entry of a record: in the natural layout where there is no plan,
/// else in the layout of the plan.
pub open spec fn entry_bytes(
    format: FormatDescriptor,
    plan: Option<PlanModel>,
    order: Endianness,
    record: PointRecord,
    position: WorldPosition,
) -> Seq<u8> {
    match plan {
        None => natural_bytes(format, order, record, position),
        Some(plan) => planned_record(format, plan, order, record, position),
    }
}

/// Width of a point entry: that of the natural layout where there is no plan.
pub open spec fn entry_size(format: FormatDescriptor, plan: Option<PlanModel>) -> nat {
    match plan {
        None => natural_size(format),
        Some(plan) => plan.point_size,
    }
}

/// The decoded entries of the records from index `first` up to index `end`.
/// Record `i` starts at byte `i * stride` of the source and has the position
/// with index `i`.
pub open spec fn decoded_run(
    format: FormatDescriptor,
    plan: Option<PlanModel>,
    order: Endianness,
    source: Seq<u8>,
    stride: nat,
    positions: Seq<WorldPosition>,
    first: nat,
    end: nat,
) -> Seq<u8>
    decreases end,
{
    if end <= first {
        Seq::empty()
    } else {
        decoded_run(format, plan, order, source, stride, positions, first, (end - 1) as nat)
            + entry_bytes(
            format,
            plan,
            order,
            record_at(format, source, (end - 1) * stride),
            positions[end - 1],
        )
    }
}

/// What a plan handed to a decoder says; nothing where no plan is handed over.
pub open spec fn model_of(plan: Option<&ParsePlan>) -> Option<PlanModel> {
    match plan {
        None => None,
        Some(plan) => Some(plan@),
    }
}

/// Decodes one record of a run.
fn decode_entry(
    format: &FormatDescriptor,
    plan: Option<&ParsePlan>,
    order: Endianness,
    source: &[u8],
    start: usize,
    position: &WorldPosition,
) -> (entry: Vec<u8>)
    requires
        plan matches Some(p) ==> p@.wf(*format),
        start + record_width(*format) <= source.len(),
    ensures
        entry@ == entry_bytes(
            *format,
            model_of(plan),
            order,
            record_at(*format, source@, start as int),
            *position,
        ),
        entry@.len() == entry_size(*format, model_of(plan)),
{
    let (record, _) = read_record(format, source, start);
    match plan {
        None => encode_natural(format, order, &record, position),
        Some(plan) => encode_planned_record(format, plan, order, &record, position),
    }
}

/// Decodes the records from index `first` up to index `end` into the bytes of
/// an interleaved buffer.
pub fn decode_run(
    format: &FormatDescriptor,
    plan: Option<&ParsePlan>,
    order: Endianness,
    source: &[u8],
    stride: usize,
    positions: &[WorldPosition],
    first: usize,
    end: usize,
) -> (out: Vec<u8>)
    requires
        plan matches Some(p) ==> p@.wf(*format),
        record_width(*format) <= stride,
        first <= end <= positions.len(),
        end * stride <= source.len(),
    ensures
        out@ == decoded_run(
            *format,
            model_of(plan),
            order,
            source@,
            stride as nat,
            positions@,
            first as nat,
            end as nat,
        ),
        out@.len() == (end - first) * entry_size(*format, model_of(plan)),
{
    let mut out: Vec<u8> = Vec::new();
    let mut i: usize = first;
    while i < end
        invariant
            plan matches Some(p) ==> p@.wf(*format),
            record_width(*format) <= stride,
            first <= i <= end <= positions.len(),
            end * stride <= source.len(),
            out@ == decoded_run(
                *format,
                model_of(plan),
                order,
                source@,
                stride as nat,
                positions@,
                first as nat,
                i as nat,
            ),
            out@.len() == (i - first) * entry_size(*format, model_of(plan)),
        decreases end - i,
    {
        assert(i * stride + stride <= end * stride) by (nonlinear_arith)
            requires
                i < end,
        ;
        let ghost size = entry_size(*format, model_of(plan));
        assert((i + 1 - first) * size == (i - first) * size + size) by (nonlinear_arith);
        let mut entry = decode_entry(format, plan, order, source, i * stride, &positions[i]);
        out.append(&mut entry);
        i = i + 1;
    }
    out
}

/// A run decoded in two pieces is the run decoded in one: the entries of the
/// records up to `middle`, followed by the entries of the records from there.
pub proof fn lemma_run_splits(
    format: FormatDescriptor,
    plan: Option<PlanModel>,
    order: Endianness,
    source: Seq<u8>,
    stride: nat,
    positions: Seq<WorldPosition>,
    first: nat,
    middle: nat,
    end: nat,
)
    requires
        first <= middle <= end,
    ensures
        decoded_run(format, plan, order, source, stride, positions, first, end) == decoded_run(
            format,
            plan,
            order,
            source,
            stride,
            positions,
            first,
            middle,
        ) + decoded_run(format, plan, order, source, stride, positions, middle, end),
    decreases end,
{
    let whole = decoded_run(format, plan, order, source, stride, positions, first, end);
    let head = decoded_run(format, plan, order, source, stride, positions, first, middle);
    let tail = decoded_run(format, plan, order, source, stride, positions, middle, end);
    if middle == end {
        assert(whole =~= head + tail);
    } else {
        lemma_run_splits(
            format,
            plan,
            order,
            source,
            stride,
            positions,
            first,
            middle,
            (end - 1) as nat,
        );
        assert(whole =~= head + tail);
    }
}

} // verus!
