//! Laws of reading: what holds of every stream, every layout and every way of
//! cutting a read into chunks.

use crate::agreement::{
    lemma_natural_bytes_slot, lemma_natural_layout_is_supported, lemma_runs_agree,
};
use crate::natural::{is_natural, natural_slot};
use crate::attribute::Attribute;
use crate::buffer::PointBuffer;
use crate::byte_order::Endianness;
use crate::cursor::{clamped_index, points_to_read, seek_target, SeekFrom};
use crate::format::FormatDescriptor;
use crate::plan::{PlanError, PlanModel};
use crate::reader::ReaderState;
use crate::record::record_at;
use crate::run::{decoded_run, entry_bytes, entry_size, lemma_run_splits};
use crate::slots::lemma_planned_record_len;
use crate::value::WorldPosition;
use vstd::prelude::*;

verus! {

/// A run of records decodes to as many entries as it has records, each as
/// wide as the layout says.
pub proof fn lemma_run_len(
    format: FormatDescriptor,
    plan: Option<PlanModel>,
    order: Endianness,
    source: Seq<u8>,
    stride: nat,
    positions: Seq<WorldPosition>,
    first: nat,
    end: nat,
)
    requires
        plan matches Some(p) ==> p.wf(format),
        first <= end,
    ensures
        decoded_run(format, plan, order, source, stride, positions, first, end).len() == (end
            - first) * entry_size(format, plan),
    decreases end,
{
    let size = entry_size(format, plan);
    if first < end {
        let before = (end - 1) as nat;
        lemma_run_len(format, plan, order, source, stride, positions, first, before);
        let record = record_at(format, source, (before * stride) as int);
        let position = positions[before as int];
        match plan {
            None => {
                lemma_natural_bytes_slot(format, order, record, position, Attribute::Position);
            },
            Some(p) => {
                lemma_planned_record_len(format, p, order, record, position);
            },
        }
        assert(entry_bytes(format, plan, order, record, position).len() == size);
        assert((end - first) * size == (before - first) * size + size) by (nonlinear_arith)
            requires
                before == end - 1,
        ;
    } else {
        assert((end - first) * size == 0) by (nonlinear_arith)
            requires
                end == first,
        ;
    }
}

/// Reading after a seek returns what a read from the start returns for the
/// same points: the entries of the records from index `skipped` on are the
/// entries with these indices among those of the records from index 0 on.
pub proof fn lemma_read_after_seek(
    format: FormatDescriptor,
    plan: Option<PlanModel>,
    order: Endianness,
    source: Seq<u8>,
    stride: nat,
    positions: Seq<WorldPosition>,
    skipped: nat,
    count: nat,
    total: nat,
)
    requires
        plan matches Some(p) ==> p.wf(format),
        skipped + count <= total,
    ensures
        decoded_run(format, plan, order, source, stride, positions, skipped, skipped + count)
            == decoded_run(format, plan, order, source, stride, positions, 0, total).subrange(
            (skipped * entry_size(format, plan)) as int,
            ((skipped + count) * entry_size(format, plan)) as int,
        ),
{
    let size = entry_size(format, plan);
    let end = skipped + count;
    let head = decoded_run(format, plan, order, source, stride, positions, 0, skipped);
    let wanted = decoded_run(format, plan, order, source, stride, positions, skipped, end);
    let upto = decoded_run(format, plan, order, source, stride, positions, 0, end);
    let tail = decoded_run(format, plan, order, source, stride, positions, end, total);
    let whole = decoded_run(format, plan, order, source, stride, positions, 0, total);
    lemma_run_splits(format, plan, order, source, stride, positions, 0, skipped, end);
    lemma_run_splits(format, plan, order, source, stride, positions, 0, end, total);
    lemma_run_len(format, plan, order, source, stride, positions, 0, skipped);
    lemma_run_len(format, plan, order, source, stride, positions, skipped, end);
    lemma_run_len(format, plan, order, source, stride, positions, 0, end);
    assert((end - skipped) * size + skipped * size == end * size) by (nonlinear_arith);
    assert(whole == (head + wanted) + tail);
    assert(wanted =~= whole.subrange((skipped * size) as int, (end * size) as int));
}

/// A seek to or past the end leaves the reader at the point count, and a read
/// from there takes no point.
pub proof fn lemma_seek_past_end(point_count: nat, current: nat, position: SeekFrom, count: nat)
    requires
        current <= point_count,
        seek_target(point_count, current, position) >= point_count,
    ensures
        clamped_index(point_count, seek_target(point_count, current, position)) == point_count,
        points_to_read(
            count,
            (point_count - clamped_index(point_count, seek_target(point_count, current, position))) as nat,
        ) == 0,
{
}

/// Where a reader stands after a read does not depend on the layout of the
/// buffer: two reads of the same number of points from the same state, into
/// buffers of any two layouts, take the same number of points and leave the
/// reader at the same point.
pub proof fn lemma_cursor_ignores_layout(
    state: ReaderState,
    count: nat,
    data: Seq<u8>,
    positions: Seq<WorldPosition>,
    first_buffer: PointBuffer,
    first_buffer_after: PointBuffer,
    first_after: ReaderState,
    first_read: Result<usize, PlanError>,
    second_buffer: PointBuffer,
    second_buffer_after: PointBuffer,
    second_after: ReaderState,
    second_read: Result<usize, PlanError>,
)
    requires
        state.reads_into(
            first_after,
            data,
            positions,
            first_buffer,
            first_buffer_after,
            count,
            first_read,
        ),
        state.reads_into(
            second_after,
            data,
            positions,
            second_buffer,
            second_buffer_after,
            count,
            second_read,
        ),
        first_read is Ok,
        second_read is Ok,
    ensures
        first_read->Ok_0 == second_read->Ok_0,
        first_after.spec_point_index() == second_after.spec_point_index(),
        first_after.spec_point_index() == state.spec_point_index() + points_to_read(
            count,
            state.spec_remaining_points(),
        ),
{
}

/// The chunk size does not show in what a read returns: two readers that
/// differ in nothing but the chunk size append the same bytes.
pub proof fn lemma_chunk_size_does_not_show(
    first: ReaderState,
    second: ReaderState,
    plan: Option<PlanModel>,
    count: nat,
    data: Seq<u8>,
    positions: Seq<WorldPosition>,
    buffer: PointBuffer,
    first_buffer_after: PointBuffer,
    first_after: ReaderState,
    first_read: nat,
    second_buffer_after: PointBuffer,
    second_after: ReaderState,
    second_read: nat,
)
    requires
        first.spec_format() == second.spec_format(),
        first.spec_byte_order() == second.spec_byte_order(),
        first.spec_point_count() == second.spec_point_count(),
        first.spec_point_index() == second.spec_point_index(),
        first.spec_size_of_point_in_file() == second.spec_size_of_point_in_file(),
        first.read_effect(
            first_after,
            plan,
            data,
            positions,
            buffer,
            first_buffer_after,
            count,
            first_read,
        ),
        second.read_effect(
            second_after,
            plan,
            data,
            positions,
            buffer,
            second_buffer_after,
            count,
            second_read,
        ),
    ensures
        first_read == second_read,
        first_buffer_after.bytes() == second_buffer_after.bytes(),
        first_after.spec_point_index() == second_after.spec_point_index(),
{
}

/// The default path is the custom path on the natural layout: a read into a
/// buffer of the natural layout does what the custom path would do for that
/// layout.
pub proof fn lemma_default_path_is_custom_path(
    state: ReaderState,
    count: nat,
    data: Seq<u8>,
    positions: Seq<WorldPosition>,
    buffer: PointBuffer,
    buffer_after: PointBuffer,
    after: ReaderState,
    read: Result<usize, PlanError>,
)
    requires
        state.wf(),
        buffer.wf(),
        state.reads_into(after, data, positions, buffer, buffer_after, count, read),
    ensures
        state.reads_custom(after, data, positions, buffer, buffer_after, count, read),
{
    let target = buffer.spec_point_layout();
    if target.same_as(state.spec_layout()) {
        assert(is_natural(state.spec_format(), target)) by {
            assert forall|a: Attribute| #[trigger]
                target.slot(a) == natural_slot(state.spec_format(), a) by {
                assert(target.slot(a) == state.spec_layout().slot(a));
            }
        }
        lemma_natural_layout_is_supported(state.spec_format(), target);
        lemma_runs_agree(
            state.spec_format(),
            target,
            state.spec_byte_order(),
            data,
            state.spec_size_of_point_in_file(),
            positions,
            state.spec_point_index(),
            state.spec_point_index() + (read->Ok_0 as nat),
        );
    }
}

} // verus!
