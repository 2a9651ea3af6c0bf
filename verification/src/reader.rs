//! The state and the decisions of a point reader, without its stream.
//!
//! A reader knows the format of its stream, how far apart records start, how
//! many points there are and at which point it stands. The bytes come from
//! outside: a chunk of records at a time for a reader that follows a stream,
//! or the whole point data for a reader over memory.

use crate::agreement::{lemma_natural_layout_is_supported, lemma_runs_agree};
use crate::attribute::Attribute;
use crate::buffer::PointBuffer;
use crate::byte_order::Endianness;
use crate::cursor::{
    clamped_index, points_in_chunk, points_to_read, resolve_seek, seek_target, SeekError, SeekFrom,
    DEFAULT_CHUNK_SIZE,
};
use crate::format::{record_width, FormatDescriptor, OpenError};
use crate::layout::PointLayout;
use crate::natural::{is_natural, natural_layout, natural_size, natural_slot};
use crate::plan::{plan_for, unsupported, ParsePlan, PlanError, PlanModel};
use crate::run::{decode_run, decoded_run, entry_size, lemma_run_splits, model_of};
use crate::value::WorldPosition;
use vstd::prelude::*;

verus! {

/// What every reader holds, whatever its stream.
#[derive(Debug)]
pub struct ReaderState {
    format: FormatDescriptor,
    byte_order: Endianness,
    layout: PointLayout,
    point_count: usize,
    current_point_index: usize,
    size_of_point_in_file: usize,
    chunk_size: usize,
}

impl ReaderState {
    /// Format of the records.
    pub closed spec fn spec_format(self) -> FormatDescriptor {
        self.format
    }

    /// Byte order of the buffers that the reader fills.
    pub closed spec fn spec_byte_order(self) -> Endianness {
        self.byte_order
    }

    /// The natural layout of the format.
    pub closed spec fn spec_layout(self) -> PointLayout {
        self.layout
    }

    /// Number of points in the stream.
    pub closed spec fn spec_point_count(self) -> nat {
        self.point_count as nat
    }

    /// Index of the point at which the reader stands.
    pub closed spec fn spec_point_index(self) -> nat {
        self.current_point_index as nat
    }

    /// Distance in bytes between the starts of two records.
    pub closed spec fn spec_size_of_point_in_file(self) -> nat {
        self.size_of_point_in_file as nat
    }

    /// Number of records decoded in one pass.
    pub closed spec fn spec_chunk_size(self) -> nat {
        self.chunk_size as nat
    }

    /// The reader stands inside its stream, records are at least as far apart
    /// as the format's fields are wide and no further than a header can say,
    /// and the layout is the natural one.
    pub open spec fn wf(self) -> bool {
        &&& self.spec_format().valid()
        &&& record_width(self.spec_format()) <= self.spec_size_of_point_in_file()
        &&& self.spec_point_index() <= self.spec_point_count() <= usize::MAX
        &&& self.spec_size_of_point_in_file() <= u16::MAX
        &&& 0 < self.spec_chunk_size() <= usize::MAX
        &&& self.spec_layout().wf()
        &&& is_natural(self.spec_format(), self.spec_layout())
    }

    /// Number of points between the reader and the end of the stream.
    pub open spec fn spec_remaining_points(self) -> nat {
        (self.spec_point_count() - self.spec_point_index()) as nat
    }

    /// Whether `data` and `positions` hold every point of the stream: record
    /// `i` at byte `i` times the record distance, its position at index `i`.
    pub open spec fn holds(self, data: Seq<u8>, positions: Seq<WorldPosition>) -> bool {
        &&& self.spec_point_count() * self.spec_size_of_point_in_file() <= data.len()
        &&& self.spec_point_count() <= positions.len()
    }

    /// Whether two readers differ at most in the point at which they stand.
    pub open spec fn same_stream(self, other: ReaderState) -> bool {
        &&& self.spec_format() == other.spec_format()
        &&& self.spec_byte_order() == other.spec_byte_order()
        &&& self.spec_layout() == other.spec_layout()
        &&& self.spec_point_count() == other.spec_point_count()
        &&& self.spec_size_of_point_in_file() == other.spec_size_of_point_in_file()
        &&& self.spec_chunk_size() == other.spec_chunk_size()
    }

    /// The entries of the records from index `first` up to index `end`, in the
    /// natural layout where there is no plan.
    pub open spec fn decoded(
        self,
        plan: Option<PlanModel>,
        data: Seq<u8>,
        positions: Seq<WorldPosition>,
        first: nat,
        end: nat,
    ) -> Seq<u8> {
        decoded_run(
            self.spec_format(),
            plan,
            self.spec_byte_order(),
            data,
            self.spec_size_of_point_in_file(),
            positions,
            first,
            end,
        )
    }

    /// What a read of `count` points does: it takes the points that are left,
    /// up to `count` of them, appends their entries to the buffer and moves the
    /// reader behind them. How the read is cut into chunks does not show.
    pub open spec fn read_effect(
        self,
        after: ReaderState,
        plan: Option<PlanModel>,
        data: Seq<u8>,
        positions: Seq<WorldPosition>,
        buffer: PointBuffer,
        buffer_after: PointBuffer,
        count: nat,
        read: nat,
    ) -> bool {
        &&& read == points_to_read(count, self.spec_remaining_points())
        &&& after.same_stream(self)
        &&& after.spec_point_index() == self.spec_point_index() + read
        &&& buffer_after.spec_point_layout() == buffer.spec_point_layout()
        &&& buffer_after.spec_len() == buffer.spec_len() + read
        &&& buffer_after.bytes() == buffer.bytes() + self.decoded(
            plan,
            data,
            positions,
            self.spec_point_index(),
            self.spec_point_index() + read,
        )
    }

    /// What `read_into` does. Where the buffer has the natural layout it reads
    /// along the default path, which cannot fail. Else it reads along the
    /// custom path: it succeeds where no point is left to read or every
    /// attribute that the buffer declares can be filled, and else fails at the
    /// first attribute of the catalogue that cannot, with nothing read.
    pub open spec fn reads_into(
        self,
        after: ReaderState,
        data: Seq<u8>,
        positions: Seq<WorldPosition>,
        buffer: PointBuffer,
        buffer_after: PointBuffer,
        count: nat,
        read: Result<usize, PlanError>,
    ) -> bool {
        let target = buffer.spec_point_layout();
        if target.same_as(self.spec_layout()) {
            &&& read is Ok
            &&& self.read_effect(
                after,
                None,
                data,
                positions,
                buffer,
                buffer_after,
                count,
                read->Ok_0 as nat,
            )
        } else {
            self.reads_custom(after, data, positions, buffer, buffer_after, count, read)
        }
    }

    /// What a read along the custom path does.
    pub open spec fn reads_custom(
        self,
        after: ReaderState,
        data: Seq<u8>,
        positions: Seq<WorldPosition>,
        buffer: PointBuffer,
        buffer_after: PointBuffer,
        count: nat,
        read: Result<usize, PlanError>,
    ) -> bool {
        let target = buffer.spec_point_layout();
        &&& read is Ok <==> points_to_read(count, self.spec_remaining_points()) == 0
            || forall|a: Attribute| !unsupported(self.spec_format(), target, a)
        &&& read matches Ok(points) ==> self.read_effect(
            after,
            Some(plan_for(self.spec_format(), target)),
            data,
            positions,
            buffer,
            buffer_after,
            count,
            points as nat,
        )
        &&& read matches Err(PlanError::UnsupportedConversion { attribute }) ==> {
            &&& after == self
            &&& buffer_after == buffer
            &&& unsupported(self.spec_format(), target, attribute)
            &&& forall|b: Attribute|
                b.spec_ordinal() < attribute.spec_ordinal() ==> !unsupported(
                    self.spec_format(),
                    target,
                    b,
                )
        }
    }

    /// What `read` does: it takes the points that are left, up to `count` of
    /// them, returns their entries in a new buffer of the natural layout and
    /// moves the reader behind them.
    pub open spec fn reads(
        self,
        after: ReaderState,
        data: Seq<u8>,
        positions: Seq<WorldPosition>,
        count: nat,
        buffer: PointBuffer,
        read: nat,
    ) -> bool {
        &&& read == points_to_read(count, self.spec_remaining_points())
        &&& after.same_stream(self)
        &&& after.spec_point_index() == self.spec_point_index() + read
        &&& buffer.wf()
        &&& buffer.spec_point_layout().same_as(self.spec_layout())
        &&& buffer.spec_len() == read
        &&& buffer.bytes() == self.decoded(
            None,
            data,
            positions,
            self.spec_point_index(),
            self.spec_point_index() + read,
        )
    }

    /// A reader at the first point of a stream. Fails where records start
    /// closer to each other than the fields of the format are wide.
    pub fn new(
        format: FormatDescriptor,
        byte_order: Endianness,
        point_count: usize,
        size_of_point_in_file: u16,
    ) -> (made: Result<ReaderState, OpenError>)
        requires
            format.valid(),
        ensures
            size_of_point_in_file < record_width(format) ==> made == Err::<ReaderState, OpenError>(
                OpenError::Format,
            ),
            size_of_point_in_file >= record_width(format) ==> made is Ok,
            made matches Ok(reader) ==> {
                &&& reader.wf()
                &&& reader.spec_format() == format
                &&& reader.spec_byte_order() == byte_order
                &&& reader.spec_point_count() == point_count
                &&& reader.spec_point_index() == 0
                &&& reader.spec_size_of_point_in_file() == size_of_point_in_file
                &&& reader.spec_chunk_size() == DEFAULT_CHUNK_SIZE
            },
    {
        if (size_of_point_in_file as usize) < format.record_width() {
            return Err(OpenError::Format);
        }
        Ok(
            ReaderState {
                format,
                byte_order,
                layout: natural_layout(&format),
                point_count,
                current_point_index: 0,
                size_of_point_in_file: size_of_point_in_file as usize,
                chunk_size: DEFAULT_CHUNK_SIZE,
            },
        )
    }

    /// Sets the number of records decoded in one pass, which bounds the memory
    /// that a read takes and changes nothing that it returns.
    pub fn set_chunk_size(&mut self, chunk_size: usize)
        requires
            old(self).wf(),
            chunk_size > 0,
        ensures
            final(self).wf(),
            final(self).spec_chunk_size() == chunk_size,
            final(self).spec_format() == old(self).spec_format(),
            final(self).spec_byte_order() == old(self).spec_byte_order(),
            final(self).spec_layout() == old(self).spec_layout(),
            final(self).spec_point_count() == old(self).spec_point_count(),
            final(self).spec_point_index() == old(self).spec_point_index(),
            final(self).spec_size_of_point_in_file() == old(self).spec_size_of_point_in_file(),
    {
        self.chunk_size = chunk_size;
    }

    /// Format of the records.
    pub fn format(&self) -> (format: &FormatDescriptor)
        ensures
            *format == self.spec_format(),
    {
        &self.format
    }

    /// Byte order of the buffers that the reader fills.
    pub fn byte_order(&self) -> (order: Endianness)
        ensures
            order == self.spec_byte_order(),
    {
        self.byte_order
    }

    /// Number of points in the stream.
    pub fn point_count(&self) -> (count: usize)
        ensures
            count == self.spec_point_count(),
    {
        self.point_count
    }

    /// Index of the point at which the reader stands.
    pub fn point_index(&self) -> (index: usize)
        ensures
            index == self.spec_point_index(),
    {
        self.current_point_index
    }

    /// Distance in bytes between the starts of two records.
    pub fn size_of_point_in_file(&self) -> (size: usize)
        ensures
            size == self.spec_size_of_point_in_file(),
    {
        self.size_of_point_in_file
    }

    /// Number of records decoded in one pass.
    pub fn chunk_size(&self) -> (size: usize)
        ensures
            size == self.spec_chunk_size(),
    {
        self.chunk_size
    }

    /// The natural layout of the format, in which `read` returns points.
    pub fn get_default_point_layout(&self) -> (layout: &PointLayout)
        ensures
            *layout == self.spec_layout(),
    {
        &self.layout
    }

    /// Number of points between the reader and the end of the stream.
    pub fn remaining_points(&self) -> (remaining: usize)
        requires
            self.wf(),
        ensures
            remaining == self.spec_remaining_points(),
    {
        self.point_count - self.current_point_index
    }

    /// Number of points that a read of `count` points takes: the points that
    /// are left, up to `count` of them.
    pub fn num_points_to_read(&self, count: usize) -> (points: usize)
        requires
            self.wf(),
        ensures
            points == points_to_read(count as nat, self.spec_remaining_points()),
    {
        let remaining = self.remaining_points();
        if count <= remaining {
            count
        } else {
            remaining
        }
    }

    /// Moves the reader behind `points` points that a caller has decoded chunk
    /// by chunk.
    pub fn advance(&mut self, points: usize)
        requires
            old(self).wf(),
            points <= old(self).spec_remaining_points(),
        ensures
            final(self).wf(),
            final(self).same_stream(*old(self)),
            final(self).spec_point_index() == old(self).spec_point_index() + points,
    {
        self.current_point_index = self.current_point_index + points;
    }

    /// Moves the reader to a position, held to the range of the stream. A
    /// position before the first point is refused and leaves the reader where
    /// it stands. The second result says whether the reader moved.
    pub fn seek(&mut self, position: SeekFrom) -> (sought: Result<(usize, bool), SeekError>)
        requires
            old(self).wf(),
        ensures
            final(self).wf(),
            final(self).same_stream(*old(self)),
            seek_target(old(self).spec_point_count(), old(self).spec_point_index(), position) < 0
                ==> sought == Err::<(usize, bool), SeekError>(SeekError::InvalidSeek)
                && final(self).spec_point_index() == old(self).spec_point_index(),
            seek_target(old(self).spec_point_count(), old(self).spec_point_index(), position) >= 0
                ==> sought == Ok::<(usize, bool), SeekError>(
                (
                    final(self).spec_point_index() as usize,
                    final(self).spec_point_index() != old(self).spec_point_index(),
                ),
            ) && final(self).spec_point_index() == clamped_index(
                old(self).spec_point_count(),
                seek_target(old(self).spec_point_count(), old(self).spec_point_index(), position),
            ),
    {
        match resolve_seek(self.point_count, self.current_point_index, position) {
            Err(error) => Err(error),
            Ok(index) => {
                let moved = index != self.current_point_index;
                self.current_point_index = index;
                Ok((index, moved))
            },
        }
    }

    /// Decodes a chunk of records into entries of the natural layout. The
    /// chunk holds its records from its first byte on, and `positions` holds
    /// their positions from index 0 on.
    pub fn read_chunk_default_layout(
        &self,
        source: &[u8],
        positions: &[WorldPosition],
        num_points_in_chunk: usize,
    ) -> (chunk: Vec<u8>)
        requires
            self.wf(),
            num_points_in_chunk * self.spec_size_of_point_in_file() <= source.len(),
            num_points_in_chunk <= positions.len(),
        ensures
            chunk@ == self.decoded(None, source@, positions@, 0, num_points_in_chunk as nat),
            chunk@.len() == num_points_in_chunk * natural_size(self.spec_format()),
    {
        decode_run(
            &self.format,
            None,
            self.byte_order,
            source,
            self.size_of_point_in_file,
            positions,
            0,
            num_points_in_chunk,
        )
    }

    /// Decodes a chunk of records into entries of a target layout, for which
    /// it makes the plan afresh. Fails where the target declares an attribute
    /// in a type that cannot be filled.
    pub fn read_chunk_custom_layout(
        &self,
        source: &[u8],
        positions: &[WorldPosition],
        num_points_in_chunk: usize,
        target_layout: &PointLayout,
    ) -> (chunk: Result<Vec<u8>, PlanError>)
        requires
            self.wf(),
            target_layout.wf(),
            num_points_in_chunk * self.spec_size_of_point_in_file() <= source.len(),
            num_points_in_chunk <= positions.len(),
        ensures
            chunk is Ok <==> forall|a: Attribute| !unsupported(self.spec_format(), *target_layout, a),
            chunk matches Ok(entries) ==> entries@ == self.decoded(
                Some(plan_for(self.spec_format(), *target_layout)),
                source@,
                positions@,
                0,
                num_points_in_chunk as nat,
            ) && entries@.len() == num_points_in_chunk * target_layout.spec_size_of_point_entry(),
            chunk matches Err(PlanError::UnsupportedConversion { attribute }) ==> unsupported(
                self.spec_format(),
                *target_layout,
                attribute,
            ) && forall|b: Attribute|
                b.spec_ordinal() < attribute.spec_ordinal() ==> !unsupported(
                    self.spec_format(),
                    *target_layout,
                    b,
                ),
    {
        match ParsePlan::resolve(&self.format, target_layout) {
            Err(error) => Err(error),
            Ok(plan) => Ok(
                decode_run(
                    &self.format,
                    Some(&plan),
                    self.byte_order,
                    source,
                    self.size_of_point_in_file,
                    positions,
                    0,
                    num_points_in_chunk,
                ),
            ),
        }
    }

    /// Decodes a chunk of records into entries of a target layout: along the
    /// default path where the target is the natural layout, else along the
    /// custom path. Both give what the custom path gives.
    pub fn read_chunk(
        &self,
        source: &[u8],
        positions: &[WorldPosition],
        num_points_in_chunk: usize,
        target_layout: &PointLayout,
    ) -> (chunk: Result<Vec<u8>, PlanError>)
        requires
            self.wf(),
            target_layout.wf(),
            num_points_in_chunk * self.spec_size_of_point_in_file() <= source.len(),
            num_points_in_chunk <= positions.len(),
        ensures
            chunk is Ok <==> forall|a: Attribute| !unsupported(self.spec_format(), *target_layout, a),
            chunk matches Ok(entries) ==> entries@ == self.decoded(
                Some(plan_for(self.spec_format(), *target_layout)),
                source@,
                positions@,
                0,
                num_points_in_chunk as nat,
            ) && entries@.len() == num_points_in_chunk * target_layout.spec_size_of_point_entry(),
            chunk matches Err(PlanError::UnsupportedConversion { attribute }) ==> unsupported(
                self.spec_format(),
                *target_layout,
                attribute,
            ) && forall|b: Attribute|
                b.spec_ordinal() < attribute.spec_ordinal() ==> !unsupported(
                    self.spec_format(),
                    *target_layout,
                    b,
                ),
    {
        if target_layout.equals(&self.layout) {
            proof {
                assert(is_natural(self.spec_format(), *target_layout)) by {
                    assert forall|a: Attribute| #[trigger]
                        target_layout.slot(a) == natural_slot(
                            self.spec_format(),
                            a,
                        ) by {
                        assert(target_layout.slot(a) == self.spec_layout().slot(a));
                    }
                }
                lemma_natural_layout_is_supported(self.spec_format(), *target_layout);
                lemma_runs_agree(
                    self.spec_format(),
                    *target_layout,
                    self.spec_byte_order(),
                    source@,
                    self.spec_size_of_point_in_file(),
                    positions@,
                    0,
                    num_points_in_chunk as nat,
                );
            }
            Ok(self.read_chunk_default_layout(source, positions, num_points_in_chunk))
        } else {
            self.read_chunk_custom_layout(source, positions, num_points_in_chunk, target_layout)
        }
    }

    /// Decodes up to `count` points chunk by chunk and appends their entries
    /// to the buffer.
    fn read_chunks(
        &mut self,
        plan: Option<&ParsePlan>,
        data: &[u8],
        positions: &[WorldPosition],
        point_buffer: &mut PointBuffer,
        count: usize,
    ) -> (read: usize)
        requires
            old(self).wf(),
            old(self).holds(data@, positions@),
            old(point_buffer).wf(),
            plan matches Some(p) ==> p@.wf(old(self).spec_format()),
            old(point_buffer).spec_point_layout().spec_size_of_point_entry()
                == entry_size(old(self).spec_format(), model_of(plan)),
            old(point_buffer).spec_len() + old(self).spec_remaining_points() <= usize::MAX,
        ensures
            final(self).wf(),
            final(point_buffer).wf(),
            old(self).read_effect(
                *final(self),
                model_of(plan),
                data@,
                positions@,
                *old(point_buffer),
                *final(point_buffer),
                count as nat,
                read as nat,
            ),
    {
        let num_points_to_read = self.num_points_to_read(count);
        let first = self.current_point_index;
        let ghost model = model_of(plan);
        let mut done: usize = 0;
        assert(point_buffer.bytes() =~= old(point_buffer).bytes() + self.decoded(
            model,
            data@,
            positions@,
            first as nat,
            first as nat,
        ));
        while done < num_points_to_read
            invariant
                self.wf(),
                *self == *old(self),
                self.holds(data@, positions@),
                point_buffer.wf(),
                plan matches Some(p) ==> p@.wf(self.spec_format()),
                model == model_of(plan),
                first == self.spec_point_index(),
                done <= num_points_to_read <= self.spec_remaining_points(),
                point_buffer.spec_point_layout() == old(point_buffer).spec_point_layout(),
                point_buffer.spec_point_layout().spec_size_of_point_entry()
                    == entry_size(self.spec_format(), model),
                point_buffer.spec_len() == old(point_buffer).spec_len() + done,
                old(point_buffer).spec_len() + self.spec_remaining_points() <= usize::MAX,
                point_buffer.bytes() == old(point_buffer).bytes() + self.decoded(
                    model,
                    data@,
                    positions@,
                    first as nat,
                    (first + done) as nat,
                ),
            decreases num_points_to_read - done,
        {
            let points = points_in_chunk(num_points_to_read, self.chunk_size, done);
            let start = first + done;
            let end = start + points;
            assert(end * self.size_of_point_in_file <= self.point_count
                * self.size_of_point_in_file) by (nonlinear_arith)
                requires
                    end <= self.point_count,
            ;
            let chunk = decode_run(
                &self.format,
                plan,
                self.byte_order,
                data,
                self.size_of_point_in_file,
                positions,
                start,
                end,
            );
            proof {
                lemma_run_splits(
                    self.spec_format(),
                    model,
                    self.spec_byte_order(),
                    data@,
                    self.spec_size_of_point_in_file(),
                    positions@,
                    first as nat,
                    start as nat,
                    end as nat,
                );
                let head = self.decoded(model, data@, positions@, first as nat, start as nat);
                assert((old(point_buffer).bytes() + head) + chunk@ =~= old(point_buffer).bytes() + (
                head + chunk@));
            }
            point_buffer.push_points_interleaved(chunk, points);
            done = done + points;
        }
        self.current_point_index = first + num_points_to_read;
        num_points_to_read
    }

    /// Reads up to `count` points into a buffer of the natural layout. `data`
    /// and `positions` hold every point of the stream.
    pub fn read_into_default_layout(
        &mut self,
        data: &[u8],
        positions: &[WorldPosition],
        point_buffer: &mut PointBuffer,
        count: usize,
    ) -> (read: usize)
        requires
            old(self).wf(),
            old(self).holds(data@, positions@),
            old(point_buffer).wf(),
            old(point_buffer).spec_point_layout().same_as(old(self).spec_layout()),
            old(point_buffer).spec_len() + old(self).spec_remaining_points() <= usize::MAX,
        ensures
            final(self).wf(),
            final(point_buffer).wf(),
            old(self).read_effect(
                *final(self),
                None,
                data@,
                positions@,
                *old(point_buffer),
                *final(point_buffer),
                count as nat,
                read as nat,
            ),
    {
        self.read_chunks(None, data, positions, point_buffer, count)
    }

    /// Reads up to `count` points into a buffer of any layout, for which it
    /// makes the plan afresh. Where no point is left to read it returns at
    /// once. Else it fails, and reads nothing, where the buffer declares an
    /// attribute in a type that cannot be filled. `data` and `positions` hold
    /// every point of the stream.
    pub fn read_into_custom_layout(
        &mut self,
        data: &[u8],
        positions: &[WorldPosition],
        point_buffer: &mut PointBuffer,
        count: usize,
    ) -> (read: Result<usize, PlanError>)
        requires
            old(self).wf(),
            old(self).holds(data@, positions@),
            old(point_buffer).wf(),
            old(point_buffer).spec_len() + old(self).spec_remaining_points() <= usize::MAX,
        ensures
            final(self).wf(),
            final(point_buffer).wf(),
            old(self).reads_custom(
                *final(self),
                data@,
                positions@,
                *old(point_buffer),
                *final(point_buffer),
                count as nat,
                read,
            ),
    {
        let remaining = self.remaining_points();
        if count == 0 || remaining == 0 {
            proof {
                let model = Some(
                    plan_for(self.spec_format(), point_buffer.spec_point_layout()),
                );
                assert(point_buffer.bytes() =~= point_buffer.bytes() + self.decoded(
                    model,
                    data@,
                    positions@,
                    self.spec_point_index(),
                    self.spec_point_index(),
                ));
            }
            return Ok(0);
        }
        match ParsePlan::resolve(&self.format, point_buffer.point_layout()) {
            Err(error) => Err(error),
            Ok(plan) => Ok(self.read_chunks(Some(&plan), data, positions, point_buffer, count)),
        }
    }

    /// Reads up to `count` points into a buffer: along the default path where
    /// the buffer has the natural layout, else along the custom path. `data`
    /// and `positions` hold every point of the stream.
    pub fn read_into(
        &mut self,
        data: &[u8],
        positions: &[WorldPosition],
        point_buffer: &mut PointBuffer,
        count: usize,
    ) -> (read: Result<usize, PlanError>)
        requires
            old(self).wf(),
            old(self).holds(data@, positions@),
            old(point_buffer).wf(),
            old(point_buffer).spec_len() + old(self).spec_remaining_points() <= usize::MAX,
        ensures
            final(self).wf(),
            final(point_buffer).wf(),
            old(self).reads_into(
                *final(self),
                data@,
                positions@,
                *old(point_buffer),
                *final(point_buffer),
                count as nat,
                read,
            ),
    {
        if point_buffer.point_layout().equals(&self.layout) {
            Ok(self.read_into_default_layout(data, positions, point_buffer, count))
        } else {
            self.read_into_custom_layout(data, positions, point_buffer, count)
        }
    }

    /// Reads up to `count` points into a new buffer of the natural layout.
    /// `data` and `positions` hold every point of the stream.
    pub fn read(&mut self, data: &[u8], positions: &[WorldPosition], count: usize) -> (read: (
        PointBuffer,
        usize,
    ))
        requires
            old(self).wf(),
            old(self).holds(data@, positions@),
        ensures
            final(self).wf(),
            old(self).reads(*final(self), data@, positions@, count as nat, read.0, read.1 as nat),
    {
        let mut buffer = PointBuffer::new(natural_layout(&self.format));
        let read = self.read_into_default_layout(data, positions, &mut buffer, count);
        assert(buffer.bytes() =~= old(self).decoded(
            None,
            data@,
            positions@,
            old(self).spec_point_index(),
            (old(self).spec_point_index() + read) as nat,
        ));
        (buffer, read)
    }
}

} // verus!
