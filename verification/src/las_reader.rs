//! The reader of an uncompressed stream: records stand in the file one after
//! the other, from a first byte on.

use crate::buffer::PointBuffer;
use crate::byte_order::Endianness;
use crate::cursor::{clamped_index, seek_target, SeekError, SeekFrom, SeekOutcome};
use crate::format::{descriptor_of, record_width, FormatDescriptor, OpenError};
use crate::plan::PlanError;
use crate::reader::ReaderState;
use crate::value::WorldPosition;
use vstd::prelude::*;

verus! {

/// Reader of an uncompressed stream of points.
#[derive(Debug)]
pub struct RawLASReader {
    state: ReaderState,
    offset_to_first_point_in_file: u64,
}

impl RawLASReader {
    /// What the reader shares with every reader.
    pub closed spec fn spec_state(self) -> ReaderState {
        self.state
    }

    /// Offset in the file of the first byte of the first record.
    pub closed spec fn spec_offset_to_first_point_in_file(self) -> nat {
        self.offset_to_first_point_in_file as nat
    }

    /// Offset in the file of the first byte of the record with an index.
    pub open spec fn position_in_file(self, index: nat) -> nat {
        self.spec_offset_to_first_point_in_file() + index
            * self.spec_state().spec_size_of_point_in_file()
    }

    /// The state is well formed and the end of the point data has an offset.
    pub open spec fn wf(self) -> bool {
        &&& self.spec_state().wf()
        &&& self.position_in_file(self.spec_state().spec_point_count()) <= u64::MAX
    }

    /// Whether a header describes a stream that can be read: a format id up
    /// to 10, records at least as far apart as the format's fields are wide,
    /// and point data that ends at an offset of 64 bits.
    pub open spec fn readable(
        format_id: u8,
        point_count: usize,
        offset_to_first_point_in_file: u64,
        size_of_point_in_file: u16,
    ) -> bool {
        &&& format_id <= 10
        &&& record_width(descriptor_of(format_id)) <= size_of_point_in_file
        &&& offset_to_first_point_in_file + point_count * size_of_point_in_file <= u64::MAX
    }

    /// Opens a reader on what the header of a stream says. It stands at the
    /// first point.
    pub fn new(
        format_id: u8,
        byte_order: Endianness,
        point_count: usize,
        offset_to_first_point_in_file: u64,
        size_of_point_in_file: u16,
    ) -> (made: Result<RawLASReader, OpenError>)
        ensures
            !Self::readable(
                format_id,
                point_count,
                offset_to_first_point_in_file,
                size_of_point_in_file,
            ) ==> made == Err::<RawLASReader, OpenError>(OpenError::Format),
            Self::readable(
                format_id,
                point_count,
                offset_to_first_point_in_file,
                size_of_point_in_file,
            ) ==> made is Ok,
            made matches Ok(reader) ==> {
                &&& reader.wf()
                &&& reader.spec_state().spec_format() == descriptor_of(format_id)
                &&& reader.spec_state().spec_byte_order() == byte_order
                &&& reader.spec_state().spec_point_count() == point_count
                &&& reader.spec_state().spec_point_index() == 0
                &&& reader.spec_state().spec_size_of_point_in_file() == size_of_point_in_file
                &&& reader.spec_offset_to_first_point_in_file() == offset_to_first_point_in_file
            },
    {
        let format = match FormatDescriptor::new(format_id) {
            Ok(format) => format,
            Err(error) => {
                return Err(error);
            },
        };
        let state = match ReaderState::new(format, byte_order, point_count, size_of_point_in_file) {
            Ok(state) => state,
            Err(error) => {
                return Err(error);
            },
        };
        let length = match (point_count as u64).checked_mul(size_of_point_in_file as u64) {
            Some(length) => length,
            None => {
                return Err(OpenError::Format);
            },
        };
        if offset_to_first_point_in_file.checked_add(length).is_none() {
            return Err(OpenError::Format);
        }
        Ok(RawLASReader { state, offset_to_first_point_in_file })
    }

    /// What the reader shares with every reader: its state, and the decoding
    /// of chunks.
    pub fn state(&self) -> (state: &ReaderState)
        ensures
            *state == self.spec_state(),
    {
        &self.state
    }

    /// Offset in the file of the first byte of the first record.
    pub fn offset_to_first_point_in_file(&self) -> (offset: u64)
        ensures
            offset == self.spec_offset_to_first_point_in_file(),
    {
        self.offset_to_first_point_in_file
    }

    /// Number of points between the reader and the end of the stream.
    pub fn remaining_points(&self) -> (remaining: usize)
        requires
            self.wf(),
        ensures
            remaining == self.spec_state().spec_remaining_points(),
    {
        self.state.remaining_points()
    }

    /// Sets the number of records decoded in one pass.
    pub fn set_chunk_size(&mut self, chunk_size: usize)
        requires
            old(self).wf(),
            chunk_size > 0,
        ensures
            final(self).wf(),
            final(self).spec_state().spec_chunk_size() == chunk_size,
            final(self).spec_state().spec_format() == old(self).spec_state().spec_format(),
            final(self).spec_state().spec_byte_order() == old(self).spec_state().spec_byte_order(),
            final(self).spec_state().spec_layout() == old(self).spec_state().spec_layout(),
            final(self).spec_state().spec_point_count() == old(self).spec_state().spec_point_count(),
            final(self).spec_state().spec_point_index() == old(self).spec_state().spec_point_index(),
            final(self).spec_state().spec_size_of_point_in_file() == old(
                self,
            ).spec_state().spec_size_of_point_in_file(),
            final(self).spec_offset_to_first_point_in_file() == old(
                self,
            ).spec_offset_to_first_point_in_file(),
    {
        self.state.set_chunk_size(chunk_size);
    }

    /// Moves the reader behind `points` points that a caller has decoded chunk
    /// by chunk.
    pub fn advance(&mut self, points: usize)
        requires
            old(self).wf(),
            points <= old(self).spec_state().spec_remaining_points(),
        ensures
            final(self).wf(),
            final(self).spec_state().same_stream(old(self).spec_state()),
            final(self).spec_state().spec_point_index() == old(self).spec_state().spec_point_index()
                + points,
            final(self).spec_offset_to_first_point_in_file() == old(
                self,
            ).spec_offset_to_first_point_in_file(),
    {
        self.state.advance(points);
    }

    /// Moves the reader to a position, held to the range of the stream, and
    /// returns the index at which it stands then. Where that differs from the
    /// index before, the outcome names the offset in the file to which the
    /// stream has to move: that of the record with the new index. A position
    /// before the first point is refused and leaves the reader where it stands.
    pub fn seek_point(&mut self, position: SeekFrom) -> (sought: Result<SeekOutcome, SeekError>)
        requires
            old(self).wf(),
        ensures
            final(self).wf(),
            final(self).spec_state().same_stream(old(self).spec_state()),
            final(self).spec_offset_to_first_point_in_file() == old(
                self,
            ).spec_offset_to_first_point_in_file(),
            seek_target(
                old(self).spec_state().spec_point_count(),
                old(self).spec_state().spec_point_index(),
                position,
            ) < 0 ==> sought == Err::<SeekOutcome, SeekError>(SeekError::InvalidSeek)
                && final(self).spec_state().spec_point_index() == old(
                self,
            ).spec_state().spec_point_index(),
            seek_target(
                old(self).spec_state().spec_point_count(),
                old(self).spec_state().spec_point_index(),
                position,
            ) >= 0 ==> {
                &&& final(self).spec_state().spec_point_index() == clamped_index(
                    old(self).spec_state().spec_point_count(),
                    seek_target(
                        old(self).spec_state().spec_point_count(),
                        old(self).spec_state().spec_point_index(),
                        position,
                    ),
                )
                &&& sought == Ok::<SeekOutcome, SeekError>(
                    SeekOutcome {
                        index: final(self).spec_state().spec_point_index() as usize,
                        reposition: if final(self).spec_state().spec_point_index() == old(
                            self,
                        ).spec_state().spec_point_index() {
                            None
                        } else {
                            Some(
                                old(self).position_in_file(
                                    final(self).spec_state().spec_point_index(),
                                ) as u64,
                            )
                        },
                    },
                )
            },
    {
        match self.state.seek(position) {
            Err(error) => Err(error),
            Ok((index, moved)) => {
                let reposition = if moved {
                    let stride = self.state.size_of_point_in_file();
                    assert(index * stride <= self.state.spec_point_count() * stride)
                        by (nonlinear_arith)
                        requires
                            index <= self.state.spec_point_count(),
                    ;
                    Some(self.offset_to_first_point_in_file + index as u64 * stride as u64)
                } else {
                    None
                };
                Ok(SeekOutcome { index, reposition })
            },
        }
    }

    /// Reads up to `count` points into a buffer: along the default path where
    /// the buffer has the natural layout, else along the custom path. `data`
    /// and `positions` hold every point of the stream.
    pub fn read_into(
        &mut self,
        data: &[u8],
        positions: &[WorldPosition],
        point_buffer: &mut PointBuffer,
        count: usize,
    ) -> (read: Result<usize, PlanError>)
        requires
            old(self).wf(),
            old(self).spec_state().holds(data@, positions@),
            old(point_buffer).wf(),
            old(point_buffer).spec_len() + old(self).spec_state().spec_remaining_points()
                <= usize::MAX,
        ensures
            final(self).wf(),
            final(point_buffer).wf(),
            final(self).spec_offset_to_first_point_in_file() == old(
                self,
            ).spec_offset_to_first_point_in_file(),
            old(self).spec_state().reads_into(
                final(self).spec_state(),
                data@,
                positions@,
                *old(point_buffer),
                *final(point_buffer),
                count as nat,
                read,
            ),
    {
        self.state.read_into(data, positions, point_buffer, count)
    }

    /// Reads up to `count` points into a new buffer of the natural layout.
    pub fn read(&mut self, data: &[u8], positions: &[WorldPosition], count: usize) -> (read: (
        PointBuffer,
        usize,
    ))
        requires
            old(self).wf(),
            old(self).spec_state().holds(data@, positions@),
        ensures
            final(self).wf(),
            final(self).spec_offset_to_first_point_in_file() == old(
                self,
            ).spec_offset_to_first_point_in_file(),
            old(self).spec_state().reads(
                final(self).spec_state(),
                data@,
                positions@,
                count as nat,
                read.0,
                read.1 as nat,
            ),
    {
        self.state.read(data, positions, count)
    }
}

} // verus!
