//! Record-level decoding of LAS point clouds.
//!
//! A point record is a fixed-width run of little-endian fields whose set and
//! bit packing depend on the point format (0 to 10). This crate turns such
//! records into the bytes of an interleaved point buffer, either in the layout
//! that mirrors the format or in a layout picked by the caller, with type
//! conversion and with zeros for what the format lacks.
//!
//! The modules, leaves first:
//!
//! - [`format`]: what a format id says about a record.
//! - [`byte_order`]: integers as bytes, in either byte order.
//! - [`bit_attributes`]: the packed sub-fields of a record.
//! - [`record`]: one record on disk, field by field.
//! - [`datatype`], [`attribute`], [`layout`], [`natural`]: the attributes of a
//!   point, the types they are stored in, and where they stand in a point
//!   entry.
//! - [`convert`], [`plan`]: how a slot of a target layout is filled.
//! - [`value`], [`decode`], [`run`]: the bytes of an attribute, of a point
//!   entry, of a run of entries.
//! - [`cursor`], [`buffer`], [`reader`], [`las_reader`], [`laz_reader`]: the
//!   state of a reader, seeking and reading.
//! - [`slots`], [`agreement`], [`widening`], [`laws`]: what holds of all of
//!   this.
//!
//! The library holds no floating-point arithmetic and does no input or
//! output. Positions in world space come from the caller as bit patterns, and
//! so do the bytes of the stream.

pub mod agreement;
pub mod attribute;
pub mod bit_attributes;
pub mod buffer;
pub mod byte_order;
pub mod convert;
pub mod cursor;
pub mod datatype;
pub mod decode;
pub mod format;
pub mod las_reader;
pub mod laws;
pub mod layout;
pub mod laz_reader;
pub mod natural;
pub mod plan;
pub mod reader;
pub mod record;
pub mod run;
pub mod slots;
pub mod value;
pub mod widening;
