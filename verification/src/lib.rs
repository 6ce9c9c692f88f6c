//! Web of Things Thing Descriptions for devices without a heap.
//!
//! The crate models a Thing Description as a tree of plain records and
//! renders that tree as compact JSON text into a byte buffer that the caller
//! owns. Nothing is allocated while a record is rendered: every write goes
//! through a cursor into the buffer and fails cleanly when the buffer is too
//! small. After a failure the content of the buffer is to be discarded.
//!
//! Every rendering function is specified by a mathematical description of the
//! text it produces, and the implementation is proved against it:
//!
//! - [`buffer`] says what a write does to the buffer,
//! - [`json_text`] what the text of a value is,
//! - [`serialization`] holds the rendering of plain values and the traits
//!   that the records implement,
//! - [`data_structures`] the sequences and associations that the records are
//!   built from,
//! - [`decimal`] the numbers that are not integers,
//! - [`models`] the records themselves.
//!
//! A record is rendered depth first, so the rendering recurses as deep as
//! the record nests. Nothing bounds that depth but the stack of the caller.

pub mod buffer;
pub mod constants;
pub mod data_structures;
pub mod decimal;
pub mod json_text;
pub mod models;
pub mod serialization;
pub mod steps;
