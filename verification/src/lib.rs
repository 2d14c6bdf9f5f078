//! Interactive line-editing core for a shell: an editable command buffer
//! with cursor, a completion menu, history recall, and an incremental
//! terminal painter expressed as a stream of paint commands.
//!
//! The buffer is a sequence of Unicode scalar values and every index is
//! a scalar-value offset, so no byte-level decoding can fail. All
//! terminal I/O stays with the driver: it feeds key events in and
//! performs the returned paint commands.

pub mod chars;
pub mod completion;
pub mod cursor;
pub mod history;
pub mod laws;
pub mod line;
pub mod menu;
pub mod painter;
