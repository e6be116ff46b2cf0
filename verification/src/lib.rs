//! A single-threaded contiguous staging buffer for byte streams.
//!
//! One owned byte array is partitioned by two cursors into three regions:
//! prependable space before the read cursor, readable data between the
//! cursors, and writable space after the write cursor.

pub mod buffer;

pub use buffer::Buffer;
pub use buffer::BufferError;
