//! Building blocks that compare the counts that two sources report for a key.
//!
//! A count source answers a key with a count; a raw count source answers it with
//! bytes that a parser turns into a count; a file-backed raw source maps the key
//! to a path and reads that file; a file-backed target opens the file a key
//! maps to and counts what it holds. The asynchronous traits that tie these together
//! live with the runtime; this crate holds the decisions they make, with their
//! contracts.

pub mod compare;
pub mod count;
pub mod grpc;
pub mod io_error;
pub mod source;
pub mod target;
