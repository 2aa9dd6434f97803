//! Sources that read their raw counts from somewhere.

pub mod fs;
