//! Counts read from files.

pub mod key2count;
pub mod path2read;
pub mod read2count;
