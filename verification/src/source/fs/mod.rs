//! Raw counts read from files.

pub mod key2path;
pub mod key2raw;
pub mod path2raw;
