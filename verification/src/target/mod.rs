//! Targets that count what they read from somewhere.

pub mod fs;
