//! What the logic reads of a failed file operation: the kind of the I/O error,
//! and the texts of the path and of the error that a status message holds.

use std::path::PathBuf;
use vstd::prelude::*;

verus! {

/// `std::io::Error` is carried through the logic as an opaque value.
#[verifier::external_type_specification]
#[verifier::external_body]
pub struct ExIoError(std::io::Error);

/// What the logic tells apart among the kinds of an I/O error.
#[derive(Clone, Copy, Debug)]
pub enum IoErrorKind {
    /// The file does not exist (`std::io::ErrorKind::NotFound`).
    NotFound,
    /// Any other kind.
    Other,
}

/// Whether `std::io::Error::kind` of the error is `NotFound`.
pub uninterp spec fn io_kind_of(e: std::io::Error) -> IoErrorKind;

/// The text that `{:#?}` (the alternate form of `<PathBuf as Debug>::fmt`) gives for the path.
pub uninterp spec fn path_debug_of(p: PathBuf) -> Seq<char>;

/// Calls `std::io::Error::kind` and says whether it is `NotFound`; the result
/// is named by `io_kind_of`.
#[verifier::external_body]
pub(crate) fn io_error_kind(e: &std::io::Error) -> (k: IoErrorKind)
    ensures
        k == io_kind_of(*e),
{
    match e.kind() {
        std::io::ErrorKind::NotFound => IoErrorKind::NotFound,
        _ => IoErrorKind::Other,
    }
}

/// Formats the path with `{:#?}`, that is by `<PathBuf as Debug>::fmt` in its
/// alternate form, which depends on the path alone; the text is named by `path_debug_of`.
#[verifier::external_body]
pub(crate) fn path_debug_text(p: &PathBuf) -> (t: String)
    ensures
        t@ == path_debug_of(*p),
{
    format!("{p:#?}")
}

/// Formats the error with `{}`, that is by `<std::io::Error as Display>::fmt`.
/// Nothing is stated of the text: for an error of the operating system it is
/// the system's description of the error code, which may depend on the locale.
#[verifier::external_body]
pub(crate) fn io_error_text(e: &std::io::Error) -> String {
    format!("{e}")
}

} // verus!
