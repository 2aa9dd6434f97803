//! Reading the content of a file, and the status a failed read is reported with.

use std::path::PathBuf;
use tonic::Status;
use vstd::prelude::*;
use vstd::string::StringExecFns;

use crate::grpc::{status_internal, status_not_found};
use crate::io_error::{io_error_kind, io_error_text, path_debug_text, IoErrorKind};

verus! {

/// The message a failed read of the file is reported with, given the kind of
/// the error, the text of the path and the text of the error.
pub open spec fn raw_read_message(kind: IoErrorKind, path_text: Seq<char>, error_text: Seq<char>) -> Seq<char> {
    match kind {
        IoErrorKind::NotFound => "no such file("@ + path_text + "): "@ + error_text,
        IoErrorKind::Other => "unable to read the file("@ + path_text + "): "@ + error_text,
    }
}

/// The status a failed read of the file is reported with: `NotFound` when the
/// file does not exist, `Internal` otherwise, with the message above.
pub open spec fn raw_read_status(kind: IoErrorKind, path_text: Seq<char>, error_text: Seq<char>) -> Status {
    match kind {
        IoErrorKind::NotFound => crate::grpc::not_found_status(raw_read_message(kind, path_text, error_text)),
        IoErrorKind::Other => crate::grpc::internal_status(raw_read_message(kind, path_text, error_text)),
    }
}

/// The number of the gRPC code of the status a failed read is reported with.
pub open spec fn read_error_code(kind: IoErrorKind) -> i32 {
    match kind {
        IoErrorKind::NotFound => crate::grpc::code_not_found(),
        IoErrorKind::Other => crate::grpc::code_internal(),
    }
}

/// Builds the status a failed read is reported with, from the kind of the
/// error and the texts of the path and of the error.
pub fn read_error_status(kind: IoErrorKind, path_text: &str, error_text: &str) -> (s: Status)
    ensures
        s == raw_read_status(kind, path_text@, error_text@),
        crate::grpc::status_code_of(s) == read_error_code(kind),
{
    let mut message = match kind {
        IoErrorKind::NotFound => String::from_str("no such file("),
        IoErrorKind::Other => String::from_str("unable to read the file("),
    };
    message.append(path_text);
    message.append("): ");
    message.append(error_text);
    match kind {
        IoErrorKind::NotFound => status_not_found(message),
        IoErrorKind::Other => status_internal(message),
    }
}

/// The status a failed read of the file at `pat` is reported with: its kind
/// is that of `e` and its message holds the `{:#?}` text of `pat`. The text of
/// `e` is not stated (see `io_error_text`).
pub fn path_read_error(pat: &PathBuf, e: &std::io::Error) -> (s: Status)
    ensures
        exists|error_text: Seq<char>|
            s == #[trigger] raw_read_status(crate::io_error::io_kind_of(*e), crate::io_error::path_debug_of(*pat), error_text),
        crate::grpc::status_code_of(s) == read_error_code(crate::io_error::io_kind_of(*e)),
{
    let kind = io_error_kind(e);
    let path_text = path_debug_text(pat);
    let error_text = io_error_text(e);
    let s = read_error_status(kind, path_text.as_str(), error_text.as_str());
    assert(s == raw_read_status(crate::io_error::io_kind_of(*e), crate::io_error::path_debug_of(*pat), error_text@));
    s
}

/// What reading the file at `pat` answers, given what the read gave: the
/// content as it is, or the status of the failure as `path_read_error` makes it.
pub fn path_to_raw_result(pat: &PathBuf, read: Result<Vec<u8>, std::io::Error>) -> (res: Result<Vec<u8>, Status>)
    ensures
        read is Ok <==> res is Ok,
        read is Ok ==> res == Ok::<Vec<u8>, Status>(read->Ok_0),
        read matches Err(e) ==> exists|error_text: Seq<char>|
            res == Err::<Vec<u8>, Status>(#[trigger] raw_read_status(crate::io_error::io_kind_of(e), crate::io_error::path_debug_of(*pat), error_text)),
        read matches Err(e) ==> res matches Err(s) && crate::grpc::status_code_of(s) == read_error_code(crate::io_error::io_kind_of(e)),
{
    match read {
        Ok(bytes) => Ok(bytes),
        Err(e) => Err(path_read_error(pat, &e)),
    }
}

/// A raw reader of files made of a function.
pub struct PathToRawFn<F> {
    path2raw: F,
}

impl<F> PathToRawFn<F> {
    /// The function this reader calls.
    pub closed spec fn function(&self) -> F {
        self.path2raw
    }

    /// The function, to read a file with.
    pub fn read_fn(&self) -> (f: &F)
        ensures
            *f == self.function(),
    {
        &self.path2raw
    }
}

/// Makes a raw reader of files that calls `path2raw`.
pub fn path2raw_new_fn<F>(path2raw: F) -> (r: PathToRawFn<F>)
    ensures
        r.function() == path2raw,
{
    PathToRawFn { path2raw }
}

} // verus!
