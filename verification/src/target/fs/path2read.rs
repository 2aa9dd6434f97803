//! Opening a file to read, and the status a failed opening is reported with.

use core::marker::PhantomData;
use std::path::PathBuf;
use tonic::Status;
use vstd::prelude::*;
use vstd::string::StringExecFns;

use crate::grpc::{status_internal, status_not_found};
use crate::io_error::{io_error_kind, io_error_text, path_debug_text, IoErrorKind};

verus! {

/// The message a failed opening of the file is reported with, given the kind
/// of the error, the text of the path and the text of the error.
pub open spec fn open_read_message(kind: IoErrorKind, path_text: Seq<char>, error_text: Seq<char>) -> Seq<char> {
    match kind {
        IoErrorKind::NotFound => "file does not exist("@ + path_text + "): "@ + error_text,
        IoErrorKind::Other => "unable to read("@ + path_text + "): "@ + error_text,
    }
}

/// The status a failed opening of the file is reported with: `NotFound` when
/// the file does not exist, `Internal` otherwise, with the message above.
pub open spec fn open_read_status(kind: IoErrorKind, path_text: Seq<char>, error_text: Seq<char>) -> Status {
    match kind {
        IoErrorKind::NotFound => crate::grpc::not_found_status(open_read_message(kind, path_text, error_text)),
        IoErrorKind::Other => crate::grpc::internal_status(open_read_message(kind, path_text, error_text)),
    }
}

/// The number of the gRPC code of the status a failed opening is reported with.
pub open spec fn open_error_code(kind: IoErrorKind) -> i32 {
    match kind {
        IoErrorKind::NotFound => crate::grpc::code_not_found(),
        IoErrorKind::Other => crate::grpc::code_internal(),
    }
}

/// Builds the status a failed opening is reported with, from the kind of the
/// error and the texts of the path and of the error.
pub fn open_error_status(kind: IoErrorKind, path_text: &str, error_text: &str) -> (s: Status)
    ensures
        s == open_read_status(kind, path_text@, error_text@),
        crate::grpc::status_code_of(s) == open_error_code(kind),
{
    let mut message = match kind {
        IoErrorKind::NotFound => String::from_str("file does not exist("),
        IoErrorKind::Other => String::from_str("unable to read("),
    };
    message.append(path_text);
    message.append("): ");
    message.append(error_text);
    match kind {
        IoErrorKind::NotFound => status_not_found(message),
        IoErrorKind::Other => status_internal(message),
    }
}

/// The status a failed opening of the file at `pat` is reported with: its
/// kind is that of `e` and its message holds the `{:#?}` text of `pat`. The
/// text of `e` is not stated (see `io_error_text`).
pub fn path_open_error(pat: &PathBuf, e: &std::io::Error) -> (s: Status)
    ensures
        exists|error_text: Seq<char>|
            s == #[trigger] open_read_status(crate::io_error::io_kind_of(*e), crate::io_error::path_debug_of(*pat), error_text),
        crate::grpc::status_code_of(s) == open_error_code(crate::io_error::io_kind_of(*e)),
{
    let kind = io_error_kind(e);
    let path_text = path_debug_text(pat);
    let error_text = io_error_text(e);
    let s = open_error_status(kind, path_text.as_str(), error_text.as_str());
    assert(s == open_read_status(crate::io_error::io_kind_of(*e), crate::io_error::path_debug_of(*pat), error_text@));
    s
}

/// What opening the file at `pat` answers, given what the opening gave: the
/// readable as it is, or the status of the failure as `path_open_error` makes it.
pub fn path_to_read_result<R>(pat: &PathBuf, opened: Result<R, std::io::Error>) -> (res: Result<R, Status>)
    ensures
        opened is Ok <==> res is Ok,
        opened is Ok ==> res == Ok::<R, Status>(opened->Ok_0),
        opened matches Err(e) ==> exists|error_text: Seq<char>|
            res == Err::<R, Status>(#[trigger] open_read_status(crate::io_error::io_kind_of(e), crate::io_error::path_debug_of(*pat), error_text)),
        opened matches Err(e) ==> res matches Err(s) && crate::grpc::status_code_of(s) == open_error_code(crate::io_error::io_kind_of(e)),
{
    match opened {
        Ok(rd) => Ok(rd),
        Err(e) => Err(path_open_error(pat, &e)),
    }
}

/// An opener of files made of a function that gives readables of type `R`.
pub struct PathToReadFn<F, R> {
    path2read: F,
    read: PhantomData<R>,
}

impl<F, R> PathToReadFn<F, R> {
    /// The function this opener calls.
    pub closed spec fn function(&self) -> F {
        self.path2read
    }

    /// The function, to open a file with.
    pub fn read_fn(&self) -> (f: &F)
        ensures
            *f == self.function(),
    {
        &self.path2read
    }
}

/// Makes an opener of files that calls `path2read`.
pub fn path2read_fn_new<F, R>(path2read: F) -> (o: PathToReadFn<F, R>)
    ensures
        o.function() == path2read,
{
    PathToReadFn { path2read, read: PhantomData }
}

} // verus!
