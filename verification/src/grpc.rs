//! The gRPC status that every failure of this crate is reported with.

use tonic::Status;
use vstd::prelude::*;

verus! {

/// `tonic::Status` is carried through the logic as an opaque value.
#[verifier::external_type_specification]
#[verifier::external_body]
pub struct ExStatus(Status);

/// The status that `tonic::Status::not_found` makes of a message.
pub uninterp spec fn not_found_status(message: Seq<char>) -> Status;

/// The status that `tonic::Status::internal` makes of a message.
pub uninterp spec fn internal_status(message: Seq<char>) -> Status;

/// The number of the code that `tonic::Status::code` gives for the status
/// (`tonic::Code` numbers the gRPC codes: `NotFound` is 5, `Internal` is 13).
pub uninterp spec fn status_code_of(s: Status) -> i32;

/// The number of the gRPC code `NotFound`.
pub open spec fn code_not_found() -> i32 {
    5
}

/// The number of the gRPC code `Internal`.
pub open spec fn code_internal() -> i32 {
    13
}

/// Calls `tonic::Status::not_found`, which builds a status of code `NotFound`
/// holding `message` and nothing else; the result is named by `not_found_status`.
#[verifier::external_body]
pub(crate) fn status_not_found(message: String) -> (s: Status)
    ensures
        s == not_found_status(message@),
        status_code_of(s) == code_not_found(),
{
    Status::not_found(message)
}

/// Calls `tonic::Status::internal`, which builds a status of code `Internal`
/// holding `message` and nothing else; the result is named by `internal_status`.
#[verifier::external_body]
pub(crate) fn status_internal(message: String) -> (s: Status)
    ensures
        s == internal_status(message@),
        status_code_of(s) == code_internal(),
{
    Status::internal(message)
}

} // verus!
