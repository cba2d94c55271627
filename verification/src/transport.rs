//! The values of the gRPC transport: requests, responses and statuses of
//! `tonic`.
//!
//! Nothing inside these values is visible to proofs. What contracts say of
//! them, they say through the names declared here, and everything that is
//! claimed of `tonic` stands in this file, unproved.

use crate::envoy::{RateLimitRequest, RateLimitResponse, RequestView, ResponseView};
use tonic::{Request, Response, Status};
use vstd::prelude::*;

verus! {

/// `tonic::Request`, carried through as it is.
#[verifier::external_type_specification]
#[verifier::external_body]
#[verifier::reject_recursive_types(T)]
pub struct ExRequest<T>(tonic::Request<T>);

/// `tonic::Response`, carried through as it is.
#[verifier::external_type_specification]
#[verifier::external_body]
#[verifier::reject_recursive_types(T)]
pub struct ExResponse<T>(tonic::Response<T>);

/// `tonic::Status`, carried through as it is.
#[verifier::external_type_specification]
#[verifier::external_body]
pub struct ExStatus(tonic::Status);

/// The number of the gRPC code `Unavailable`.
pub const GRPC_UNAVAILABLE: i32 = 14;

/// The message that a request carries: what `tonic::Request::into_inner`
/// hands out, by its view.
pub uninterp spec fn request_message(request: Request<RateLimitRequest>) -> RequestView;

/// The message that a response carries: what `tonic::Response::get_ref`
/// refers to, by its view.
pub uninterp spec fn response_message(response: Response<RateLimitResponse>) -> ResponseView;

/// The number of the gRPC code that `tonic::Status::code` reports.
pub uninterp spec fn status_code(status: Status) -> int;

/// The text that `tonic::Status::message` reports.
pub uninterp spec fn status_message(status: Status) -> Seq<char>;

/// Calls `tonic::Request::into_inner`, which gives up the request's metadata
/// and extensions and returns its message. Claimed: the result is the
/// message that the request carries.
#[verifier::external_body]
pub(crate) fn into_message(request: Request<RateLimitRequest>) -> (message: RateLimitRequest)
    ensures
        message@ == request_message(request),
{
    request.into_inner()
}

/// Calls `tonic::Response::new`, which wraps a message in a response with
/// empty metadata. Claimed: the response carries the message given.
#[verifier::external_body]
pub(crate) fn respond(message: RateLimitResponse) -> (response: Response<RateLimitResponse>)
    ensures
        response_message(response) == message@,
{
    Response::new(message)
}

/// Calls `tonic::Status::unavailable`, which builds a status from the code
/// `Unavailable` and a message. Claimed: the status reports that code, whose
/// number is 14, and the message given.
#[verifier::external_body]
pub(crate) fn unavailable(message: &str) -> (status: Status)
    ensures
        status_code(status) == GRPC_UNAVAILABLE,
        status_message(status) == message@,
{
    Status::unavailable(message)
}

} // verus!
