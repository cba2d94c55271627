//! The handler of a rate-limit check.
//!
//! A call is decided in two steps around the decision engine. The first
//! takes the request and either answers it at once or says what to ask the
//! engine; the second takes the engine's answer and gives the call's result.
//! The engine is asked by whoever drives the two steps, at most once per
//! call and never again after a failure, so a handler works the same with an
//! engine that blocks and with one that suspends.

use crate::context::{aggregate, context_of};
use crate::engine::{CheckOutcome, EngineCall, EngineCallView};
use crate::envoy::{response_with, Code, RateLimitRequest, RateLimitResponse, RequestView, ResponseView};
use crate::hits::{normalize_hits_addend, normalized_hits};
use crate::transport::{
    into_message, request_message, respond, response_message, status_code, status_message,
    unavailable, GRPC_UNAVAILABLE,
};
use std::sync::Arc;
use tonic::{Request, Response, Status};
use vstd::prelude::*;

verus! {

/// What is to be done with a call once its request has been read. `R` is the
/// form in which a reply goes out.
#[derive(Debug)]
pub enum Step<R> {
    /// The call is answered with this reply. The engine is not asked.
    Reply(R),
    /// The engine is to be asked this, once.
    Check(EngineCall),
}

/// What contracts see of a `Step`.
pub enum StepView {
    Reply(ResponseView),
    Check(EngineCallView),
}

/// The step that a request calls for. A request without a domain cannot be
/// evaluated and is answered `Unknown`. For any other, the engine is asked
/// about the request's domain with the merged attributes of all its
/// descriptors and its normalized hit count.
pub open spec fn planned(request: RequestView) -> StepView {
    if request.domain.len() == 0 {
        StepView::Reply(response_with(Code::Unknown))
    } else {
        StepView::Check(
            EngineCallView {
                namespace: request.domain,
                values: context_of(request.descriptors),
                hits_addend: normalized_hits(request.hits_addend),
            },
        )
    }
}

/// What contracts see of a status of the transport.
pub struct StatusView {
    pub code: int,
    pub message: Seq<char>,
}

/// The status with which a call fails when the engine does.
pub open spec fn service_unavailable() -> StatusView {
    StatusView { code: GRPC_UNAVAILABLE as int, message: "Service unavailable"@ }
}

/// The result of a call for which the engine was asked and gave `answer`:
/// the response with the verdict's code, or, where the engine failed, the
/// status `service_unavailable()` in place of any response.
pub open spec fn concluded<E>(answer: Result<CheckOutcome, E>) -> Result<ResponseView, StatusView> {
    match answer {
        Ok(outcome) => Ok(response_with(outcome.code())),
        Err(_) => Err(service_unavailable()),
    }
}

/// A response as the service gives it: its code is the wire number of
/// `Unknown`, `WithinLimit` or `OverLimit`, and it asks for no header.
pub open spec fn well_formed_response(response: ResponseView) -> bool {
    &&& 0 <= response.overall_code <= 2
    &&& response.request_headers_to_add.len() == 0
    &&& response.response_headers_to_add.len() == 0
}

/// A request without a domain is answered `Unknown`, whatever its
/// descriptors and its hit count are, and the engine is not asked.
pub proof fn lemma_empty_domain_is_unknown(request: RequestView)
    requires
        request.domain.len() == 0,
    ensures
        planned(request) == StepView::Reply(response_with(Code::Unknown)),
        !(planned(request) is Check),
{
}

/// `Unknown` has no other source: a request is answered without the engine
/// only where it has no domain, and no answer of the engine, not even its
/// failure, makes a call's result `Unknown`.
pub proof fn lemma_unknown_only_without_domain<E>(
    request: RequestView,
    answer: Result<CheckOutcome, E>,
)
    ensures
        planned(request) is Reply <==> request.domain.len() == 0,
        concluded(answer) != Ok::<ResponseView, StatusView>(response_with(Code::Unknown)),
{
}

/// For a request with a domain the engine is asked, and its verdict decides:
/// the call's code is `WithinLimit` where the engine allows the hits, as it
/// does where no limit applies, and `OverLimit` where it does not.
pub proof fn lemma_verdict_decides<E>(request: RequestView)
    requires
        request.domain.len() > 0,
    ensures
        planned(request) is Check,
        concluded(Ok::<CheckOutcome, E>(CheckOutcome::Allowed)) == Ok::<ResponseView, StatusView>(
            response_with(Code::WithinLimit),
        ),
        concluded(Ok::<CheckOutcome, E>(CheckOutcome::Limited)) == Ok::<ResponseView, StatusView>(
            response_with(Code::OverLimit),
        ),
{
}

/// A hit count of zero stands for one: two requests that differ only in
/// that one says zero and the other says one call for the same step, with
/// the same question to the engine.
pub proof fn lemma_zero_hits_addend_is_one(request: RequestView)
    requires
        request.hits_addend == 0,
    ensures
        planned(request) == planned(RequestView { hits_addend: 1, ..request }),
{
}

/// Where the engine fails, the call fails with `service_unavailable()`,
/// whatever the failure was: its result is no response, neither `Unknown`
/// nor any other.
pub proof fn lemma_engine_failure_is_unavailable<E>(error: E)
    ensures
        concluded(Err::<CheckOutcome, E>(error)) == Err::<ResponseView, StatusView>(
            service_unavailable(),
        ),
        concluded(Err::<CheckOutcome, E>(error)) is Err,
{
}

/// Every response of a call, whether it answers the request at once or
/// follows the engine's verdict, carries one of the three codes and asks for
/// no header, on the request or on the response.
pub proof fn lemma_responses_carry_a_code_and_no_header<E>(
    request: RequestView,
    answer: Result<CheckOutcome, E>,
)
    ensures
        planned(request) matches StepView::Reply(response) ==> well_formed_response(response),
        concluded(answer) matches Ok(response) ==> well_formed_response(response),
{
}

/// Decides what a request calls for: `planned` of it.
pub fn plan(request: RateLimitRequest) -> (step: Step<RateLimitResponse>)
    ensures
        match step {
            Step::Reply(response) => planned(request@) == StepView::Reply(response@),
            Step::Check(call) => planned(request@) == StepView::Check(call@),
        },
        request@.domain.len() == 0 ==> (step matches Step::Reply(response) && response@
            == response_with(Code::Unknown)),
        request@.domain.len() > 0 ==> step is Check,
{
    let namespace = request.domain;
    if namespace.as_str().is_empty() {
        return Step::Reply(RateLimitResponse::with_code(Code::Unknown));
    }
    let values = aggregate(&request.descriptors);
    let hits_addend = normalize_hits_addend(request.hits_addend);
    Step::Check(EngineCall { namespace, values, hits_addend })
}

/// The front of a rate-limit service: it holds the handle of the decision
/// engine, which is shared by all calls and never changed here, and decides
/// each call around one question to that engine.
pub struct MyRateLimiter<L> {
    limiter: Arc<L>,
}

impl<L> MyRateLimiter<L> {
    /// The engine handle that the rate limiter was made with.
    pub closed spec fn handle(&self) -> Arc<L> {
        self.limiter
    }

    /// Creates the rate limiter that asks the engine behind `limiter`.
    pub fn new(limiter: Arc<L>) -> (rate_limiter: MyRateLimiter<L>)
        ensures
            rate_limiter.handle() == limiter,
    {
        MyRateLimiter { limiter }
    }

    /// Returns the engine handle.
    pub fn limiter(&self) -> (limiter: &Arc<L>)
        ensures
            *limiter == self.handle(),
    {
        &self.limiter
    }

    /// First step of a call: takes the message out of `request` and decides
    /// what it calls for, as `plan` does.
    pub fn should_rate_limit(&self, request: Request<RateLimitRequest>) -> (step: Step<
        Response<RateLimitResponse>,
    >)
        ensures
            match step {
                Step::Reply(response) => planned(request_message(request)) == StepView::Reply(
                    response_message(response),
                ),
                Step::Check(call) => planned(request_message(request)) == StepView::Check(call@),
            },
            request_message(request).domain.len() == 0 ==> (step matches Step::Reply(response)
                && response_message(response) == response_with(Code::Unknown)),
            request_message(request).domain.len() > 0 ==> step is Check,
    {
        match plan(into_message(request)) {
            Step::Reply(response) => Step::Reply(respond(response)),
            Step::Check(call) => Step::Check(call),
        }
    }

    /// Second step of a call for which the engine was asked: turns the
    /// engine's answer into the call's result, `concluded` of it. A failure
    /// of the engine never becomes a response.
    pub fn rate_limit_result<E>(&self, answer: Result<CheckOutcome, E>) -> (result: Result<
        Response<RateLimitResponse>,
        Status,
    >)
        ensures
            match result {
                Ok(response) => concluded(answer) == Ok::<ResponseView, StatusView>(
                    response_message(response),
                ),
                Err(status) => concluded(answer) == Err::<ResponseView, StatusView>(
                    StatusView { code: status_code(status), message: status_message(status) },
                ),
            },
            answer is Ok <==> result is Ok,
    {
        match answer {
            Ok(outcome) => Ok(respond(RateLimitResponse::with_code(outcome.response_code()))),
            Err(_) => Err(unavailable("Service unavailable")),
        }
    }
}

} // verus!
