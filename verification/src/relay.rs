//! Maps the outcome of the upstream exchange to what the caller receives.

use vstd::prelude::*;
use vstd::string::*;

use crate::model::{CallerResponse, ResponseBody, ServerFailure, UpstreamError, UpstreamResponse};

verus! {

/// The status of a response that reports a build failure.
pub const INTERNAL_SERVER_ERROR: u16 = 500;

/// The body text that reports a build failure.
pub open spec fn failure_text(description: Seq<char>) -> Seq<char> {
    "Error: "@ + description
}

/// `response` reports a build failure with the given description: status 500, no
/// headers, and the failure text as body.
pub open spec fn is_failure_response(response: CallerResponse, description: Seq<char>) -> bool {
    &&& response.status == 500
    &&& response.headers@.len() == 0
    &&& response.body matches ResponseBody::Text(t) && t@ == failure_text(description)
}

/// The body of a failure response is never empty.
pub proof fn lemma_failure_response_has_body(response: CallerResponse, description: Seq<char>)
    requires
        is_failure_response(response, description),
    ensures
        response.status == 500,
        response.body.spec_len() > 0,
{
    reveal_strlit("Error: ");
}

/// The response that reports a build failure.
pub fn failure_response(description: &str) -> (r: CallerResponse)
    ensures
        is_failure_response(r, description@),
        r.body.spec_len() > 0,
{
    let mut text = String::from_str("Error: ");
    text.append(description);
    let r = CallerResponse {
        status: INTERNAL_SERVER_ERROR,
        headers: Vec::new(),
        body: ResponseBody::Text(text),
    };
    proof {
        lemma_failure_response_has_body(r, description@);
    }
    r
}

/// Maps the upstream outcome to the caller's response.
///
/// An upstream response of any status is relayed unchanged: status, headers and
/// body. A build failure becomes the failure response. A transport failure yields
/// no response: it is handed on as a `ServerFailure` with the same description.
pub fn relay(outcome: Result<UpstreamResponse, UpstreamError>) -> (r: Result<
    CallerResponse,
    ServerFailure,
>)
    ensures
        match outcome {
            Ok(up) => r is Ok && r->Ok_0.status == up.status && r->Ok_0.headers == up.headers
                && r->Ok_0.body == ResponseBody::Bytes(up.body),
            Err(UpstreamError::BuildFailure(d)) => r is Ok && is_failure_response(r->Ok_0, d@),
            Err(UpstreamError::TransportFailure(d)) => r == Err::<CallerResponse, ServerFailure>(
                ServerFailure { description: d },
            ),
        },
{
    match outcome {
        Ok(up) => Ok(
            CallerResponse {
                status: up.status,
                headers: up.headers,
                body: ResponseBody::Bytes(up.body),
            },
        ),
        Err(UpstreamError::BuildFailure(d)) => Ok(failure_response(d.as_str())),
        Err(UpstreamError::TransportFailure(d)) => Err(ServerFailure { description: d }),
    }
}

} // verus!
