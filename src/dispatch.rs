use vstd::prelude::*;

use crate::inspect::{
    inspect, invalid_body_text, is_length_override, is_placeholder_mutation, json_accepts,
    MutationOutcome, PRECONDITION_FAILED,
};
use crate::message::{
    payload_phase, response_phase, BodyMutation, CommonResponse, ImmediateResponse, ProcessingRequest,
    ProcessingResponse, RequestPayload, ResponseStatus,
};

verus! {

/// Why a message could not be answered.
#[derive(Debug, Clone, Copy, PartialEq, Eq, Structural)]
pub enum ErrorKind {
    /// The message carries no phase payload.
    MalformedRequest,
}

/// A body answer that goes on with the placeholder body and its length.
pub open spec fn replacement_fits(c: CommonResponse) -> bool {
    &&& c.status == ResponseStatus::ContinueAndReplace
    &&& match c.body_mutation {
        Some(m) => is_placeholder_mutation(m),
        None => false,
    }
    &&& match c.header_mutation {
        Some(h) => is_length_override(h),
        None => false,
    }
}

/// An immediate response for a body that fails inspection.
pub open spec fn termination_fits(i: ImmediateResponse) -> bool {
    &&& i.status == PRECONDITION_FAILED
    &&& i.body@ == invalid_body_text()
    &&& i.details@ == invalid_body_text()
    &&& i.headers is None
    &&& i.grpc_status is None
}

/// The answer owed for a body phase; `request_side` tells the request body from
/// the response body.
pub open spec fn body_answer(body: Seq<u8>, request_side: bool, r: ProcessingResponse) -> bool {
    if json_accepts(body) {
        match r {
            ProcessingResponse::RequestBody(Some(c)) => request_side && replacement_fits(c),
            ProcessingResponse::ResponseBody(Some(c)) => !request_side && replacement_fits(c),
            _ => false,
        }
    } else {
        match r {
            ProcessingResponse::ImmediateResponse(i) => termination_fits(i),
            _ => false,
        }
    }
}

/// `r` is the answer owed for a message with payload `p`: a pass-through of the
/// same phase for headers and trailers, the inspector's decision for bodies.
pub open spec fn answers(p: RequestPayload, r: ProcessingResponse) -> bool {
    match p {
        RequestPayload::RequestHeaders(_) => r matches ProcessingResponse::RequestHeaders(None),
        RequestPayload::RequestBody(b) => body_answer(b@, true, r),
        RequestPayload::RequestTrailers(_) => r matches ProcessingResponse::RequestTrailers(None),
        RequestPayload::ResponseHeaders(_) => r matches ProcessingResponse::ResponseHeaders(None),
        RequestPayload::ResponseBody(b) => body_answer(b@, false, r),
        RequestPayload::ResponseTrailers(_) => r matches ProcessingResponse::ResponseTrailers(None),
    }
}

/// The payload is a body that fails inspection.
pub open spec fn is_rejected_body(p: RequestPayload) -> bool {
    match p {
        RequestPayload::RequestBody(b) => !json_accepts(b@),
        RequestPayload::ResponseBody(b) => !json_accepts(b@),
        _ => false,
    }
}

/// Wraps the inspector's decision on a body under the body tag of its side.
fn answer_body(body: &Vec<u8>, request_side: bool) -> (r: ProcessingResponse)
    ensures
        body_answer(body@, request_side, r),
{
    match inspect(body.as_slice()) {
        MutationOutcome::Replace { mutation, headers } => {
            let common = CommonResponse {
                status: ResponseStatus::ContinueAndReplace,
                header_mutation: Some(headers),
                body_mutation: Some(mutation),
            };
            if request_side {
                ProcessingResponse::RequestBody(Some(common))
            } else {
                ProcessingResponse::ResponseBody(Some(common))
            }
        },
        MutationOutcome::Terminate { status_code, details } => {
            let immediate = ImmediateResponse {
                status: status_code,
                headers: None,
                body: details.clone(),
                grpc_status: None,
                details,
            };
            ProcessingResponse::ImmediateResponse(immediate)
        },
    }
}

/// Answers one inbound message; a message without payload is refused.
pub fn dispatch(req: &ProcessingRequest) -> (r: Result<ProcessingResponse, ErrorKind>)
    ensures
        match req.request {
            None => r == Err::<ProcessingResponse, ErrorKind>(ErrorKind::MalformedRequest),
            Some(p) => r is Ok && answers(p, r->Ok_0),
        },
{
    match &req.request {
        None => Err(ErrorKind::MalformedRequest),
        Some(RequestPayload::RequestHeaders(_)) => Ok(ProcessingResponse::RequestHeaders(None)),
        Some(RequestPayload::RequestBody(b)) => Ok(answer_body(b, true)),
        Some(RequestPayload::RequestTrailers(_)) => Ok(ProcessingResponse::RequestTrailers(None)),
        Some(RequestPayload::ResponseHeaders(_)) => Ok(ProcessingResponse::ResponseHeaders(None)),
        Some(RequestPayload::ResponseBody(b)) => Ok(answer_body(b, false)),
        Some(RequestPayload::ResponseTrailers(_)) => Ok(
            ProcessingResponse::ResponseTrailers(None),
        ),
    }
}

/// An answer carries the phase tag of its message, except that a body which
/// fails inspection is answered by an immediate response.
pub proof fn lemma_answer_keeps_phase(p: RequestPayload, r: ProcessingResponse)
    requires
        answers(p, r),
    ensures
        is_rejected_body(p) ==> r is ImmediateResponse,
        !is_rejected_body(p) ==> response_phase(r) == Some(payload_phase(p)),
{
}

/// A body that fails inspection is answered with a precondition-failure status
/// and a non-empty description, in the details and in the body text.
pub proof fn lemma_rejection_is_described(body: Seq<u8>, request_side: bool, r: ProcessingResponse)
    requires
        body_answer(body, request_side, r),
        !json_accepts(body),
    ensures
        r is ImmediateResponse,
        r->ImmediateResponse_0.status == 412,
        r->ImmediateResponse_0.details@.len() > 0,
        r->ImmediateResponse_0.body@.len() > 0,
{
    reveal_strlit("invalid json body");
}

/// A well-formed body is answered, under its own side's body tag, by a
/// replacement with exactly the two bytes `{}` and a `content-length` of `2`.
pub proof fn lemma_replacement_is_exact(body: Seq<u8>, request_side: bool, r: ProcessingResponse)
    requires
        body_answer(body, request_side, r),
        json_accepts(body),
    ensures
        request_side ==> r is RequestBody,
        !request_side ==> r is ResponseBody,
        ({
            let c = if request_side { r->RequestBody_0 } else { r->ResponseBody_0 };
            &&& c is Some
            &&& c->Some_0.status == ResponseStatus::ContinueAndReplace
            &&& c->Some_0.body_mutation matches Some(BodyMutation::Body(b)) && b@ == seq![
                '{' as u8,
                '}' as u8,
            ]
            &&& c->Some_0.header_mutation is Some
            &&& c->Some_0.header_mutation->Some_0.set_headers@.len() == 1
            &&& c->Some_0.header_mutation->Some_0.set_headers@[0].key@ == seq![
                'c', 'o', 'n', 't', 'e', 'n', 't', '-', 'l', 'e', 'n', 'g', 't', 'h',
            ]
            &&& c->Some_0.header_mutation->Some_0.set_headers@[0].value@ == seq!['2']
        }),
{
    reveal_strlit("content-length");
    reveal_strlit("2");
}

} // verus!
