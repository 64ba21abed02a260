use vstd::prelude::*;

verus! {

/// One of the six points of an HTTP exchange at which inspection happens.
#[derive(Debug, Clone, Copy, PartialEq, Eq, Structural)]
pub enum Phase {
    RequestHeaders,
    RequestBody,
    RequestTrailers,
    ResponseHeaders,
    ResponseBody,
    ResponseTrailers,
}

/// A single header entry.
#[derive(Debug, Clone)]
pub struct HeaderValue {
    pub key: String,
    pub value: String,
}

/// How the proxy goes on after a phase answer.
#[derive(Debug, Clone, Copy, PartialEq, Eq, Structural)]
pub enum ResponseStatus {
    Continue,
    ContinueAndReplace,
}

/// A change of the body: replace it with new bytes, or clear it.
#[derive(Debug, Clone)]
pub enum BodyMutation {
    Body(Vec<u8>),
    ClearBody,
}

/// Header entries to set and header names to remove.
#[derive(Debug, Clone)]
pub struct HeaderMutation {
    pub set_headers: Vec<HeaderValue>,
    pub remove_headers: Vec<String>,
}

/// The answer carried by a headers or body phase response.
#[derive(Debug, Clone)]
pub struct CommonResponse {
    pub status: ResponseStatus,
    pub header_mutation: Option<HeaderMutation>,
    pub body_mutation: Option<BodyMutation>,
}

/// An answer that abandons the exchange and is returned to the caller as is.
#[derive(Debug, Clone)]
pub struct ImmediateResponse {
    /// HTTP status code.
    pub status: u16,
    pub headers: Option<HeaderMutation>,
    pub body: String,
    pub grpc_status: Option<u32>,
    pub details: String,
}

/// The payload of an inbound message: exactly one phase with its content.
#[derive(Debug, Clone)]
pub enum RequestPayload {
    RequestHeaders(Vec<HeaderValue>),
    RequestBody(Vec<u8>),
    RequestTrailers(Vec<HeaderValue>),
    ResponseHeaders(Vec<HeaderValue>),
    ResponseBody(Vec<u8>),
    ResponseTrailers(Vec<HeaderValue>),
}

/// An inbound message; a message without a payload is malformed.
#[derive(Debug, Clone)]
pub struct ProcessingRequest {
    pub request: Option<RequestPayload>,
}

/// An outbound message: the answer for one phase, or an immediate response.
#[derive(Debug, Clone)]
pub enum ProcessingResponse {
    RequestHeaders(Option<CommonResponse>),
    RequestBody(Option<CommonResponse>),
    RequestTrailers(Option<HeaderMutation>),
    ResponseHeaders(Option<CommonResponse>),
    ResponseBody(Option<CommonResponse>),
    ResponseTrailers(Option<HeaderMutation>),
    ImmediateResponse(ImmediateResponse),
}

/// The phase of a payload.
pub open spec fn payload_phase(p: RequestPayload) -> Phase {
    match p {
        RequestPayload::RequestHeaders(_) => Phase::RequestHeaders,
        RequestPayload::RequestBody(_) => Phase::RequestBody,
        RequestPayload::RequestTrailers(_) => Phase::RequestTrailers,
        RequestPayload::ResponseHeaders(_) => Phase::ResponseHeaders,
        RequestPayload::ResponseBody(_) => Phase::ResponseBody,
        RequestPayload::ResponseTrailers(_) => Phase::ResponseTrailers,
    }
}

/// The phase tag of a response; an immediate response has none.
pub open spec fn response_phase(r: ProcessingResponse) -> Option<Phase> {
    match r {
        ProcessingResponse::RequestHeaders(_) => Some(Phase::RequestHeaders),
        ProcessingResponse::RequestBody(_) => Some(Phase::RequestBody),
        ProcessingResponse::RequestTrailers(_) => Some(Phase::RequestTrailers),
        ProcessingResponse::ResponseHeaders(_) => Some(Phase::ResponseHeaders),
        ProcessingResponse::ResponseBody(_) => Some(Phase::ResponseBody),
        ProcessingResponse::ResponseTrailers(_) => Some(Phase::ResponseTrailers),
        ProcessingResponse::ImmediateResponse(_) => None,
    }
}

impl RequestPayload {
    /// The phase this payload belongs to.
    pub fn phase(&self) -> (r: Phase)
        ensures
            r == payload_phase(*self),
    {
        match self {
            RequestPayload::RequestHeaders(_) => Phase::RequestHeaders,
            RequestPayload::RequestBody(_) => Phase::RequestBody,
            RequestPayload::RequestTrailers(_) => Phase::RequestTrailers,
            RequestPayload::ResponseHeaders(_) => Phase::ResponseHeaders,
            RequestPayload::ResponseBody(_) => Phase::ResponseBody,
            RequestPayload::ResponseTrailers(_) => Phase::ResponseTrailers,
        }
    }
}

impl ProcessingRequest {
    /// The phase of the message, or `None` where it has no payload.
    pub fn phase(&self) -> (r: Option<Phase>)
        ensures
            r == (match self.request {
                Some(p) => Some(payload_phase(p)),
                None => None::<Phase>,
            }),
    {
        match &self.request {
            Some(p) => Some(p.phase()),
            None => None,
        }
    }
}

impl ProcessingResponse {
    /// The phase tag of the response, or `None` for an immediate response.
    pub fn phase(&self) -> (r: Option<Phase>)
        ensures
            r == response_phase(*self),
    {
        match self {
            ProcessingResponse::RequestHeaders(_) => Some(Phase::RequestHeaders),
            ProcessingResponse::RequestBody(_) => Some(Phase::RequestBody),
            ProcessingResponse::RequestTrailers(_) => Some(Phase::RequestTrailers),
            ProcessingResponse::ResponseHeaders(_) => Some(Phase::ResponseHeaders),
            ProcessingResponse::ResponseBody(_) => Some(Phase::ResponseBody),
            ProcessingResponse::ResponseTrailers(_) => Some(Phase::ResponseTrailers),
            ProcessingResponse::ImmediateResponse(_) => None,
        }
    }
}

} // verus!
