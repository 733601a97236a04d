//! What the processor answers to each processing request.
//!
//! Header phases are let through with one header added, body phases are let
//! through untouched, trailer phases get one trailer added, and a request
//! that names no phase is answered with an immediate `500` response.
use vstd::prelude::*;
use vstd::slice::slice_to_vec;
use vstd::utf8::encode_utf8;
use crate::headers::{set_one_header, spec_set_one_header, HeaderMutationView};
use crate::messages::{
    BodyResponse, BodyResponseView, CommonResponse, CommonResponseView, HeadersResponse,
    HeadersResponseView, HttpStatus, ImmediateResponse, ImmediateResponseView, ProcessingRequest,
    ProcessingResponse, ProcessingResponseView, ResponseStatus, TrailersResponse,
    TrailersResponseView, INTERNAL_SERVER_ERROR,
};
use crate::processing_request::Request;
use crate::processing_response::{Response, ResponseView};

verus! {

/// Header added to the request headers of every exchange.
pub const REQUEST_HEADER_KEY: &'static str = "x-processed-by-rust-request";

/// Header added to the response headers of every exchange.
pub const RESPONSE_HEADER_KEY: &'static str = "x-processed-by-rust-response";

/// Value of the headers added to request and response headers.
pub const PROCESSOR_NAME: &'static str = "my-ext-processor";

/// Trailer added to the request trailers of every exchange.
pub const REQUEST_TRAILER_KEY: &'static str = "x-rust-request-trailer";

/// Trailer added to the response trailers of every exchange.
pub const RESPONSE_TRAILER_KEY: &'static str = "x-rust-response-trailer";

/// Value of the trailers added to request and response trailers.
pub const TRAILER_VALUE: &'static str = "added-by-processor";

/// Body of the immediate response to a request that names no phase.
pub const EMPTY_REQUEST_BODY: &'static str = "Empty request type received";

/// Details of the immediate response to a request that names no phase.
pub const EMPTY_REQUEST_DETAILS: &'static str = "Processor received an empty request type.";

/// The phase of an HTTP exchange that a processing request carries.
#[derive(Debug, Clone, Copy, PartialEq, Eq, Structural)]
pub enum Phase {
    RequestHeaders,
    RequestBody,
    RequestTrailers,
    ResponseHeaders,
    ResponseBody,
    ResponseTrailers,
}

/// The phase a request carries, `None` when it carries none.
pub open spec fn phase_of(request: Option<Request>) -> Option<Phase> {
    match request {
        Some(Request::RequestHeaders(_)) => Some(Phase::RequestHeaders),
        Some(Request::RequestBody(_)) => Some(Phase::RequestBody),
        Some(Request::RequestTrailers(_)) => Some(Phase::RequestTrailers),
        Some(Request::ResponseHeaders(_)) => Some(Phase::ResponseHeaders),
        Some(Request::ResponseBody(_)) => Some(Phase::ResponseBody),
        Some(Request::ResponseTrailers(_)) => Some(Phase::ResponseTrailers),
        None => None,
    }
}

/// The name under which a phase is reported.
pub open spec fn phase_label(phase: Option<Phase>) -> Seq<char> {
    match phase {
        Some(Phase::RequestHeaders) => "RequestHeaders"@,
        Some(Phase::RequestBody) => "RequestBody"@,
        Some(Phase::RequestTrailers) => "RequestTrailers"@,
        Some(Phase::ResponseHeaders) => "ResponseHeaders"@,
        Some(Phase::ResponseBody) => "ResponseBody"@,
        Some(Phase::ResponseTrailers) => "ResponseTrailers"@,
        None => "EmptyRequest"@,
    }
}

/// Go on with the exchange, applying `mutation` if there is one.
pub open spec fn spec_continue_with(mutation: Option<HeaderMutationView>) -> Option<CommonResponseView> {
    Some(CommonResponseView { status: ResponseStatus::Continue, header_mutation: mutation })
}

/// The immediate response to a request that names no phase: status 500, the
/// fixed body as UTF-8 bytes and the fixed details, nothing else.
pub open spec fn spec_empty_request_response() -> ImmediateResponseView {
    ImmediateResponseView {
        status: Some(HttpStatus { code: INTERNAL_SERVER_ERROR }),
        headers: None,
        body: encode_utf8(EMPTY_REQUEST_BODY@),
        grpc_status: None,
        details: EMPTY_REQUEST_DETAILS@,
    }
}

/// The answer the processor gives to a request of the given phase.
pub open spec fn response_for(phase: Option<Phase>) -> ProcessingResponseView {
    ProcessingResponseView {
        response: Some(
            match phase {
                Some(Phase::RequestHeaders) => ResponseView::RequestHeaders(
                    HeadersResponseView {
                        response: spec_continue_with(
                            Some(spec_set_one_header(REQUEST_HEADER_KEY@, PROCESSOR_NAME@)),
                        ),
                    },
                ),
                Some(Phase::RequestBody) => ResponseView::RequestBody(
                    BodyResponseView { response: spec_continue_with(None) },
                ),
                Some(Phase::RequestTrailers) => ResponseView::RequestTrailers(
                    TrailersResponseView {
                        header_mutation: Some(spec_set_one_header(REQUEST_TRAILER_KEY@, TRAILER_VALUE@)),
                    },
                ),
                Some(Phase::ResponseHeaders) => ResponseView::ResponseHeaders(
                    HeadersResponseView {
                        response: spec_continue_with(
                            Some(spec_set_one_header(RESPONSE_HEADER_KEY@, PROCESSOR_NAME@)),
                        ),
                    },
                ),
                Some(Phase::ResponseBody) => ResponseView::ResponseBody(
                    BodyResponseView { response: spec_continue_with(None) },
                ),
                Some(Phase::ResponseTrailers) => ResponseView::ResponseTrailers(
                    TrailersResponseView {
                        header_mutation: Some(spec_set_one_header(RESPONSE_TRAILER_KEY@, TRAILER_VALUE@)),
                    },
                ),
                None => ResponseView::ImmediateResponse(spec_empty_request_response()),
            },
        ),
    }
}

/// The phase a response answers; `None` for an immediate response or no answer.
pub open spec fn answered_phase(response: ProcessingResponseView) -> Option<Phase> {
    match response.response {
        Some(ResponseView::RequestHeaders(_)) => Some(Phase::RequestHeaders),
        Some(ResponseView::RequestBody(_)) => Some(Phase::RequestBody),
        Some(ResponseView::RequestTrailers(_)) => Some(Phase::RequestTrailers),
        Some(ResponseView::ResponseHeaders(_)) => Some(Phase::ResponseHeaders),
        Some(ResponseView::ResponseBody(_)) => Some(Phase::ResponseBody),
        Some(ResponseView::ResponseTrailers(_)) => Some(Phase::ResponseTrailers),
        _ => None,
    }
}

/// The name of the phase a request carries, `"EmptyRequest"` when it carries none.
pub fn request_type_as_string(request_opt: &Option<Request>) -> (name: &'static str)
    ensures
        name@ == phase_label(phase_of(*request_opt)),
{
    match request_opt {
        Some(Request::RequestHeaders(_)) => "RequestHeaders",
        Some(Request::RequestBody(_)) => "RequestBody",
        Some(Request::RequestTrailers(_)) => "RequestTrailers",
        Some(Request::ResponseHeaders(_)) => "ResponseHeaders",
        Some(Request::ResponseBody(_)) => "ResponseBody",
        Some(Request::ResponseTrailers(_)) => "ResponseTrailers",
        None => "EmptyRequest",
    }
}

/// Answer to a headers phase: go on, setting the header `key: my-ext-processor`.
fn headers_continue(key: &str) -> (answer: HeadersResponse)
    ensures
        answer@ == (HeadersResponseView {
            response: spec_continue_with(Some(spec_set_one_header(key@, PROCESSOR_NAME@))),
        }),
{
    HeadersResponse {
        response: Some(
            CommonResponse {
                status: ResponseStatus::Continue,
                header_mutation: Some(set_one_header(key, PROCESSOR_NAME)),
            },
        ),
    }
}

/// Answer to a body phase: go on, changing nothing.
fn body_continue() -> (answer: BodyResponse)
    ensures
        answer@ == (BodyResponseView { response: spec_continue_with(None) }),
{
    BodyResponse { response: Some(CommonResponse { status: ResponseStatus::Continue, header_mutation: None }) }
}

/// Answer to a trailers phase: set the trailer `key: added-by-processor`.
fn trailers_with(key: &str) -> (answer: TrailersResponse)
    ensures
        answer@ == (TrailersResponseView {
            header_mutation: Some(spec_set_one_header(key@, TRAILER_VALUE@)),
        }),
{
    TrailersResponse { header_mutation: Some(set_one_header(key, TRAILER_VALUE)) }
}

/// The immediate response to a request that names no phase.
fn empty_request_response() -> (answer: ImmediateResponse)
    ensures
        answer@ == spec_empty_request_response(),
{
    ImmediateResponse {
        status: Some(HttpStatus { code: INTERNAL_SERVER_ERROR }),
        headers: None,
        body: slice_to_vec(EMPTY_REQUEST_BODY.as_bytes()),
        grpc_status: None,
        details: EMPTY_REQUEST_DETAILS.to_string(),
    }
}

/// The external processor: it keeps no state between requests.
#[derive(Debug, Default, Clone, Copy)]
pub struct MyExtProcessor {}

impl MyExtProcessor {
    /// The answer to one processing request. It depends on the request's
    /// phase alone, and answers that same phase (an immediate response when
    /// the request names none).
    pub fn respond(&self, request: &ProcessingRequest) -> (response: ProcessingResponse)
        ensures
            response@ == response_for(phase_of(request.request)),
            answered_phase(response@) == phase_of(request.request),
    {
        let answer = match &request.request {
            Some(Request::RequestHeaders(_)) => Response::RequestHeaders(headers_continue(REQUEST_HEADER_KEY)),
            Some(Request::RequestBody(_)) => Response::RequestBody(body_continue()),
            Some(Request::RequestTrailers(_)) => Response::RequestTrailers(trailers_with(REQUEST_TRAILER_KEY)),
            Some(Request::ResponseHeaders(_)) => Response::ResponseHeaders(headers_continue(RESPONSE_HEADER_KEY)),
            Some(Request::ResponseBody(_)) => Response::ResponseBody(body_continue()),
            Some(Request::ResponseTrailers(_)) => Response::ResponseTrailers(trailers_with(RESPONSE_TRAILER_KEY)),
            None => Response::ImmediateResponse(empty_request_response()),
        };
        ProcessingResponse { response: Some(answer) }
    }
}

} // verus!
