//! The ext_proc messages, as far as the processor reads or writes them.
use vstd::prelude::*;
use crate::headers::{HeaderMap, HeaderMutation, HeaderMutationView};
use crate::processing_request;
use crate::processing_response;

verus! {

/// The HTTP status code Envoy's status-code enumeration gives `500 Internal Server Error`.
pub const INTERNAL_SERVER_ERROR: i32 = 500;

/// A message Envoy sends on the processing stream: one phase of an HTTP
/// exchange, or nothing when the sender left the phase unset.
#[derive(Debug, Clone, PartialEq, Eq)]
pub struct ProcessingRequest {
    pub request: Option<processing_request::Request>,
}

/// The headers (or the response headers) of an HTTP exchange.
#[derive(Debug, Clone, PartialEq, Eq)]
pub struct HttpHeaders {
    pub headers: Option<HeaderMap>,
    pub end_of_stream: bool,
}

/// A chunk of an HTTP body.
#[derive(Debug, Clone, PartialEq, Eq)]
pub struct HttpBody {
    pub body: Vec<u8>,
    pub end_of_stream: bool,
}

/// The trailers of an HTTP exchange.
#[derive(Debug, Clone, PartialEq, Eq)]
pub struct HttpTrailers {
    pub trailers: Option<HeaderMap>,
}

/// Whether Envoy goes on with the exchange as it stands or replaces it.
#[derive(Debug, Clone, Copy, PartialEq, Eq, Structural)]
pub enum ResponseStatus {
    Continue,
    ContinueAndReplace,
}

/// The part common to answers about headers and bodies.
#[derive(Debug, Clone, PartialEq, Eq)]
pub struct CommonResponse {
    pub status: ResponseStatus,
    pub header_mutation: Option<HeaderMutation>,
}

/// The answer to a headers phase.
#[derive(Debug, Clone, PartialEq, Eq)]
pub struct HeadersResponse {
    pub response: Option<CommonResponse>,
}

/// The answer to a body phase.
#[derive(Debug, Clone, PartialEq, Eq)]
pub struct BodyResponse {
    pub response: Option<CommonResponse>,
}

/// The answer to a trailers phase.
#[derive(Debug, Clone, PartialEq, Eq)]
pub struct TrailersResponse {
    pub header_mutation: Option<HeaderMutation>,
}

/// An HTTP status code.
#[derive(Debug, Clone, Copy, PartialEq, Eq, Structural)]
pub struct HttpStatus {
    pub code: i32,
}

/// A gRPC status code.
#[derive(Debug, Clone, Copy, PartialEq, Eq, Structural)]
pub struct GrpcStatus {
    pub status: u32,
}

/// An answer that ends the exchange at once with a response of the processor's making.
#[derive(Debug, Clone, PartialEq, Eq)]
pub struct ImmediateResponse {
    pub status: Option<HttpStatus>,
    pub headers: Option<HeaderMutation>,
    pub body: Vec<u8>,
    pub grpc_status: Option<GrpcStatus>,
    pub details: String,
}

/// A message the processor sends back on the stream.
#[derive(Debug, Clone, PartialEq, Eq)]
pub struct ProcessingResponse {
    pub response: Option<processing_response::Response>,
}

pub struct CommonResponseView {
    pub status: ResponseStatus,
    pub header_mutation: Option<HeaderMutationView>,
}

pub struct HeadersResponseView {
    pub response: Option<CommonResponseView>,
}

pub struct BodyResponseView {
    pub response: Option<CommonResponseView>,
}

pub struct TrailersResponseView {
    pub header_mutation: Option<HeaderMutationView>,
}

pub struct ImmediateResponseView {
    pub status: Option<HttpStatus>,
    pub headers: Option<HeaderMutationView>,
    pub body: Seq<u8>,
    pub grpc_status: Option<GrpcStatus>,
    pub details: Seq<char>,
}

pub struct ProcessingResponseView {
    pub response: Option<processing_response::ResponseView>,
}

pub open spec fn mutation_view(m: Option<HeaderMutation>) -> Option<HeaderMutationView> {
    match m {
        Some(m) => Some(m@),
        None => None,
    }
}

pub open spec fn common_view(c: Option<CommonResponse>) -> Option<CommonResponseView> {
    match c {
        Some(c) => Some(c@),
        None => None,
    }
}

impl View for CommonResponse {
    type V = CommonResponseView;

    open spec fn view(&self) -> CommonResponseView {
        CommonResponseView { status: self.status, header_mutation: mutation_view(self.header_mutation) }
    }
}

impl View for HeadersResponse {
    type V = HeadersResponseView;

    open spec fn view(&self) -> HeadersResponseView {
        HeadersResponseView { response: common_view(self.response) }
    }
}

impl View for BodyResponse {
    type V = BodyResponseView;

    open spec fn view(&self) -> BodyResponseView {
        BodyResponseView { response: common_view(self.response) }
    }
}

impl View for TrailersResponse {
    type V = TrailersResponseView;

    open spec fn view(&self) -> TrailersResponseView {
        TrailersResponseView { header_mutation: mutation_view(self.header_mutation) }
    }
}

impl View for ImmediateResponse {
    type V = ImmediateResponseView;

    open spec fn view(&self) -> ImmediateResponseView {
        ImmediateResponseView {
            status: self.status,
            headers: mutation_view(self.headers),
            body: self.body@,
            grpc_status: self.grpc_status,
            details: self.details@,
        }
    }
}

impl View for ProcessingResponse {
    type V = ProcessingResponseView;

    open spec fn view(&self) -> ProcessingResponseView {
        ProcessingResponseView {
            response: match self.response {
                Some(r) => Some(r@),
                None => None,
            },
        }
    }
}

} // verus!
