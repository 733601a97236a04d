use my_ext_processor::headers::{HeaderAppendAction, HeaderMap, HeaderMutation, HeaderValue, HeaderValueOption};
use my_ext_processor::messages::{
    BodyResponse, CommonResponse, GrpcStatus, HeadersResponse, HttpBody, HttpHeaders, HttpStatus,
    HttpTrailers, ImmediateResponse, ProcessingRequest, ProcessingResponse, ResponseStatus,
    TrailersResponse, INTERNAL_SERVER_ERROR,
};
use my_ext_processor::processing_request::Request;
use my_ext_processor::processing_response::Response;
use my_ext_processor::processor::{request_type_as_string, MyExtProcessor};

fn headers(end_of_stream: bool) -> HttpHeaders {
    HttpHeaders {
        headers: Some(HeaderMap {
            headers: vec![HeaderValue {
                key: ":path".to_string(),
                value: "/".to_string(),
                raw_value: b"/".to_vec(),
            }],
        }),
        end_of_stream,
    }
}

fn body(bytes: &[u8]) -> HttpBody {
    HttpBody { body: bytes.to_vec(), end_of_stream: true }
}

fn trailers() -> HttpTrailers {
    HttpTrailers { trailers: None }
}

fn one_header(key: &str, value: &str) -> HeaderMutation {
    HeaderMutation {
        set_headers: vec![HeaderValueOption {
            header: Some(HeaderValue {
                key: key.to_string(),
                value: value.to_string(),
                raw_value: value.as_bytes().to_vec(),
            }),
            append: None,
            append_action: HeaderAppendAction::AppendIfExistsOrAdd,
            keep_empty_value: false,
        }],
        remove_headers: vec![],
    }
}

fn respond(request: Option<Request>) -> ProcessingResponse {
    MyExtProcessor::default().respond(&ProcessingRequest { request })
}

#[test]
fn names_each_request_phase() {
    assert_eq!(request_type_as_string(&Some(Request::RequestHeaders(headers(false)))), "RequestHeaders");
    assert_eq!(request_type_as_string(&Some(Request::RequestBody(body(b"abc")))), "RequestBody");
    assert_eq!(request_type_as_string(&Some(Request::RequestTrailers(trailers()))), "RequestTrailers");
    assert_eq!(request_type_as_string(&Some(Request::ResponseHeaders(headers(true)))), "ResponseHeaders");
    assert_eq!(request_type_as_string(&Some(Request::ResponseBody(body(b"")))), "ResponseBody");
    assert_eq!(request_type_as_string(&Some(Request::ResponseTrailers(trailers()))), "ResponseTrailers");
    assert_eq!(request_type_as_string(&None), "EmptyRequest");
}

#[test]
fn request_headers_get_processed_by_header() {
    let expected = ProcessingResponse {
        response: Some(Response::RequestHeaders(HeadersResponse {
            response: Some(CommonResponse {
                status: ResponseStatus::Continue,
                header_mutation: Some(one_header("x-processed-by-rust-request", "my-ext-processor")),
            }),
        })),
    };
    assert_eq!(respond(Some(Request::RequestHeaders(headers(false)))), expected);
}

#[test]
fn response_headers_get_processed_by_header() {
    let expected = ProcessingResponse {
        response: Some(Response::ResponseHeaders(HeadersResponse {
            response: Some(CommonResponse {
                status: ResponseStatus::Continue,
                header_mutation: Some(one_header("x-processed-by-rust-response", "my-ext-processor")),
            }),
        })),
    };
    assert_eq!(respond(Some(Request::ResponseHeaders(headers(true)))), expected);
}

#[test]
fn added_header_raw_value_is_value_bytes() {
    let response = respond(Some(Request::RequestHeaders(headers(false))));
    let Some(Response::RequestHeaders(h)) = response.response else { panic!("wrong answer kind") };
    let mutation = h.response.unwrap().header_mutation.unwrap();
    assert_eq!(mutation.set_headers.len(), 1);
    let header = mutation.set_headers[0].header.clone().unwrap();
    assert_eq!(header.raw_value, b"my-ext-processor".to_vec());
    assert_eq!(header.raw_value, header.value.clone().into_bytes());
}

#[test]
fn bodies_pass_through_untouched() {
    let untouched = BodyResponse {
        response: Some(CommonResponse { status: ResponseStatus::Continue, header_mutation: None }),
    };
    assert_eq!(
        respond(Some(Request::RequestBody(body(b"hello")))),
        ProcessingResponse { response: Some(Response::RequestBody(untouched.clone())) }
    );
    assert_eq!(
        respond(Some(Request::ResponseBody(body(b"")))),
        ProcessingResponse { response: Some(Response::ResponseBody(untouched)) }
    );
}

#[test]
fn trailers_get_a_trailer_added() {
    assert_eq!(
        respond(Some(Request::RequestTrailers(trailers()))),
        ProcessingResponse {
            response: Some(Response::RequestTrailers(TrailersResponse {
                header_mutation: Some(one_header("x-rust-request-trailer", "added-by-processor")),
            })),
        }
    );
    assert_eq!(
        respond(Some(Request::ResponseTrailers(HttpTrailers { trailers: Some(HeaderMap { headers: vec![] }) }))),
        ProcessingResponse {
            response: Some(Response::ResponseTrailers(TrailersResponse {
                header_mutation: Some(one_header("x-rust-response-trailer", "added-by-processor")),
            })),
        }
    );
}

#[test]
fn empty_request_gets_internal_server_error() {
    let expected = ProcessingResponse {
        response: Some(Response::ImmediateResponse(ImmediateResponse {
            status: Some(HttpStatus { code: 500 }),
            headers: None,
            body: b"Empty request type received".to_vec(),
            grpc_status: None::<GrpcStatus>,
            details: "Processor received an empty request type.".to_string(),
        })),
    };
    assert_eq!(INTERNAL_SERVER_ERROR, 500);
    assert_eq!(respond(None), expected);
}

#[test]
fn answer_depends_on_phase_only() {
    let a = respond(Some(Request::RequestBody(body(b"first chunk"))));
    let b = respond(Some(Request::RequestBody(HttpBody { body: vec![0, 1, 2], end_of_stream: false })));
    assert_eq!(a, b);
    let c = respond(Some(Request::RequestHeaders(headers(true))));
    let d = respond(Some(Request::RequestHeaders(HttpHeaders { headers: None, end_of_stream: false })));
    assert_eq!(c, d);
}
