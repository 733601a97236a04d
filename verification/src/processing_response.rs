//! The kinds of answer a processing response carries.
use vstd::prelude::*;
use crate::messages::{
    BodyResponse, BodyResponseView, HeadersResponse, HeadersResponseView, ImmediateResponse,
    ImmediateResponseView, TrailersResponse, TrailersResponseView,
};

verus! {

/// The answer to one phase, or an immediate response that ends the exchange.
#[derive(Debug, Clone, PartialEq, Eq)]
pub enum Response {
    RequestHeaders(HeadersResponse),
    ResponseHeaders(HeadersResponse),
    RequestBody(BodyResponse),
    ResponseBody(BodyResponse),
    RequestTrailers(TrailersResponse),
    ResponseTrailers(TrailersResponse),
    ImmediateResponse(ImmediateResponse),
}

pub enum ResponseView {
    RequestHeaders(HeadersResponseView),
    ResponseHeaders(HeadersResponseView),
    RequestBody(BodyResponseView),
    ResponseBody(BodyResponseView),
    RequestTrailers(TrailersResponseView),
    ResponseTrailers(TrailersResponseView),
    ImmediateResponse(ImmediateResponseView),
}

impl View for Response {
    type V = ResponseView;

    open spec fn view(&self) -> ResponseView {
        match self {
            Response::RequestHeaders(r) => ResponseView::RequestHeaders(r@),
            Response::ResponseHeaders(r) => ResponseView::ResponseHeaders(r@),
            Response::RequestBody(r) => ResponseView::RequestBody(r@),
            Response::ResponseBody(r) => ResponseView::ResponseBody(r@),
            Response::RequestTrailers(r) => ResponseView::RequestTrailers(r@),
            Response::ResponseTrailers(r) => ResponseView::ResponseTrailers(r@),
            Response::ImmediateResponse(r) => ResponseView::ImmediateResponse(r@),
        }
    }
}

} // verus!
