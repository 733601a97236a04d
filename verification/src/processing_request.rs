//! The phase a processing request carries.
use vstd::prelude::*;
use crate::messages::{HttpBody, HttpHeaders, HttpTrailers};

verus! {

/// One phase of an HTTP exchange that Envoy hands to the processor.
#[derive(Debug, Clone, PartialEq, Eq)]
pub enum Request {
    RequestHeaders(HttpHeaders),
    RequestBody(HttpBody),
    RequestTrailers(HttpTrailers),
    ResponseHeaders(HttpHeaders),
    ResponseBody(HttpBody),
    ResponseTrailers(HttpTrailers),
}

} // verus!
