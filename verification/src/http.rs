use vstd::prelude::*;
use vstd::utf8::encode_utf8;

verus! {

/// The HTTP methods that the service tells apart.
#[derive(Clone, Copy, Debug, PartialEq, Eq, Structural)]
pub enum Method {
    Get,
    Post,
    /// Any other method.
    Other,
}

/// The HTTP status codes that the service answers with.
#[derive(Clone, Copy, Debug, PartialEq, Eq, Structural)]
pub enum StatusCode {
    /// 200 OK
    Success,
    /// 400 Bad Request
    BadRequest,
    /// 404 Not Found
    NotFound,
}

/// A response of the service.
#[derive(Debug)]
pub struct Response {
    pub status: StatusCode,
    pub body: Vec<u8>,
}

/// A request that the service sends to the language backend.
#[derive(Debug)]
pub struct OutgoingRequest {
    pub method: Method,
    pub url: String,
    /// The value of the `Content-Type` header.
    pub content_type: String,
    /// The value of the `Content-Length` header.
    pub content_length: u64,
    pub body: String,
}

/// The media type of a JSON body.
pub const JSON_CONTENT_TYPE: &'static str = "application/json";

/// `r` is a JSON request with the given method, URL and body, whose
/// `Content-Length` is the number of UTF-8 bytes of the body.
pub open spec fn is_json_request(r: OutgoingRequest, method: Method, url: Seq<char>, body: Seq<char>) -> bool {
    &&& r.method == method
    &&& r.url@ == url
    &&& r.content_type@ == JSON_CONTENT_TYPE@
    &&& r.body@ == body
    &&& r.content_length == encode_utf8(body).len()
}

/// The UTF-8 bytes of a text, as a response body.
pub fn text_body(text: &str) -> (body: Vec<u8>)
    ensures
        body@ == encode_utf8(text@),
{
    vstd::slice::slice_to_vec(text.as_bytes())
}

} // verus!
