//! Replies as values of the web framework.

use vstd::prelude::*;
use vstd::utf8::encode_utf8;
use crate::reply::Reply;

verus! {

/// `actix_web::HttpResponse`, carried as an opaque value.
#[verifier::external_type_specification]
#[verifier::external_body]
#[verifier::reject_recursive_types(B)]
pub struct ExHttpResponse<B>(actix_web::HttpResponse<B>);

/// `actix_web::body::BoxBody`, the body type of a finished response,
/// carried as an opaque value.
#[verifier::external_type_specification]
#[verifier::external_body]
pub struct ExBoxBody(actix_web::body::BoxBody);

/// The status code that a framework response carries.
pub uninterp spec fn http_status(response: actix_web::HttpResponse) -> u16;

/// The bytes of the body that a framework response carries.
pub uninterp spec fn http_body(response: actix_web::HttpResponse) -> Seq<u8>;

/// Calls `StatusCode::from_u16`, `HttpResponse::build` with the status it
/// gives, and `HttpResponseBuilder::body` with an owned copy of `body`.
/// Trusted: the response has status code `code`, and its body is the UTF-8
/// bytes of `body`. `from_u16` accepts the codes from 100 to 999.
#[verifier::external_body]
fn build_response(code: u16, body: &str) -> (response: actix_web::HttpResponse)
    requires
        100 <= code <= 999,
    ensures
        http_status(response) == code,
        http_body(response) == encode_utf8(body@),
{
    let status = actix_web::http::StatusCode::from_u16(code).unwrap();
    actix_web::HttpResponse::build(status).body(body.to_owned())
}

impl Reply {
    /// The framework response that carries this reply's status and body.
    pub fn to_http(&self) -> (response: actix_web::HttpResponse)
        ensures
            http_status(response) == self.status.code_spec(),
            http_body(response) == self.body_bytes(),
    {
        build_response(self.status.code(), self.body.as_str())
    }
}

} // verus!
