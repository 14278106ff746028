use vstd::prelude::*;

verus! {

/// The method of an outbound provider request.
#[derive(Clone, Copy, Debug, PartialEq, Eq, Structural)]
pub enum HttpMethod {
    Get,
    Post,
}

/// The body of an outbound request: nothing, form fields for the transport
/// to url-encode, or a finished JSON document.
#[derive(Clone, Debug, PartialEq)]
pub enum RequestBody {
    Empty,
    Form(Vec<(String, String)>),
    Json(String),
}

/// An outbound provider request described as plain data.  The surrounding
/// application owns the transport and sends it.
#[derive(Clone, Debug, PartialEq)]
pub struct HttpRequest {
    pub method: HttpMethod,
    pub url: String,
    pub headers: Vec<(String, String)>,
    pub body: RequestBody,
}

/// A provider response as the transport hands it back: the numeric status
/// and the body text.
#[derive(Clone, Debug, PartialEq)]
pub struct HttpResponse {
    pub status: u16,
    pub body: String,
}

/// The statuses the gateway counts as success.
pub open spec fn is_success_status(s: u16) -> bool {
    200 <= s < 300
}

/// The Authorization header value for a bearer token.
pub open spec fn bearer_value(token: Seq<char>) -> Seq<char> {
    "Bearer "@ + token
}

/// Builds the Authorization header value for a bearer token.
pub fn bearer_header(token: &str) -> (r: String)
    ensures
        r@ == bearer_value(token@),
{
    String::from_str("Bearer ").concat(token)
}

/// Classifies a response status: `Ok` exactly on a 2xx status, a protocol
/// error otherwise.
pub fn check_status(status: u16) -> (r: Result<(), crate::error::TinkApiError>)
    ensures
        r is Ok <==> is_success_status(status),
        r matches Err(e) ==> e.kind is ProviderProtocol,
{
    if 200 <= status && status < 300 {
        Ok(())
    } else {
        Err(crate::error::TinkApiError::protocol())
    }
}

} // verus!
