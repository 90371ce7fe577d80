//! Plain request and response values: the HTTP method, the response a
//! handler produces, and the CORS headers a response may carry.

use vstd::prelude::*;

verus! {

/// An HTTP request method. Only `Get` and `Post` ever match a route in
/// this system; `Options` is claimed by the CORS preflight check; the
/// rest exist so that a request with any method can be dispatched (and
/// fall through to the 404 fallback). Methods outside the named set
/// are collapsed to `Other`, which matches nothing.
#[derive(PartialEq, Eq, Structural, Clone, Copy, Debug)]
pub enum Method {
    Get,
    Post,
    Options,
    Delete,
    Put,
    Patch,
    Head,
    Other,
}

/// The CORS headers attached to a response, as plain values: the echoed
/// allow-origin, whether credentials are allowed, and the advertised
/// allowed methods.
#[derive(Debug)]
pub struct CorsHeaders {
    pub allow_origin: String,
    pub allow_credentials: bool,
    pub allow_methods: Vec<Method>,
}

/// Mathematical model of `CorsHeaders`.
#[verifier::ext_equal]
pub struct CorsHeadersModel {
    pub allow_origin: Seq<char>,
    pub allow_credentials: bool,
    pub allow_methods: Seq<Method>,
}

impl View for CorsHeaders {
    type V = CorsHeadersModel;

    open spec fn view(&self) -> CorsHeadersModel {
        CorsHeadersModel {
            allow_origin: self.allow_origin@,
            allow_credentials: self.allow_credentials,
            allow_methods: self.allow_methods@,
        }
    }
}

/// A complete response: status code, text body, and the CORS headers,
/// if any were attached by the middleware.
#[derive(Debug)]
pub struct Response {
    pub status: u16,
    pub body: String,
    pub cors: Option<CorsHeaders>,
}

/// Mathematical model of `Response`.
#[verifier::ext_equal]
pub struct ResponseModel {
    pub status: u16,
    pub body: Seq<char>,
    pub cors: Option<CorsHeadersModel>,
}

impl View for Response {
    type V = ResponseModel;

    open spec fn view(&self) -> ResponseModel {
        ResponseModel {
            status: self.status,
            body: self.body@,
            cors: match self.cors {
                Some(h) => Some(h@),
                None => None,
            },
        }
    }
}

/// Equality of two string slices, stated over their views.
pub fn str_eq(a: &str, b: &str) -> (r: bool)
    ensures
        r == (a@ == b@),
{
    let sa = a.to_owned();
    let sb = b.to_owned();
    sa == sb
}

} // verus!
