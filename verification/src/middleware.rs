//! The middleware chain composed with route dispatch: an inbound
//! request first meets the CORS policy (which may short-circuit an
//! OPTIONS preflight before dispatch), then exact-match dispatch, with
//! the 404 fallback for a miss; CORS headers are attached to the
//! response exactly when the request's origin is allowed. Tracing, the
//! other middleware, is observational and is modelled in `trace`; it
//! appears nowhere in this computation, so it cannot alter a response.

use vstd::prelude::*;

use crate::cors::{cors_headers_model, origin_allowed_model, CorsPolicy, CorsPolicyModel};
use crate::http::{CorsHeadersModel, Method, Response, ResponseModel};
use crate::routes::{handler_404, lookup_model, RouteModel, RouteTable};

verus! {

/// The view of an optional Origin header.
pub open spec fn origin_model(origin: Option<&str>) -> Option<Seq<char>> {
    match origin {
        Some(o) => Some(o@),
        None => None,
    }
}

/// The preflight response for an allowed origin: a successful, empty
/// response carrying the full set of CORS headers. It is independent
/// of the route table.
pub open spec fn preflight_model(origin: Seq<char>) -> ResponseModel {
    ResponseModel { status: 200, body: Seq::<char>::empty(), cors: Some(cors_headers_model(origin)) }
}

/// The CORS headers a non-preflight response carries: the full set
/// when the request origin is allowed, none otherwise.
pub open spec fn response_cors_model(p: CorsPolicyModel, origin: Option<Seq<char>>) -> Option<
    CorsHeadersModel,
> {
    match origin {
        Some(o) => if origin_allowed_model(p, o) {
            Some(cors_headers_model(o))
        } else {
            None
        },
        None => None,
    }
}

/// What the server answers: an OPTIONS request from an allowed origin
/// is answered with the preflight response before dispatch; any other
/// request is dispatched against the table, a miss falling back to the
/// fixed 404, and carries CORS headers exactly when its origin is
/// allowed.
pub open spec fn handle_model(
    routes: Seq<RouteModel>,
    p: CorsPolicyModel,
    method: Method,
    path: Seq<char>,
    origin: Option<Seq<char>>,
) -> ResponseModel {
    if method == Method::Options && origin is Some && origin_allowed_model(p, origin->0) {
        preflight_model(origin->0)
    } else {
        match lookup_model(routes, method, path) {
            Some(rm) => ResponseModel {
                status: rm.status,
                body: rm.body,
                cors: response_cors_model(p, origin),
            },
            None => ResponseModel {
                status: 404,
                body: "404"@,
                cors: response_cors_model(p, origin),
            },
        }
    }
}

/// Serves one request: CORS preflight short-circuit, then dispatch
/// with the 404 fallback, then CORS headers on the way out.
pub fn handle_request(
    table: &RouteTable,
    policy: &CorsPolicy,
    method: Method,
    path: &str,
    origin: Option<&str>,
) -> (r: Response)
    ensures
        r@ == handle_model(table@, policy@, method, path@, origin_model(origin)),
{
    if let Some(o) = origin {
        if matches!(method, Method::Options) && policy.origin_allowed(o) {
            let r = Response {
                status: 200,
                body: String::new(),
                cors: Some(policy.headers_for(o)),
            };
            proof {
                assert(r@ =~= preflight_model(o@));
            }
            return r;
        }
    }
    let mut r = match table.dispatch(method, path) {
        Some(resp) => resp,
        None => handler_404(),
    };
    match origin {
        Some(o) => {
            if policy.origin_allowed(o) {
                r.cors = Some(policy.headers_for(o));
            }
        },
        None => {},
    }
    proof {
        assert(r@ =~= handle_model(table@, policy@, method, path@, origin_model(origin)));
    }
    r
}

} // verus!
