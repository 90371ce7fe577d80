//! The properties the server's model guarantees, each stated and
//! proved over the spec functions that the executable functions'
//! contracts use.

use vstd::prelude::*;

use crate::cors::{allowed_methods_model, origin_allowed_model, CorsPolicyModel};
use crate::http::Method;
use crate::middleware::{handle_model, preflight_model};
use crate::routes::{
    defined_routes, get_foo_route_model, lookup_model, post_foo_route_model, root_route_model,
    RouteModel,
};

verus! {

/// Dispatch on the defined table finds each defined route: `GET /`,
/// `GET /foo` and `POST /foo` each resolve to their own route.
pub proof fn lemma_dispatch_defined_routes()
    ensures
        lookup_model(defined_routes(), Method::Get, "/"@) == Some(root_route_model()),
        lookup_model(defined_routes(), Method::Get, "/foo"@) == Some(get_foo_route_model()),
        lookup_model(defined_routes(), Method::Post, "/foo"@) == Some(post_foo_route_model()),
{
    reveal_with_fuel(lookup_model, 4);
    reveal_strlit("/");
    reveal_strlit("/foo");
    assert("/"@.len() != "/foo"@.len());
    assert(defined_routes().skip(1) =~= seq![get_foo_route_model(), post_foo_route_model()]);
    assert(defined_routes().skip(1).skip(1) =~= seq![post_foo_route_model()]);
}

/// Every supported (method, path) pair is served with exactly the
/// status and body its route defines, whatever the request's origin.
pub proof fn lemma_defined_routes_served(p: CorsPolicyModel, origin: Option<Seq<char>>)
    ensures
        handle_model(defined_routes(), p, Method::Get, "/"@, origin).status == 200,
        handle_model(defined_routes(), p, Method::Get, "/"@, origin).body == "Hello, World!"@,
        handle_model(defined_routes(), p, Method::Get, "/foo"@, origin).status == 200,
        handle_model(defined_routes(), p, Method::Get, "/foo"@, origin).body
            == "Hi from `GET /foo`"@,
        handle_model(defined_routes(), p, Method::Post, "/foo"@, origin).status == 200,
        handle_model(defined_routes(), p, Method::Post, "/foo"@, origin).body
            == "Hi from `POST /foo`"@,
{
    lemma_dispatch_defined_routes();
}

/// Dispatch on the defined table misses every other (method, path)
/// pair.
pub proof fn lemma_dispatch_miss(method: Method, path: Seq<char>)
    requires
        !(method == Method::Get && path == "/"@),
        !(method == Method::Get && path == "/foo"@),
        !(method == Method::Post && path == "/foo"@),
    ensures
        lookup_model(defined_routes(), method, path) is None,
{
    reveal_with_fuel(lookup_model, 4);
    assert(defined_routes().skip(1) =~= seq![get_foo_route_model(), post_foo_route_model()]);
    assert(defined_routes().skip(1).skip(1) =~= seq![post_foo_route_model()]);
    assert(seq![post_foo_route_model()].skip(1) =~= Seq::<RouteModel>::empty());
}

/// Any (method, path) pair outside the table — unless the request is
/// a preflight answered by the CORS policy first — is served the fixed
/// 404 response with body `404`.
pub proof fn lemma_unmatched_is_404(
    p: CorsPolicyModel,
    method: Method,
    path: Seq<char>,
    origin: Option<Seq<char>>,
)
    requires
        !(method == Method::Get && path == "/"@),
        !(method == Method::Get && path == "/foo"@),
        !(method == Method::Post && path == "/foo"@),
        !(method == Method::Options && origin is Some && origin_allowed_model(p, origin->0)),
    ensures
        handle_model(defined_routes(), p, method, path, origin).status == 404,
        handle_model(defined_routes(), p, method, path, origin).body == "404"@,
{
    lemma_dispatch_miss(method, path);
}

/// A response carries a CORS allow-origin header echoing the request's
/// origin exactly when that origin is one of the allowed ones; for an
/// unrecognized origin no CORS headers are attached.
pub proof fn lemma_cors_reflects_origin(
    routes: Seq<RouteModel>,
    p: CorsPolicyModel,
    method: Method,
    path: Seq<char>,
    origin: Seq<char>,
)
    ensures
        origin_allowed_model(p, origin) ==> handle_model(
            routes,
            p,
            method,
            path,
            Some(origin),
        ).cors is Some,
        origin_allowed_model(p, origin) ==> handle_model(
            routes,
            p,
            method,
            path,
            Some(origin),
        ).cors->0.allow_origin == origin,
        !origin_allowed_model(p, origin) ==> handle_model(
            routes,
            p,
            method,
            path,
            Some(origin),
        ).cors is None,
{
}

/// A request with no Origin header never receives CORS headers.
pub proof fn lemma_no_origin_no_cors(
    routes: Seq<RouteModel>,
    p: CorsPolicyModel,
    method: Method,
    path: Seq<char>,
)
    ensures
        handle_model(routes, p, method, path, None).cors is None,
{
}

/// An OPTIONS request from an allowed origin is answered with the
/// successful preflight response, whose advertised methods include
/// every allowed one — and the answer is the same for every route
/// table and path, so the request never reaches route dispatch.
pub proof fn lemma_preflight_short_circuits(
    routes1: Seq<RouteModel>,
    routes2: Seq<RouteModel>,
    p: CorsPolicyModel,
    path1: Seq<char>,
    path2: Seq<char>,
    origin: Seq<char>,
    method: Method,
)
    requires
        origin_allowed_model(p, origin),
        allowed_methods_model().contains(method),
    ensures
        handle_model(routes1, p, Method::Options, path1, Some(origin)) == preflight_model(origin),
        handle_model(routes2, p, Method::Options, path2, Some(origin)) == preflight_model(origin),
        preflight_model(origin).status == 200,
        preflight_model(origin).cors is Some,
        preflight_model(origin).cors->0.allow_origin == origin,
        preflight_model(origin).cors->0.allow_methods.contains(method),
{
}

/// The two `/foo` routes produce distinct bodies: a response can never
/// carry the other method's text, since each response is a function of
/// its own request line alone.
pub proof fn lemma_foo_bodies_distinct(p: CorsPolicyModel, origin: Option<Seq<char>>)
    ensures
        handle_model(defined_routes(), p, Method::Get, "/foo"@, origin).body != handle_model(
            defined_routes(),
            p,
            Method::Post,
            "/foo"@,
            origin,
        ).body,
{
    lemma_defined_routes_served(p, origin);
    reveal_strlit("Hi from `GET /foo`");
    reveal_strlit("Hi from `POST /foo`");
    assert("Hi from `GET /foo`"@.len() != "Hi from `POST /foo`"@.len());
}

} // verus!
