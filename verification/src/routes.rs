//! The route table: named routes with fixed textual responses, exact
//! (method, path) dispatch, and the catch-all 404 fallback.
//!
//! Duplicate registration policy: the table accepts a second route for
//! an already registered (method, path) pair, and dispatch returns the
//! first-registered one. This is stated explicitly by `lookup_model`,
//! which scans the table front to back.

use vstd::prelude::*;

use crate::http::{str_eq, Method, Response};

verus! {

/// One route: a (method, path) pair bound to the fixed response its
/// handler produces.
#[derive(Debug)]
pub struct Route {
    pub method: Method,
    pub path: String,
    pub status: u16,
    pub body: String,
}

/// Mathematical model of `Route`.
#[verifier::ext_equal]
pub struct RouteModel {
    pub method: Method,
    pub path: Seq<char>,
    pub status: u16,
    pub body: Seq<char>,
}

impl View for Route {
    type V = RouteModel;

    open spec fn view(&self) -> RouteModel {
        RouteModel {
            method: self.method,
            path: self.path@,
            status: self.status,
            body: self.body@,
        }
    }
}

/// Exact-match lookup: the first route whose (method, path) pair equals
/// the request's, scanning in registration order, or `None`.
pub open spec fn lookup_model(routes: Seq<RouteModel>, method: Method, path: Seq<char>) -> Option<
    RouteModel,
>
    decreases routes.len(),
{
    if routes.len() == 0 {
        None
    } else if routes[0].method == method && routes[0].path == path {
        Some(routes[0])
    } else {
        lookup_model(routes.skip(1), method, path)
    }
}

/// No two routes share a (method, path) pair.
pub open spec fn unique_pairs(routes: Seq<RouteModel>) -> bool {
    forall|i: int, j: int|
        0 <= i < j < routes.len() ==> !(routes[i].method == routes[j].method
            && routes[i].path == routes[j].path)
}

/// Registration was refused; the only cause is a frozen table.
#[derive(PartialEq, Eq, Structural, Clone, Copy, Debug)]
pub enum RegisterError {
    Frozen,
}

/// The table of routes. It is mutable while the server is being wired
/// up and frozen before serving begins; a frozen table refuses further
/// registration and is never mutated again.
#[derive(Debug)]
pub struct RouteTable {
    routes: Vec<Route>,
    frozen: bool,
}

impl View for RouteTable {
    type V = Seq<RouteModel>;

    closed spec fn view(&self) -> Seq<RouteModel> {
        self.routes@.map(|i: int, r: Route| r@)
    }
}

impl RouteTable {
    /// Whether the table has been frozen.
    pub closed spec fn spec_frozen(&self) -> bool {
        self.frozen
    }

    /// An empty, unfrozen table.
    pub fn new() -> (t: RouteTable)
        ensures
            t@ =~= Seq::<RouteModel>::empty(),
            !t.spec_frozen(),
    {
        RouteTable { routes: Vec::new(), frozen: false }
    }

    /// Appends a route. Fails exactly when the table is frozen, and
    /// then leaves the table unchanged.
    pub fn register(&mut self, route: Route) -> (r: Result<(), RegisterError>)
        ensures
            old(self).spec_frozen() ==> r == Err::<(), RegisterError>(RegisterError::Frozen)
                && *final(self) == *old(self),
            !old(self).spec_frozen() ==> r == Ok::<(), RegisterError>(()) && final(self)@ == old(
                self,
            )@.push(route@) && !final(self).spec_frozen(),
    {
        if self.frozen {
            Err(RegisterError::Frozen)
        } else {
            let ghost prior = self@;
            self.routes.push(route);
            proof {
                assert(self@ =~= prior.push(route@));
            }
            Ok(())
        }
    }

    /// Freezes the table: the routes are kept, and no further
    /// registration succeeds.
    pub fn freeze(&mut self)
        ensures
            final(self)@ == old(self)@,
            final(self).spec_frozen(),
    {
        self.frozen = true;
    }

    /// Exact-match dispatch. Returns the first-registered route's fixed
    /// response for the (method, path) pair, or `None`; the caller maps
    /// `None` to the 404 fallback.
    pub fn dispatch(&self, method: Method, path: &str) -> (r: Option<Response>)
        ensures
            match lookup_model(self@, method, path@) {
                Some(rm) => r is Some && r->0@.status == rm.status && r->0@.body == rm.body
                    && r->0@.cors is None,
                None => r is None,
            },
    {
        let mut i: usize = 0;
        proof {
            assert(self@.skip(0) =~= self@);
        }
        while i < self.routes.len()
            invariant
                i <= self.routes.len(),
                lookup_model(self@, method, path@) == lookup_model(
                    self@.skip(i as int),
                    method,
                    path@,
                ),
            decreases self.routes.len() - i,
        {
            let route = &self.routes[i];
            if route.method == method && str_eq(route.path.as_str(), path) {
                proof {
                    assert(self@.skip(i as int)[0] == self@[i as int]);
                }
                return Some(
                    Response { status: route.status, body: route.body.clone(), cors: None },
                );
            }
            proof {
                assert(self@.skip(i as int)[0] == self@[i as int]);
                assert(self@.skip(i as int).skip(1) =~= self@.skip(i as int + 1));
            }
            i += 1;
        }
        proof {
            assert(self@.skip(i as int) =~= Seq::<RouteModel>::empty());
        }
        None
    }
}

/// Model of the route registered by `root`.
pub open spec fn root_route_model() -> RouteModel {
    RouteModel { method: Method::Get, path: "/"@, status: 200, body: "Hello, World!"@ }
}

/// Model of the route registered by `get_foo`.
pub open spec fn get_foo_route_model() -> RouteModel {
    RouteModel { method: Method::Get, path: "/foo"@, status: 200, body: "Hi from `GET /foo`"@ }
}

/// Model of the route registered by `post_foo`.
pub open spec fn post_foo_route_model() -> RouteModel {
    RouteModel { method: Method::Post, path: "/foo"@, status: 200, body: "Hi from `POST /foo`"@ }
}

/// The three routes this system defines, in registration order.
pub open spec fn defined_routes() -> Seq<RouteModel> {
    seq![root_route_model(), get_foo_route_model(), post_foo_route_model()]
}

/// The route serving `GET /` with the fixed greeting.
pub fn root() -> (r: Route)
    ensures
        r@ == root_route_model(),
{
    let r = Route {
        method: Method::Get,
        path: "/".to_owned(),
        status: 200,
        body: "Hello, World!".to_owned(),
    };
    proof {
        assert(r@ =~= root_route_model());
    }
    r
}

/// The route serving `GET /foo` with its fixed text.
pub fn get_foo() -> (r: Route)
    ensures
        r@ == get_foo_route_model(),
{
    let r = Route {
        method: Method::Get,
        path: "/foo".to_owned(),
        status: 200,
        body: "Hi from `GET /foo`".to_owned(),
    };
    proof {
        assert(r@ =~= get_foo_route_model());
    }
    r
}

/// The route serving `POST /foo` with its fixed text.
pub fn post_foo() -> (r: Route)
    ensures
        r@ == post_foo_route_model(),
{
    let r = Route {
        method: Method::Post,
        path: "/foo".to_owned(),
        status: 200,
        body: "Hi from `POST /foo`".to_owned(),
    };
    proof {
        assert(r@ =~= post_foo_route_model());
    }
    r
}

/// The catch-all fallback: a fixed 404 response for any unmatched
/// (method, path) pair.
pub fn handler_404() -> (r: Response)
    ensures
        r@.status == 404,
        r@.body == "404"@,
        r@.cors is None,
{
    Response { status: 404, body: "404".to_owned(), cors: None }
}

/// Builds the frozen table holding exactly the three defined routes.
pub fn build_routes() -> (t: RouteTable)
    ensures
        t@ == defined_routes(),
        t.spec_frozen(),
{
    let mut t = RouteTable::new();
    let _ = t.register(root());
    let _ = t.register(get_foo());
    let _ = t.register(post_foo());
    t.freeze();
    proof {
        assert(t@ =~= defined_routes());
    }
    t
}

/// The three defined routes have pairwise distinct (method, path)
/// pairs, as the data model requires of a route table.
pub proof fn lemma_defined_routes_unique()
    ensures
        unique_pairs(defined_routes()),
{
    reveal_strlit("/");
    reveal_strlit("/foo");
    assert("/"@.len() != "/foo"@.len());
}

} // verus!
