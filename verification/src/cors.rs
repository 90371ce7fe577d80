//! The CORS policy: two configured allowed origins, the allowed method
//! set {GET, POST, OPTIONS}, and credentials allowed. The policy
//! decides, from a request's Origin header, which CORS headers a
//! response carries, and whether an OPTIONS request is answered as a
//! preflight before route dispatch.

use vstd::prelude::*;

use crate::http::{str_eq, CorsHeaders, CorsHeadersModel, Method};

verus! {

/// The CORS policy: the two origins the configuration allows.
/// Credentials are always allowed, and the allowed methods are always
/// GET, POST and OPTIONS; neither is configurable in this system.
#[derive(Debug)]
pub struct CorsPolicy {
    pub backend_origin: String,
    pub frontend_origin: String,
}

/// Mathematical model of `CorsPolicy`.
#[verifier::ext_equal]
pub struct CorsPolicyModel {
    pub backend_origin: Seq<char>,
    pub frontend_origin: Seq<char>,
}

impl View for CorsPolicy {
    type V = CorsPolicyModel;

    open spec fn view(&self) -> CorsPolicyModel {
        CorsPolicyModel {
            backend_origin: self.backend_origin@,
            frontend_origin: self.frontend_origin@,
        }
    }
}

/// An origin is allowed exactly when it equals one of the two
/// configured origins.
pub open spec fn origin_allowed_model(p: CorsPolicyModel, origin: Seq<char>) -> bool {
    origin == p.backend_origin || origin == p.frontend_origin
}

/// The methods this policy allows, in the order they are advertised.
pub open spec fn allowed_methods_model() -> Seq<Method> {
    seq![Method::Get, Method::Post, Method::Options]
}

/// The CORS headers attached to a response for an allowed origin: the
/// origin echoed back, credentials allowed, and the allowed methods.
pub open spec fn cors_headers_model(origin: Seq<char>) -> CorsHeadersModel {
    CorsHeadersModel {
        allow_origin: origin,
        allow_credentials: true,
        allow_methods: allowed_methods_model(),
    }
}

impl CorsPolicy {
    /// A policy allowing exactly the two given origins.
    pub fn new(backend_origin: String, frontend_origin: String) -> (p: CorsPolicy)
        ensures
            p@.backend_origin == backend_origin@,
            p@.frontend_origin == frontend_origin@,
    {
        CorsPolicy { backend_origin, frontend_origin }
    }

    /// Whether the given request origin is one of the allowed origins.
    pub fn origin_allowed(&self, origin: &str) -> (r: bool)
        ensures
            r == origin_allowed_model(self@, origin@),
    {
        str_eq(origin, self.backend_origin.as_str()) || str_eq(
            origin,
            self.frontend_origin.as_str(),
        )
    }

    /// Whether the policy allows the given method.
    pub fn allows_method(&self, method: Method) -> (r: bool)
        ensures
            r == allowed_methods_model().contains(method),
    {
        let r = match method {
            Method::Get => true,
            Method::Post => true,
            Method::Options => true,
            _ => false,
        };
        proof {
            if r {
                assert(allowed_methods_model().contains(method));
            } else {
                assert(forall|i: int|
                    0 <= i < allowed_methods_model().len() ==> allowed_methods_model()[i]
                        != method);
            }
        }
        r
    }

    /// The headers for a response to a request from an allowed origin.
    pub fn headers_for(&self, origin: &str) -> (h: CorsHeaders)
        ensures
            h@ == cors_headers_model(origin@),
    {
        let mut methods: Vec<Method> = Vec::new();
        methods.push(Method::Get);
        methods.push(Method::Post);
        methods.push(Method::Options);
        let h = CorsHeaders {
            allow_origin: origin.to_owned(),
            allow_credentials: true,
            allow_methods: methods,
        };
        proof {
            assert(h@.allow_methods =~= allowed_methods_model());
            assert(h@ =~= cors_headers_model(origin@));
        }
        h
    }
}

} // verus!
