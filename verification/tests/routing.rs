use hello_server::http::Method;
use hello_server::routes::{build_routes, get_foo, handler_404, post_foo, root, RegisterError, RouteTable};

#[test]
fn root_route_is_fixed() {
    let r = root();
    assert!(matches!(r.method, Method::Get));
    assert_eq!(r.path, "/");
    assert_eq!(r.status, 200);
    assert_eq!(r.body, "Hello, World!");
}

#[test]
fn get_foo_route_is_fixed() {
    let r = get_foo();
    assert!(matches!(r.method, Method::Get));
    assert_eq!(r.path, "/foo");
    assert_eq!(r.status, 200);
    assert_eq!(r.body, "Hi from `GET /foo`");
}

#[test]
fn post_foo_route_is_fixed() {
    let r = post_foo();
    assert!(matches!(r.method, Method::Post));
    assert_eq!(r.path, "/foo");
    assert_eq!(r.status, 200);
    assert_eq!(r.body, "Hi from `POST /foo`");
}

#[test]
fn handler_404_is_fixed() {
    let r = handler_404();
    assert_eq!(r.status, 404);
    assert_eq!(r.body, "404");
    assert!(r.cors.is_none());
}

#[test]
fn dispatch_finds_each_defined_route() {
    let t = build_routes();
    let r = t.dispatch(Method::Get, "/").unwrap();
    assert_eq!(r.status, 200);
    assert_eq!(r.body, "Hello, World!");
    let r = t.dispatch(Method::Get, "/foo").unwrap();
    assert_eq!(r.status, 200);
    assert_eq!(r.body, "Hi from `GET /foo`");
    let r = t.dispatch(Method::Post, "/foo").unwrap();
    assert_eq!(r.status, 200);
    assert_eq!(r.body, "Hi from `POST /foo`");
}

#[test]
fn dispatch_misses_unknown_pairs() {
    let t = build_routes();
    assert!(t.dispatch(Method::Delete, "/").is_none());
    assert!(t.dispatch(Method::Get, "/bar").is_none());
    assert!(t.dispatch(Method::Post, "/").is_none());
    assert!(t.dispatch(Method::Get, "").is_none());
    assert!(t.dispatch(Method::Options, "/foo").is_none());
}

#[test]
fn dispatch_requires_exact_path_match() {
    let t = build_routes();
    assert!(t.dispatch(Method::Get, "/foo/").is_none());
    assert!(t.dispatch(Method::Get, "/fo").is_none());
    assert!(t.dispatch(Method::Get, "/FOO").is_none());
}

#[test]
fn frozen_table_refuses_registration() {
    let mut t = build_routes();
    let r = t.register(root());
    assert!(matches!(r, Err(RegisterError::Frozen)));
    // The table is unchanged: dispatch still works.
    assert!(t.dispatch(Method::Get, "/").is_some());
}

#[test]
fn unfrozen_table_accepts_registration() {
    let mut t = RouteTable::new();
    assert!(t.dispatch(Method::Get, "/").is_none());
    assert!(t.register(root()).is_ok());
    let r = t.dispatch(Method::Get, "/").unwrap();
    assert_eq!(r.body, "Hello, World!");
}

#[test]
fn duplicate_registration_first_wins() {
    let mut t = RouteTable::new();
    assert!(t.register(root()).is_ok());
    let mut second = root();
    second.body = "a different greeting".to_string();
    assert!(t.register(second).is_ok());
    t.freeze();
    let r = t.dispatch(Method::Get, "/").unwrap();
    assert_eq!(r.body, "Hello, World!");
}
