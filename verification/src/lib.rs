//! A minimal HTTP server skeleton: a frozen table of fixed-text routes,
//! a CORS policy over two configured origins, and structured request
//! tracing. The routing, middleware decisions and configuration checks
//! live here as pure functions; the network runtime around them does not.

pub mod config;
pub mod cors;
pub mod http;
pub mod laws;
pub mod middleware;
pub mod routes;
pub mod trace;
