//! Request-dispatch core of an HTTP server framework: routes bind a method and
//! a path pattern to a handler; routers resolve one parsed request to a handler
//! or a not-found outcome, composing hierarchically under mount prefixes; a
//! middleware chain runs stages in order through an explicit continuation.

pub mod chain;
pub mod http;
pub mod pattern;
pub mod router;
pub mod strutil;
