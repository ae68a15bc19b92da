//! Request-level checks and limits applied before the route handlers run.

pub mod auth;
pub mod csrf;
pub mod ip;
pub mod rate_limit;
pub mod security_headers;
pub mod validation;
