//! The rules behind the HTTP endpoints.

pub mod drives;
pub mod export;
pub mod health;
pub mod paths;
pub mod paths_helpers;
pub mod scans;
pub mod search;
