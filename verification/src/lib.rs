pub mod clock;
pub mod config;
pub mod desktop;
pub mod error;
pub mod explorer;
pub mod metrics;
pub mod middleware;
pub mod paths;
pub mod routes;
pub mod scanner;
pub mod server;
pub mod sort;
pub mod text;
pub mod types;
pub mod webui;
