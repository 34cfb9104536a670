//! The server: its settings and the decisions of its connection handling.
pub mod config;
pub mod connection;

pub use config::ServerConfig;
