//! The lite server: a simpler variant of the FTP server whose file commands
//! act on the process's working directory, serving each client on its own
//! thread over blocking sockets.
pub mod auth;
pub mod channel_registry;
pub mod client;
pub mod client_handler;
pub mod command;
pub mod commands;
pub mod data_channel;
pub mod file_transfer;
pub mod handlers;
pub mod minimal;
pub mod server;
