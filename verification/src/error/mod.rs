//! Error types of each part of the server and their mapping to FTP codes.
pub mod handlers;
pub mod types;

pub use types::{AuthError, ClientError, FtpServerError, NavigateError, StorageError, TransferError};
