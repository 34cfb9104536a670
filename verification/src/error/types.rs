//! Domain-specific error types for each part of the FTP server, with the
//! human-readable description of each.
use crate::net::{socket_text, socket_to_string, SocketAddress};
use crate::text::{decimal, decimal_chars};
use crate::text::{chars_of, extend_chars, string_from_chars};
use vstd::prelude::*;

verus! {

/// Authentication errors.
#[derive(Debug)]
pub enum AuthError {
    InvalidUsername(String),
    InvalidPassword(String),
    UserNotFound(String),
    MalformedInput(String),
}

/// The mathematical value of an [`AuthError`].
pub enum AuthErrorView {
    InvalidUsername(Seq<char>),
    InvalidPassword(Seq<char>),
    UserNotFound(Seq<char>),
    MalformedInput(Seq<char>),
}

impl View for AuthError {
    type V = AuthErrorView;

    open spec fn view(&self) -> AuthErrorView {
        match self {
            AuthError::InvalidUsername(s) => AuthErrorView::InvalidUsername(s@),
            AuthError::InvalidPassword(s) => AuthErrorView::InvalidPassword(s@),
            AuthError::UserNotFound(s) => AuthErrorView::UserNotFound(s@),
            AuthError::MalformedInput(s) => AuthErrorView::MalformedInput(s@),
        }
    }
}

/// The description of an authentication error.
pub open spec fn auth_error_text(e: AuthErrorView) -> Seq<char> {
    match e {
        AuthErrorView::InvalidUsername(u) => "Invalid username: "@ + u,
        AuthErrorView::InvalidPassword(u) => "Invalid password for user: "@ + u,
        AuthErrorView::UserNotFound(u) => "User not found: "@ + u,
        AuthErrorView::MalformedInput(s) => "Malformed input: "@ + s,
    }
}

/// `prefix` followed by `s`, as an owned string.
pub fn prefixed(prefix: &str, s: &str) -> (r: String)
    ensures
        r@ == prefix@ + s@,
{
    let mut v = chars_of(prefix);
    let t = chars_of(s);
    extend_chars(&mut v, &t);
    string_from_chars(&v)
}

impl AuthError {
    /// The description of this error.
    pub fn message(&self) -> (m: String)
        ensures
            m@ == auth_error_text(self@),
    {
        match self {
            AuthError::InvalidUsername(u) => prefixed("Invalid username: ", u.as_str()),
            AuthError::InvalidPassword(u) => prefixed("Invalid password for user: ", u.as_str()),
            AuthError::UserNotFound(u) => prefixed("User not found: ", u.as_str()),
            AuthError::MalformedInput(s) => prefixed("Malformed input: ", s.as_str()),
        }
    }
}

/// Storage errors.
#[derive(Debug)]
pub enum StorageError {
    FileNotFound(String),
    DirectoryNotFound(String),
    InvalidPath(String),
    FileAlreadyExists(String),
    NotADirectory(String),
    PermissionDenied(String),
    IoError(String),
    UploadInProgress(String),
}

/// The mathematical value of a [`StorageError`].
pub enum StorageErrorView {
    FileNotFound(Seq<char>),
    DirectoryNotFound(Seq<char>),
    InvalidPath(Seq<char>),
    FileAlreadyExists(Seq<char>),
    NotADirectory(Seq<char>),
    PermissionDenied(Seq<char>),
    IoError(Seq<char>),
    UploadInProgress(Seq<char>),
}

impl View for StorageError {
    type V = StorageErrorView;

    open spec fn view(&self) -> StorageErrorView {
        match self {
            StorageError::FileNotFound(s) => StorageErrorView::FileNotFound(s@),
            StorageError::DirectoryNotFound(s) => StorageErrorView::DirectoryNotFound(s@),
            StorageError::InvalidPath(s) => StorageErrorView::InvalidPath(s@),
            StorageError::FileAlreadyExists(s) => StorageErrorView::FileAlreadyExists(s@),
            StorageError::NotADirectory(s) => StorageErrorView::NotADirectory(s@),
            StorageError::PermissionDenied(s) => StorageErrorView::PermissionDenied(s@),
            StorageError::IoError(s) => StorageErrorView::IoError(s@),
            StorageError::UploadInProgress(s) => StorageErrorView::UploadInProgress(s@),
        }
    }
}

/// The description of a storage error.
pub open spec fn storage_error_text(e: StorageErrorView) -> Seq<char> {
    match e {
        StorageErrorView::FileNotFound(p) => "File not found: "@ + p,
        StorageErrorView::DirectoryNotFound(p) => "Directory not found: "@ + p,
        StorageErrorView::InvalidPath(p) => "Invalid path: "@ + p,
        StorageErrorView::FileAlreadyExists(p) => "File already exists: "@ + p,
        StorageErrorView::NotADirectory(p) => "Not a directory: "@ + p,
        StorageErrorView::PermissionDenied(p) => "Permission denied: "@ + p,
        StorageErrorView::IoError(e) => "IO error: "@ + e,
        StorageErrorView::UploadInProgress(p) => "Upload already in progress: "@ + p,
    }
}

impl StorageError {
    /// The description of this error.
    pub fn message(&self) -> (m: String)
        ensures
            m@ == storage_error_text(self@),
    {
        match self {
            StorageError::FileNotFound(p) => prefixed("File not found: ", p.as_str()),
            StorageError::DirectoryNotFound(p) => prefixed("Directory not found: ", p.as_str()),
            StorageError::InvalidPath(p) => prefixed("Invalid path: ", p.as_str()),
            StorageError::FileAlreadyExists(p) => prefixed("File already exists: ", p.as_str()),
            StorageError::NotADirectory(p) => prefixed("Not a directory: ", p.as_str()),
            StorageError::PermissionDenied(p) => prefixed("Permission denied: ", p.as_str()),
            StorageError::IoError(e) => prefixed("IO error: ", e.as_str()),
            StorageError::UploadInProgress(p) => prefixed(
                "Upload already in progress: ",
                p.as_str(),
            ),
        }
    }
}

/// Data transfer errors.
#[derive(Debug)]
pub enum TransferError {
    PortBindingFailed(SocketAddress, String),
    NoAvailablePort,
    ListenerConfigurationFailed(String),
    DataChannelSetupFailed(String),
    InvalidPortCommand(String),
    IpMismatch { expected: String, provided: String },
    InvalidPortRange(u16),
    TransferFailed(String),
}

/// The mathematical value of a [`TransferError`].
pub enum TransferErrorView {
    PortBindingFailed(SocketAddress, Seq<char>),
    NoAvailablePort,
    ListenerConfigurationFailed(Seq<char>),
    DataChannelSetupFailed(Seq<char>),
    InvalidPortCommand(Seq<char>),
    IpMismatch { expected: Seq<char>, provided: Seq<char> },
    InvalidPortRange(u16),
    TransferFailed(Seq<char>),
}

impl View for TransferError {
    type V = TransferErrorView;

    open spec fn view(&self) -> TransferErrorView {
        match self {
            TransferError::PortBindingFailed(a, e) => TransferErrorView::PortBindingFailed(*a, e@),
            TransferError::NoAvailablePort => TransferErrorView::NoAvailablePort,
            TransferError::ListenerConfigurationFailed(e) => TransferErrorView::ListenerConfigurationFailed(e@),
            TransferError::DataChannelSetupFailed(m) => TransferErrorView::DataChannelSetupFailed(m@),
            TransferError::InvalidPortCommand(m) => TransferErrorView::InvalidPortCommand(m@),
            TransferError::IpMismatch { expected, provided } => TransferErrorView::IpMismatch {
                expected: expected@,
                provided: provided@,
            },
            TransferError::InvalidPortRange(p) => TransferErrorView::InvalidPortRange(*p),
            TransferError::TransferFailed(e) => TransferErrorView::TransferFailed(e@),
        }
    }
}

/// The description of a transfer error.
pub open spec fn transfer_error_text(e: TransferErrorView) -> Seq<char> {
    match e {
        TransferErrorView::PortBindingFailed(a, e) => "Failed to bind to "@ + socket_text(a) + ": "@
            + e,
        TransferErrorView::NoAvailablePort => "No available port for data connection"@,
        TransferErrorView::ListenerConfigurationFailed(e) => "Failed to configure listener: "@ + e,
        TransferErrorView::DataChannelSetupFailed(m) => "Data channel setup failed: "@ + m,
        TransferErrorView::InvalidPortCommand(m) => "Invalid PORT command: "@ + m,
        TransferErrorView::IpMismatch { expected, provided } => "IP mismatch: expected "@
            + expected + ", got "@ + provided,
        TransferErrorView::InvalidPortRange(p) => "Invalid port "@ + decimal(p as nat)
            + ": must be between 1024 and 65535"@,
        TransferErrorView::TransferFailed(e) => "Transfer failed: "@ + e,
    }
}

impl TransferError {
    /// The description of this error.
    pub fn message(&self) -> (m: String)
        ensures
            m@ == transfer_error_text(self@),
    {
        match self {
            TransferError::PortBindingFailed(a, e) => {
                let t = socket_to_string(*a);
                let mut v = chars_of("Failed to bind to ");
                extend_chars(&mut v, &chars_of(t.as_str()));
                extend_chars(&mut v, &chars_of(": "));
                extend_chars(&mut v, &chars_of(e.as_str()));
                string_from_chars(&v)
            },
            TransferError::NoAvailablePort => string_from_chars(
                &chars_of("No available port for data connection"),
            ),
            TransferError::ListenerConfigurationFailed(e) => prefixed(
                "Failed to configure listener: ",
                e.as_str(),
            ),
            TransferError::DataChannelSetupFailed(m) => prefixed(
                "Data channel setup failed: ",
                m.as_str(),
            ),
            TransferError::InvalidPortCommand(m) => prefixed("Invalid PORT command: ", m.as_str()),
            TransferError::IpMismatch { expected, provided } => {
                let mut v = chars_of("IP mismatch: expected ");
                extend_chars(&mut v, &chars_of(expected.as_str()));
                extend_chars(&mut v, &chars_of(", got "));
                extend_chars(&mut v, &chars_of(provided.as_str()));
                string_from_chars(&v)
            },
            TransferError::InvalidPortRange(p) => {
                let mut v = chars_of("Invalid port ");
                extend_chars(&mut v, &decimal_chars(*p as u64));
                extend_chars(&mut v, &chars_of(": must be between 1024 and 65535"));
                string_from_chars(&v)
            },
            TransferError::TransferFailed(e) => prefixed("Transfer failed: ", e.as_str()),
        }
    }
}

/// Directory navigation errors.
#[derive(Debug)]
pub enum NavigateError {
    InvalidPath(String),
    DirectoryNotFound(String),
    NotADirectory(String),
    PermissionDenied(String),
    PathTraversal(String),
}

/// The mathematical value of a [`NavigateError`].
pub enum NavigateErrorView {
    InvalidPath(Seq<char>),
    DirectoryNotFound(Seq<char>),
    NotADirectory(Seq<char>),
    PermissionDenied(Seq<char>),
    PathTraversal(Seq<char>),
}

impl View for NavigateError {
    type V = NavigateErrorView;

    open spec fn view(&self) -> NavigateErrorView {
        match self {
            NavigateError::InvalidPath(p) => NavigateErrorView::InvalidPath(p@),
            NavigateError::DirectoryNotFound(p) => NavigateErrorView::DirectoryNotFound(p@),
            NavigateError::NotADirectory(p) => NavigateErrorView::NotADirectory(p@),
            NavigateError::PermissionDenied(p) => NavigateErrorView::PermissionDenied(p@),
            NavigateError::PathTraversal(p) => NavigateErrorView::PathTraversal(p@),
        }
    }
}

/// The description of a navigation error.
pub open spec fn navigate_error_text(e: NavigateErrorView) -> Seq<char> {
    match e {
        NavigateErrorView::InvalidPath(p) => "Invalid path: "@ + p,
        NavigateErrorView::DirectoryNotFound(p) => "Directory not found: "@ + p,
        NavigateErrorView::NotADirectory(p) => "Not a directory: "@ + p,
        NavigateErrorView::PermissionDenied(p) => "Permission denied: "@ + p,
        NavigateErrorView::PathTraversal(p) => "Path traversal attempt: "@ + p,
    }
}

impl NavigateError {
    /// The description of this error.
    pub fn message(&self) -> (m: String)
        ensures
            m@ == navigate_error_text(self@),
    {
        match self {
            NavigateError::InvalidPath(p) => prefixed("Invalid path: ", p.as_str()),
            NavigateError::DirectoryNotFound(p) => prefixed("Directory not found: ", p.as_str()),
            NavigateError::NotADirectory(p) => prefixed("Not a directory: ", p.as_str()),
            NavigateError::PermissionDenied(p) => prefixed("Permission denied: ", p.as_str()),
            NavigateError::PathTraversal(p) => prefixed("Path traversal attempt: ", p.as_str()),
        }
    }
}

/// Client session errors.
#[derive(Debug)]
pub enum ClientError {
    ClientNotFound(SocketAddress),
    InvalidState(String),
}

/// The mathematical value of a [`ClientError`].
pub enum ClientErrorView {
    ClientNotFound(SocketAddress),
    InvalidState(Seq<char>),
}

impl View for ClientError {
    type V = ClientErrorView;

    open spec fn view(&self) -> ClientErrorView {
        match self {
            ClientError::ClientNotFound(a) => ClientErrorView::ClientNotFound(*a),
            ClientError::InvalidState(s) => ClientErrorView::InvalidState(s@),
        }
    }
}

/// Errors of the server as a whole, by area.
#[derive(Debug)]
pub enum FtpServerError {
    IoError(String),
    NetworkError(String),
    AuthenticationError(String),
    ProtocolError(String),
    FileSystemError(String),
}

/// The mathematical value of an [`FtpServerError`]: its area and message.
pub enum FtpServerErrorView {
    IoError(Seq<char>),
    NetworkError(Seq<char>),
    AuthenticationError(Seq<char>),
    ProtocolError(Seq<char>),
    FileSystemError(Seq<char>),
}

impl View for FtpServerError {
    type V = FtpServerErrorView;

    open spec fn view(&self) -> FtpServerErrorView {
        match self {
            FtpServerError::IoError(m) => FtpServerErrorView::IoError(m@),
            FtpServerError::NetworkError(m) => FtpServerErrorView::NetworkError(m@),
            FtpServerError::AuthenticationError(m) => FtpServerErrorView::AuthenticationError(m@),
            FtpServerError::ProtocolError(m) => FtpServerErrorView::ProtocolError(m@),
            FtpServerError::FileSystemError(m) => FtpServerErrorView::FileSystemError(m@),
        }
    }
}

/// The description of a server error.
pub open spec fn server_error_text(e: FtpServerErrorView) -> Seq<char> {
    match e {
        FtpServerErrorView::IoError(m) => "I/O error: "@ + m,
        FtpServerErrorView::NetworkError(m) => "Network error: "@ + m,
        FtpServerErrorView::AuthenticationError(m) => "Authentication error: "@ + m,
        FtpServerErrorView::ProtocolError(m) => "Protocol error: "@ + m,
        FtpServerErrorView::FileSystemError(m) => "File system error: "@ + m,
    }
}

impl FtpServerError {
    /// The description of this error.
    pub fn message(&self) -> (m: String)
        ensures
            m@ == server_error_text(self@),
    {
        match self {
            FtpServerError::IoError(m) => prefixed("I/O error: ", m.as_str()),
            FtpServerError::NetworkError(m) => prefixed("Network error: ", m.as_str()),
            FtpServerError::AuthenticationError(m) => prefixed("Authentication error: ", m.as_str()),
            FtpServerError::ProtocolError(m) => prefixed("Protocol error: ", m.as_str()),
            FtpServerError::FileSystemError(m) => prefixed("File system error: ", m.as_str()),
        }
    }
}

} // verus!
