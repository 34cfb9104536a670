//! Translation of the results and errors of the domain modules into FTP
//! replies.
use crate::auth::results::{PasswordValidationResult, UserValidationResult};
use crate::error::types::{
    AuthError, AuthErrorView, ClientError, ClientErrorView, NavigateError, NavigateErrorView,
    StorageError, StorageErrorView, TransferError, TransferErrorView,
};
use crate::navigate::results::{CwdResult, PwdResult};
use crate::net::{host_port_text, host_port_to_string, socket_text, socket_to_string};
use crate::protocol::commands::{
    coded, coded_failure, success, success_reply, CommandResult, CommandStatus,
};
use crate::storage::results::{DeleteResult, ListResult, RetrieveResult, StoreResult};
use crate::text::{chars_of, decimal, decimal_chars, extend_chars, string_from_chars};
use crate::transfer::results::{ActiveModeResult, PassiveModeResult};
use vstd::prelude::*;

verus! {

fn joined(a: &str, b: &str) -> (v: Vec<char>)
    ensures
        v@ == a@ + b@,
{
    let mut v = chars_of(a);
    extend_chars(&mut v, &chars_of(b));
    v
}

/// The reason an authentication error is reported with (code 530).
pub open spec fn auth_error_reason(e: AuthErrorView) -> Seq<char> {
    match e {
        AuthErrorView::InvalidUsername(u) => "Invalid username: "@ + u,
        AuthErrorView::InvalidPassword(u) => "Invalid password for user: "@ + u,
        AuthErrorView::UserNotFound(u) => "Unknown user '"@ + u + "'"@,
        AuthErrorView::MalformedInput(_) => "Malformed input"@,
    }
}

/// Translates an authentication error into a reply.
pub fn auth_error_to_ftp_response(error: AuthError) -> (r: CommandResult)
    ensures
        r@ == coded_failure("530"@, auth_error_reason(error@)),
{
    let reason = match &error {
        AuthError::InvalidUsername(u) => joined("Invalid username: ", u.as_str()),
        AuthError::InvalidPassword(u) => joined("Invalid password for user: ", u.as_str()),
        AuthError::UserNotFound(u) => {
            let mut v = joined("Unknown user '", u.as_str());
            v.push('\'');
            assert(v@ =~= "Unknown user '"@ + u@ + "'"@) by {
                reveal_strlit("'");
            }
            v
        },
        AuthError::MalformedInput(_) => chars_of("Malformed input"),
    };
    coded("530", &reason)
}

/// Translates an accepted user name into a reply.
pub fn user_result_to_ftp_response(result: UserValidationResult) -> (r: CommandResult)
    ensures
        r@ == success_reply("331 Password required\r\n"@),
{
    success("331 Password required\r\n")
}

/// Translates an accepted password into a reply.
pub fn password_result_to_ftp_response(result: PasswordValidationResult) -> (r: CommandResult)
    ensures
        r@ == success_reply("230 Login successful\r\n"@),
{
    success("230 Login successful\r\n")
}

/// The reason a storage error is reported with (code 550).
pub open spec fn storage_error_reason(e: StorageErrorView) -> Seq<char> {
    match e {
        StorageErrorView::FileNotFound(p) => p + ": File not found"@,
        StorageErrorView::DirectoryNotFound(p) => p + ": Directory not found"@,
        StorageErrorView::PermissionDenied(p) => p + ": Permission denied"@,
        StorageErrorView::InvalidPath(p) => "Invalid path: "@ + p,
        StorageErrorView::FileAlreadyExists(p) => p + ": File already exists"@,
        StorageErrorView::NotADirectory(p) => p + ": Not a directory"@,
        StorageErrorView::IoError(e) => "I/O error: "@ + e,
        StorageErrorView::UploadInProgress(p) => p + ": Upload already in progress"@,
    }
}

/// Translates a storage error into a reply.
pub fn storage_error_to_ftp_response(error: StorageError) -> (r: CommandResult)
    ensures
        r@ == coded_failure("550"@, storage_error_reason(error@)),
{
    let reason = match &error {
        StorageError::FileNotFound(p) => joined(p.as_str(), ": File not found"),
        StorageError::DirectoryNotFound(p) => joined(p.as_str(), ": Directory not found"),
        StorageError::PermissionDenied(p) => joined(p.as_str(), ": Permission denied"),
        StorageError::InvalidPath(p) => joined("Invalid path: ", p.as_str()),
        StorageError::FileAlreadyExists(p) => joined(p.as_str(), ": File already exists"),
        StorageError::NotADirectory(p) => joined(p.as_str(), ": Not a directory"),
        StorageError::IoError(e) => joined("I/O error: ", e.as_str()),
        StorageError::UploadInProgress(p) => joined(p.as_str(), ": Upload already in progress"),
    };
    coded("550", &reason)
}

/// Translates a directory listing into its first reply; the listing itself
/// goes over the data connection.
pub fn list_result_to_ftp_response(result: ListResult) -> (r: CommandResult)
    ensures
        r@ == success_reply("150 Here comes the directory listing\r\n"@),
{
    success("150 Here comes the directory listing\r\n")
}

/// Translates a prepared retrieval into its first reply.
pub fn retrieve_result_to_ftp_response(result: RetrieveResult) -> (r: CommandResult)
    ensures
        r@ == success_reply("150 Opening data connection for file transfer\r\n"@),
{
    success("150 Opening data connection for file transfer\r\n")
}

/// Translates a prepared upload into its first reply.
pub fn store_result_to_ftp_response(result: StoreResult) -> (r: CommandResult)
    ensures
        r@ == success_reply("150 Ok to send data\r\n"@),
{
    success("150 Ok to send data\r\n")
}

/// Translates a deletion into a reply.
pub fn delete_result_to_ftp_response(result: DeleteResult) -> (r: CommandResult)
    ensures
        r@ == success_reply("250 File deleted successfully\r\n"@),
{
    success("250 File deleted successfully\r\n")
}

/// The code and reason a transfer error is reported with.
pub open spec fn transfer_error_code_reason(e: TransferErrorView) -> (Seq<char>, Seq<char>) {
    match e {
        TransferErrorView::PortBindingFailed(a, x) => (
            "425"@,
            "Can't bind to "@ + socket_text(a) + ": "@ + x,
        ),
        TransferErrorView::NoAvailablePort => ("425"@, "No available port"@),
        TransferErrorView::ListenerConfigurationFailed(x) => ("425"@, "Listener config failed: "@ + x),
        TransferErrorView::DataChannelSetupFailed(m) => ("425"@, m),
        TransferErrorView::InvalidPortCommand(m) => ("501"@, m),
        TransferErrorView::IpMismatch { expected, provided } => (
            "501"@,
            "IP mismatch: expected "@ + expected + ", got "@ + provided,
        ),
        TransferErrorView::InvalidPortRange(p) => (
            "501"@,
            "Port "@ + decimal(p as nat) + " out of range (must be 1024-65535)"@,
        ),
        TransferErrorView::TransferFailed(x) => ("426"@, "Transfer failed: "@ + x),
    }
}

/// Translates a transfer error into a reply.
pub fn transfer_error_to_ftp_response(error: TransferError) -> (r: CommandResult)
    ensures
        r@ == coded_failure(transfer_error_code_reason(error@).0, transfer_error_code_reason(error@).1),
{
    match &error {
        TransferError::PortBindingFailed(a, x) => {
            let mut v = chars_of("Can't bind to ");
            extend_chars(&mut v, &chars_of(socket_to_string(*a).as_str()));
            extend_chars(&mut v, &chars_of(": "));
            extend_chars(&mut v, &chars_of(x.as_str()));
            coded("425", &v)
        },
        TransferError::NoAvailablePort => coded("425", &chars_of("No available port")),
        TransferError::ListenerConfigurationFailed(x) => coded(
            "425",
            &joined("Listener config failed: ", x.as_str()),
        ),
        TransferError::DataChannelSetupFailed(m) => coded("425", &chars_of(m.as_str())),
        TransferError::InvalidPortCommand(m) => coded("501", &chars_of(m.as_str())),
        TransferError::IpMismatch { expected, provided } => {
            let mut v = joined("IP mismatch: expected ", expected.as_str());
            extend_chars(&mut v, &chars_of(", got "));
            extend_chars(&mut v, &chars_of(provided.as_str()));
            coded("501", &v)
        },
        TransferError::InvalidPortRange(p) => {
            let mut v = chars_of("Port ");
            extend_chars(&mut v, &decimal_chars(*p as u64));
            extend_chars(&mut v, &chars_of(" out of range (must be 1024-65535)"));
            coded("501", &v)
        },
        TransferError::TransferFailed(x) => coded("426", &joined("Transfer failed: ", x.as_str())),
    }
}

/// Translates a passive-mode set-up into a reply.
pub fn passive_result_to_ftp_response(result: PassiveModeResult) -> (r: CommandResult)
    ensures
        r@ == success_reply(
            "227 Entering Passive Mode ("@ + host_port_text(result.data_socket) + ")\r\n"@,
        ),
{
    let mut m = chars_of("227 Entering Passive Mode (");
    extend_chars(&mut m, &chars_of(host_port_to_string(result.data_socket).as_str()));
    extend_chars(&mut m, &chars_of(")\r\n"));
    CommandResult { status: CommandStatus::Success, message: Some(string_from_chars(&m)) }
}

/// Translates an active-mode set-up into a reply.
pub fn active_result_to_ftp_response(result: ActiveModeResult) -> (r: CommandResult)
    ensures
        r@ == success_reply("200 PORT command successful\r\n"@),
{
    success("200 PORT command successful\r\n")
}

/// The reason a navigation error is reported with (code 550).
pub open spec fn navigate_error_reason(e: NavigateErrorView) -> Seq<char> {
    match e {
        NavigateErrorView::InvalidPath(p) => "Invalid path: "@ + p,
        NavigateErrorView::DirectoryNotFound(p) => p + ": Directory not found"@,
        NavigateErrorView::NotADirectory(p) => p + ": Not a directory"@,
        NavigateErrorView::PermissionDenied(p) => p + ": Permission denied"@,
        NavigateErrorView::PathTraversal(p) => "Path traversal attempt: "@ + p,
    }
}

/// Translates a navigation error into a reply.
pub fn navigate_error_to_ftp_response(error: NavigateError) -> (r: CommandResult)
    ensures
        r@ == coded_failure("550"@, navigate_error_reason(error@)),
{
    let reason = match &error {
        NavigateError::InvalidPath(p) => joined("Invalid path: ", p.as_str()),
        NavigateError::DirectoryNotFound(p) => joined(p.as_str(), ": Directory not found"),
        NavigateError::NotADirectory(p) => joined(p.as_str(), ": Not a directory"),
        NavigateError::PermissionDenied(p) => joined(p.as_str(), ": Permission denied"),
        NavigateError::PathTraversal(p) => joined("Path traversal attempt: ", p.as_str()),
    };
    coded("550", &reason)
}

/// Translates a `PWD` result into a reply.
pub fn pwd_result_to_ftp_response(result: PwdResult) -> (r: CommandResult)
    ensures
        r@ == success_reply("257 \""@ + result.virtual_path@ + "\"\r\n"@),
{
    let mut m = chars_of("257 \"");
    extend_chars(&mut m, &chars_of(result.virtual_path.as_str()));
    extend_chars(&mut m, &chars_of("\"\r\n"));
    CommandResult { status: CommandStatus::Success, message: Some(string_from_chars(&m)) }
}

/// Translates a `CWD` result into a reply.
pub fn cwd_result_to_ftp_response(result: CwdResult) -> (r: CommandResult)
    ensures
        r@ == success_reply("250 Directory changed successfully\r\n"@),
{
    success("250 Directory changed successfully\r\n")
}

/// The code and reason a client error is reported with.
pub open spec fn client_error_code_reason(e: ClientErrorView) -> (Seq<char>, Seq<char>) {
    match e {
        ClientErrorView::ClientNotFound(a) => ("421"@, "Client "@ + socket_text(a) + " not found"@),
        ClientErrorView::InvalidState(m) => ("530"@, m),
    }
}

/// Translates a client error into a reply.
pub fn client_error_to_ftp_response(error: ClientError) -> (r: CommandResult)
    ensures
        r@ == coded_failure(client_error_code_reason(error@).0, client_error_code_reason(error@).1),
{
    match &error {
        ClientError::ClientNotFound(a) => {
            let mut v = joined("Client ", socket_to_string(*a).as_str());
            extend_chars(&mut v, &chars_of(" not found"));
            coded("421", &v)
        },
        ClientError::InvalidState(m) => coded("530", &chars_of(m.as_str())),
    }
}

} // verus!
