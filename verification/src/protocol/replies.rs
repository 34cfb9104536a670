//! Replies of the data and file commands: the fixed reply lines, and the
//! reason each domain error is reported with.
use crate::error::types::{
    NavigateError, NavigateErrorView, StorageError, StorageErrorView, TransferError,
    TransferErrorView,
};
use crate::net::{socket_text, socket_to_string};
use crate::protocol::commands::{coded, coded_failure, CommandResult, CommandResultView};
use crate::text::{chars_of, decimal, decimal_chars, extend_chars};
use vstd::prelude::*;

verus! {

/// `p` followed by `suffix`.
fn with_suffix(p: &str, suffix: &str) -> (v: Vec<char>)
    ensures
        v@ == p@ + suffix@,
{
    let mut v = chars_of(p);
    extend_chars(&mut v, &chars_of(suffix));
    v
}

/// `prefix` followed by `p`.
fn with_prefix(prefix: &str, p: &str) -> (v: Vec<char>)
    ensures
        v@ == prefix@ + p@,
{
    let mut v = chars_of(prefix);
    extend_chars(&mut v, &chars_of(p));
    v
}

/// The reason a failed directory listing is reported with.
pub open spec fn list_error_reason(e: StorageErrorView) -> Seq<char> {
    match e {
        StorageErrorView::DirectoryNotFound(p) => p + ": Directory not found"@,
        StorageErrorView::PermissionDenied(p) => p + ": Permission denied"@,
        StorageErrorView::IoError(e) => "I/O error: "@ + e,
        _ => "Directory listing failed"@,
    }
}

/// The reply to a failed directory listing.
pub fn list_error_reply(e: &StorageError) -> (r: CommandResult)
    ensures
        r@ == coded_failure("550"@, list_error_reason(e@)),
{
    let reason = match e {
        StorageError::DirectoryNotFound(p) => with_suffix(p.as_str(), ": Directory not found"),
        StorageError::PermissionDenied(p) => with_suffix(p.as_str(), ": Permission denied"),
        StorageError::IoError(x) => with_prefix("I/O error: ", x.as_str()),
        _ => chars_of("Directory listing failed"),
    };
    coded("550", &reason)
}

/// The reason a failed retrieval is reported with.
pub open spec fn retrieve_error_reason(e: StorageErrorView) -> Seq<char> {
    match e {
        StorageErrorView::FileNotFound(p) => p + ": File not found"@,
        StorageErrorView::PermissionDenied(p) => p + ": Permission denied"@,
        StorageErrorView::IoError(e) => "I/O error: "@ + e,
        _ => "File retrieval failed"@,
    }
}

/// The reply to a refused retrieval.
pub fn retrieve_error_reply(e: &StorageError) -> (r: CommandResult)
    ensures
        r@ == coded_failure("550"@, retrieve_error_reason(e@)),
{
    let reason = match e {
        StorageError::FileNotFound(p) => with_suffix(p.as_str(), ": File not found"),
        StorageError::PermissionDenied(p) => with_suffix(p.as_str(), ": Permission denied"),
        StorageError::IoError(x) => with_prefix("I/O error: ", x.as_str()),
        _ => chars_of("File retrieval failed"),
    };
    coded("550", &reason)
}

/// The reason a refused upload is reported with.
pub open spec fn store_error_reason(e: StorageErrorView) -> Seq<char> {
    match e {
        StorageErrorView::FileAlreadyExists(p) => p + ": File already exists"@,
        StorageErrorView::PermissionDenied(p) => p + ": Permission denied"@,
        StorageErrorView::UploadInProgress(p) => p + ": Upload already in progress"@,
        StorageErrorView::IoError(e) => "I/O error: "@ + e,
        _ => "File storage preparation failed"@,
    }
}

/// The reply to a refused upload.
pub fn store_error_reply(e: &StorageError) -> (r: CommandResult)
    ensures
        r@ == coded_failure("550"@, store_error_reason(e@)),
{
    let reason = match e {
        StorageError::FileAlreadyExists(p) => with_suffix(p.as_str(), ": File already exists"),
        StorageError::PermissionDenied(p) => with_suffix(p.as_str(), ": Permission denied"),
        StorageError::UploadInProgress(p) => with_suffix(p.as_str(), ": Upload already in progress"),
        StorageError::IoError(x) => with_prefix("I/O error: ", x.as_str()),
        _ => chars_of("File storage preparation failed"),
    };
    coded("550", &reason)
}

/// The reason a failed deletion is reported with.
pub open spec fn delete_error_reason(e: StorageErrorView) -> Seq<char> {
    match e {
        StorageErrorView::FileNotFound(p) => p + ": File not found"@,
        StorageErrorView::PermissionDenied(p) => p + ": Permission denied"@,
        StorageErrorView::IoError(e) => "I/O error: "@ + e,
        _ => "File deletion failed"@,
    }
}

/// The reply to a failed deletion.
pub fn delete_error_reply(e: &StorageError) -> (r: CommandResult)
    ensures
        r@ == coded_failure("550"@, delete_error_reason(e@)),
{
    let reason = match e {
        StorageError::FileNotFound(p) => with_suffix(p.as_str(), ": File not found"),
        StorageError::PermissionDenied(p) => with_suffix(p.as_str(), ": Permission denied"),
        StorageError::IoError(x) => with_prefix("I/O error: ", x.as_str()),
        _ => chars_of("File deletion failed"),
    };
    coded("550", &reason)
}

/// The reason a refused change of directory is reported with.
pub open spec fn cwd_error_reason(e: NavigateErrorView) -> Seq<char> {
    match e {
        NavigateErrorView::DirectoryNotFound(p) => p + ": Directory not found"@,
        NavigateErrorView::NotADirectory(p) => p + ": Not a directory"@,
        NavigateErrorView::PermissionDenied(p) => p + ": Permission denied"@,
        NavigateErrorView::PathTraversal(p) => "Path traversal attempt: "@ + p,
        _ => "Directory change failed"@,
    }
}

/// The reply to a refused change of directory.
pub fn cwd_error_reply(e: &NavigateError) -> (r: CommandResult)
    ensures
        r@ == coded_failure("550"@, cwd_error_reason(e@)),
{
    let reason = match e {
        NavigateError::DirectoryNotFound(p) => with_suffix(p.as_str(), ": Directory not found"),
        NavigateError::NotADirectory(p) => with_suffix(p.as_str(), ": Not a directory"),
        NavigateError::PermissionDenied(p) => with_suffix(p.as_str(), ": Permission denied"),
        NavigateError::PathTraversal(p) => with_prefix("Path traversal attempt: ", p.as_str()),
        _ => chars_of("Directory change failed"),
    };
    coded("550", &reason)
}

/// The reason a failed passive-mode set-up is reported with (code 425).
pub open spec fn pasv_error_reason(e: TransferErrorView) -> Seq<char> {
    match e {
        TransferErrorView::NoAvailablePort => "No available port"@,
        TransferErrorView::PortBindingFailed(a, x) => "Can't bind to "@ + socket_text(a) + ": "@ + x,
        TransferErrorView::ListenerConfigurationFailed(x) => "Listener config failed: "@ + x,
        _ => "Passive mode setup failed"@,
    }
}

/// The reply to a failed passive-mode set-up.
pub fn pasv_error_reply(e: &TransferError) -> (r: CommandResult)
    ensures
        r@ == coded_failure("425"@, pasv_error_reason(e@)),
{
    let reason = match e {
        TransferError::NoAvailablePort => chars_of("No available port"),
        TransferError::PortBindingFailed(a, x) => {
            let mut v = chars_of("Can't bind to ");
            extend_chars(&mut v, &chars_of(socket_to_string(*a).as_str()));
            extend_chars(&mut v, &chars_of(": "));
            extend_chars(&mut v, &chars_of(x.as_str()));
            v
        },
        TransferError::ListenerConfigurationFailed(x) => with_prefix("Listener config failed: ", x.as_str()),
        _ => chars_of("Passive mode setup failed"),
    };
    coded("425", &reason)
}

/// The reply to a failed active-mode set-up: malformed requests are
/// answered with 501, other failures with 425.
pub open spec fn port_error_reply_spec(e: TransferErrorView) -> CommandResultView {
    match e {
        TransferErrorView::InvalidPortCommand(m) => coded_failure("501"@, m),
        TransferErrorView::IpMismatch { expected, provided } => coded_failure(
            "501"@,
            "IP mismatch: expected "@ + expected + ", got "@ + provided,
        ),
        TransferErrorView::InvalidPortRange(p) => coded_failure(
            "501"@,
            "Port "@ + decimal(p as nat) + " out of range (must be 1024-65535)"@,
        ),
        _ => coded_failure("425"@, "Active mode setup failed"@),
    }
}

/// The reply to a failed active-mode set-up.
pub fn port_error_reply(e: &TransferError) -> (r: CommandResult)
    ensures
        r@ == port_error_reply_spec(e@),
{
    match e {
        TransferError::InvalidPortCommand(m) => coded("501", &chars_of(m.as_str())),
        TransferError::IpMismatch { expected, provided } => {
            let mut v = chars_of("IP mismatch: expected ");
            extend_chars(&mut v, &chars_of(expected.as_str()));
            extend_chars(&mut v, &chars_of(", got "));
            extend_chars(&mut v, &chars_of(provided.as_str()));
            coded("501", &v)
        },
        TransferError::InvalidPortRange(p) => {
            let mut v = chars_of("Port ");
            extend_chars(&mut v, &decimal_chars(*p as u64));
            extend_chars(&mut v, &chars_of(" out of range (must be 1024-65535)"));
            coded("501", &v)
        },
        _ => coded("425", &chars_of("Active mode setup failed")),
    }
}

} // verus!
