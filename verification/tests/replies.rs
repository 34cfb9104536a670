use rax_ftp_server::client::results::QuitResult;
use rax_ftp_server::error::handlers::{error_to_ftp_code, handle_error};
use rax_ftp_server::error::types::{
    AuthError, ClientError, FtpServerError, NavigateError, StorageError, TransferError,
};
use rax_ftp_server::navigate::results::{CwdResult, PwdResult};
use rax_ftp_server::net::SocketAddress;
use rax_ftp_server::protocol::commands::{CommandResult, CommandStatus};
use rax_ftp_server::protocol::responses::{format_response, AUTH_FAILED, LOGIN_SUCCESS, OK, READY};
use rax_ftp_server::protocol::translators::{
    delete_result_to_ftp_response, list_result_to_ftp_response, password_result_to_ftp_response,
    retrieve_result_to_ftp_response, store_result_to_ftp_response, user_result_to_ftp_response,
    active_result_to_ftp_response, auth_error_to_ftp_response, client_error_to_ftp_response,
    cwd_result_to_ftp_response, navigate_error_to_ftp_response, passive_result_to_ftp_response,
    pwd_result_to_ftp_response, storage_error_to_ftp_response, transfer_error_to_ftp_response,
};
use rax_ftp_server::transfer::results::{ActiveModeResult, PassiveModeResult};
use rax_ftp_server::auth::results::{PasswordValidationResult, UserValidationResult};
use rax_ftp_server::storage::results::{DeleteResult, ListResult, RetrieveResult, StoreResult};

fn msg(r: &CommandResult) -> &str {
    r.message.as_deref().unwrap()
}

#[test]
fn reply_lines() {
    assert_eq!(format_response(OK, "Command okay"), "200 Command okay\r\n");
    assert_eq!(format_response(READY, ""), "220 \r\n");
    assert_eq!(format_response(LOGIN_SUCCESS, "Login successful"), "230 Login successful\r\n");
    assert_eq!(format_response(AUTH_FAILED, "Not logged in"), "530 Not logged in\r\n");
    assert_eq!(format_response(7, "x"), "7 x\r\n");
}

#[test]
fn error_translations() {
    let r = auth_error_to_ftp_response(AuthError::UserNotFound("eve".into()));
    assert_eq!(msg(&r), "530 Unknown user 'eve'\r\n");
    assert!(matches!(r.status, CommandStatus::Failure(ref m) if m == "Unknown user 'eve'"));
    assert_eq!(msg(&auth_error_to_ftp_response(AuthError::MalformedInput("x".into()))), "530 Malformed input\r\n");
    assert_eq!(msg(&storage_error_to_ftp_response(StorageError::InvalidPath("p".into()))), "550 Invalid path: p\r\n");
    assert_eq!(msg(&storage_error_to_ftp_response(StorageError::NotADirectory("/a".into()))), "550 /a: Not a directory\r\n");
    assert_eq!(msg(&navigate_error_to_ftp_response(NavigateError::DirectoryNotFound("/d".into()))),
        "550 /d: Directory not found\r\n");
    assert_eq!(msg(&transfer_error_to_ftp_response(TransferError::TransferFailed("reset".into()))),
        "426 Transfer failed: reset\r\n");
    assert_eq!(msg(&transfer_error_to_ftp_response(TransferError::InvalidPortRange(80))),
        "501 Port 80 out of range (must be 1024-65535)\r\n");
    assert_eq!(msg(&transfer_error_to_ftp_response(TransferError::DataChannelSetupFailed("no".into()))), "425 no\r\n");
    let a = SocketAddress::v4(127, 0, 0, 1, 40000);
    assert_eq!(msg(&client_error_to_ftp_response(ClientError::ClientNotFound(a))),
        "421 Client 127.0.0.1:40000 not found\r\n");
    assert_eq!(msg(&client_error_to_ftp_response(ClientError::InvalidState("User not logged in".into()))),
        "530 User not logged in\r\n");
}

#[test]
fn result_translations() {
    let s = SocketAddress::v4(127, 0, 0, 1, 2127);
    assert_eq!(msg(&passive_result_to_ftp_response(PassiveModeResult { data_socket: s })),
        "227 Entering Passive Mode (127,0,0,1,8,79)\r\n");
    assert_eq!(msg(&active_result_to_ftp_response(ActiveModeResult { data_socket: s })),
        "200 PORT command successful\r\n");
    assert_eq!(msg(&pwd_result_to_ftp_response(PwdResult { virtual_path: "/docs".into() })), "257 \"/docs\"\r\n");
    assert_eq!(msg(&cwd_result_to_ftp_response(CwdResult { new_virtual_path: "/d".into(), real_path: "r".into() })),
        "250 Directory changed successfully\r\n");
    let _ = QuitResult { client_addr: "unknown".into() };
}

#[test]
fn error_messages() {
    assert_eq!(StorageError::FileNotFound("/x".into()).message(), "File not found: /x");
    assert_eq!(NavigateError::PathTraversal("..".into()).message(), "Path traversal attempt: ..");
    assert_eq!(AuthError::InvalidPassword("bob".into()).message(), "Invalid password for user: bob");
    assert_eq!(TransferError::InvalidPortRange(5).message(), "Invalid port 5: must be between 1024 and 65535");
    assert_eq!(TransferError::NoAvailablePort.message(), "No available port for data connection");
    assert_eq!(
        TransferError::PortBindingFailed(SocketAddress::v4(127, 0, 0, 1, 2122), "busy".into()).message(),
        "Failed to bind to 127.0.0.1:2122: busy"
    );
}

#[test]
fn server_errors() {
    let e = FtpServerError::NetworkError("down".into());
    assert_eq!(error_to_ftp_code(&e), 421);
    assert_eq!(handle_error(&e), "FTP Server Error: Network error: down");
    assert_eq!(error_to_ftp_code(&FtpServerError::IoError("x".into())), 550);
    assert_eq!(error_to_ftp_code(&FtpServerError::AuthenticationError("x".into())), 530);
    assert_eq!(error_to_ftp_code(&FtpServerError::ProtocolError("x".into())), 500);
    assert_eq!(error_to_ftp_code(&FtpServerError::FileSystemError("x".into())), 550);
}

#[test]
fn first_replies() {
    let u = UserValidationResult { user_valid: true, username: "alice".into() };
    assert_eq!(msg(&user_result_to_ftp_response(u)), "331 Password required\r\n");
    let p = PasswordValidationResult { login_successful: true, username: "alice".into() };
    assert_eq!(msg(&password_result_to_ftp_response(p)), "230 Login successful\r\n");
    let l = ListResult { entries: vec![], path: "/".into() };
    assert_eq!(msg(&list_result_to_ftp_response(l)), "150 Here comes the directory listing\r\n");
    let r = RetrieveResult { file_path: "/srv/a".into(), virtual_path: "/a".into() };
    assert_eq!(msg(&retrieve_result_to_ftp_response(r)), "150 Opening data connection for file transfer\r\n");
    let s = StoreResult { file_path: "/srv/a".into(), virtual_path: "/a".into(), temp_path: "/srv/a.tmp".into() };
    assert_eq!(msg(&store_result_to_ftp_response(s)), "150 Ok to send data\r\n");
    let d = DeleteResult { file_path: "/srv/a".into(), virtual_path: "/a".into() };
    assert_eq!(msg(&delete_result_to_ftp_response(d)), "250 File deleted successfully\r\n");
}
