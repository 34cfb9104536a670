use rax_ftp_server::auth::validator::{is_valid_input, validate_password, validate_user};
use rax_ftp_server::client::operations::{process_logout, process_quit};
use rax_ftp_server::client::session::ClientSession;
use rax_ftp_server::client::state::Client;
use rax_ftp_server::error::types::{AuthError, ClientError};
use rax_ftp_server::net::SocketAddress;

#[test]
fn readme_accounts() {
    for (u, p) in [("alice", "alice123"), ("bob", "bob123"), ("admin", "admin123")] {
        assert!(validate_user(u).is_ok());
        assert!(validate_password(u, p).is_ok());
    }
    assert!(matches!(validate_password("alice", "bob123"), Err(AuthError::InvalidPassword(ref u)) if u == "alice"));
    assert!(matches!(validate_user("mallory"), Err(AuthError::UserNotFound(ref u)) if u == "mallory"));
}

#[test]
fn input_sanitation() {
    assert!(is_valid_input("alice"));
    assert!(!is_valid_input("   "));
    assert!(!is_valid_input("a\nb"));
    assert!(!is_valid_input("a\0b"));
    assert!(is_valid_input(&"x".repeat(64)));
    assert!(!is_valid_input(&"x".repeat(65)));
    assert!(matches!(validate_user("a\rb"), Err(AuthError::MalformedInput(_))));
}

#[test]
fn logout_and_quit_operations() {
    let mut c = Client::default();
    assert!(matches!(process_logout(&mut c), Err(ClientError::InvalidState(ref m)) if m == "User not logged in"));
    c.set_logged_in(true);
    assert!(process_logout(&mut c).unwrap().was_logged_in);
    assert!(!c.is_logged_in());
    assert_eq!(process_quit(&mut c).unwrap().client_addr, "unknown");
    c.set_client_addr(Some(SocketAddress::v4(127, 0, 0, 1, 4242)));
    assert_eq!(process_quit(&mut c).unwrap().client_addr, "127.0.0.1:4242");
    assert!(c.client_addr().is_none());
}

#[test]
fn client_setters() {
    let mut c = Client::default();
    assert_eq!(c.current_virtual_path(), "/");
    assert!(c.set_current_virtual_path("relative".into()).is_err());
    assert!(c.set_current_virtual_path("/a/../b".into()).is_err());
    assert!(c.set_current_virtual_path("/a/b".into()).is_ok());
    assert_eq!(c.current_virtual_path(), "/a/b");
}

#[test]
fn user_name_shapes() {
    assert!(matches!(validate_user("1alice"), Err(AuthError::InvalidUsername(ref u)) if u == "1alice"));
    assert!(matches!(validate_user("\u{663}alice"), Err(AuthError::InvalidUsername(_))));
    assert!(matches!(validate_user("al@ice"), Err(AuthError::InvalidUsername(_))));
    assert!(matches!(validate_user("alice%"), Err(AuthError::InvalidUsername(_))));
    assert!(matches!(validate_user("alice1"), Err(AuthError::UserNotFound(_))));
    assert!(matches!(validate_password("alice", ""), Err(AuthError::MalformedInput(ref m)) if m == "Invalid password format"));
}

#[test]
fn sessions_hold_their_client() {
    let mut s = ClientSession::new(Client::default());
    assert!(!s.get_client().is_logged_in());
    s.get_client_mut().set_logged_in(true);
    assert!(s.get_client().is_logged_in());
}
