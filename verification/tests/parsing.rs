use rax_ftp_server::protocol::{parse_command, Command};

#[test]
fn parse_simple_commands() {
    assert_eq!(parse_command("QUIT"), Command::QUIT);
    assert_eq!(parse_command("q"), Command::QUIT);
    assert_eq!(parse_command("list"), Command::LIST);
    assert_eq!(parse_command("  LogOut  "), Command::LOGOUT);
    assert_eq!(parse_command("PWD\r\n"), Command::PWD);
    assert_eq!(parse_command("PASV"), Command::PASV);
    assert_eq!(parse_command("rax"), Command::RAX);
}

#[test]
fn parse_commands_with_arguments() {
    assert_eq!(parse_command("USER alice"), Command::USER("alice".to_string()));
    assert_eq!(parse_command("user   bob  \r\n"), Command::USER("bob".to_string()));
    assert_eq!(parse_command("PASS alice123"), Command::PASS("alice123".to_string()));
    assert_eq!(parse_command("RETR report.txt"), Command::RETR("report.txt".to_string()));
    assert_eq!(parse_command("STOR my file.txt"), Command::STOR("my file.txt".to_string()));
    assert_eq!(parse_command("DEL old.txt"), Command::DEL("old.txt".to_string()));
    assert_eq!(parse_command("CWD /subfolder"), Command::CWD("/subfolder".to_string()));
    assert_eq!(parse_command("PORT 127.0.0.1:8080"), Command::PORT("127.0.0.1:8080".to_string()));
}

#[test]
fn parse_missing_argument_is_unknown() {
    assert_eq!(parse_command("USER"), Command::UNKNOWN);
    assert_eq!(parse_command("CWD   "), Command::UNKNOWN);
    assert_eq!(parse_command("STOR"), Command::UNKNOWN);
}

#[test]
fn parse_unknown_commands() {
    assert_eq!(parse_command(""), Command::UNKNOWN);
    assert_eq!(parse_command("HELLO world"), Command::UNKNOWN);
    assert_eq!(parse_command("QUITX"), Command::UNKNOWN);
}

#[test]
fn parse_tab_separated_and_unicode_space() {
    assert_eq!(parse_command("USER\talice"), Command::USER("alice".to_string()));
    assert_eq!(parse_command("\u{3000}PWD\u{a0}"), Command::PWD);
}
