use rax_ftp_server::storage::validation::{
    normalize_path, resolve_cwd_path, resolve_file_path, validate_directory_depth, validate_path,
    validate_path_component, verify_path_within_bounds, virtual_to_real_path, path_starts_with,
    resolve_and_validate_file_path,
};

#[test]
fn normalize_examples() {
    assert_eq!(normalize_path("").unwrap(), "/");
    assert_eq!(normalize_path("/").unwrap(), "/");
    assert_eq!(normalize_path("//a///b//").unwrap(), "/a/b");
    assert_eq!(normalize_path("a\\b\\c").unwrap(), "a/b/c");
    assert_eq!(normalize_path("\\x\\y").unwrap(), "/x/y");
    assert_eq!(normalize_path("docs/").unwrap(), "docs");
}

#[test]
fn normalize_is_idempotent_on_examples() {
    for p in ["", "/", "a//b", "\\a\\\\b/", "x"] {
        let once = normalize_path(p).unwrap();
        assert_eq!(normalize_path(&once).unwrap(), once);
        // A normal form has no backslash, no `//`, and no trailing `/`
        // unless it is the root.
        assert!(!once.contains('\\'));
        assert!(!once.contains("//"));
        assert!(once == "/" || !once.ends_with('/'));
    }
}

#[test]
fn depth_limits() {
    assert!(validate_directory_depth("/", 3).is_ok());
    // The limit is the configured one.
    assert!(validate_directory_depth("/a/b/c/d", 5).is_ok());
    assert_eq!(
        validate_directory_depth("/a/b", 1).unwrap_err(),
        "Directory depth 2 exceeds maximum allowed depth of 1"
    );
    assert_eq!(validate_path("/a/b/c/d", 4).unwrap(), "/a/b/c/d");
    assert_eq!(resolve_cwd_path("/", "x/y", 1).unwrap_err(), "Directory depth 2 exceeds maximum allowed depth of 1");
    assert!(validate_directory_depth("/a/b/c", 3).is_ok());
    assert_eq!(
        validate_directory_depth("/a/b/c/d", 3).unwrap_err(),
        "Directory depth 4 exceeds maximum allowed depth of 3"
    );
    assert_eq!(
        validate_directory_depth("a/b/c/d/e/f/g/h/i/j/k/l", 3).unwrap_err(),
        "Directory depth 12 exceeds maximum allowed depth of 3"
    );
}

#[test]
fn component_errors() {
    assert_eq!(validate_path_component("").unwrap_err(), "Empty path component");
    assert_eq!(validate_path_component("..").unwrap_err(), "Directory traversal not allowed");
    assert_eq!(validate_path_component(".").unwrap_err(), "Directory traversal not allowed");
    assert_eq!(validate_path_component("a:b").unwrap_err(), "Invalid character ':' in path");
    assert_eq!(validate_path_component("a?b<c").unwrap_err(), "Invalid character '<' in path");
    assert_eq!(validate_path_component("con").unwrap_err(), "Reserved filename: con");
    assert_eq!(validate_path_component("Lpt9").unwrap_err(), "Reserved filename: Lpt9");
    assert!(validate_path_component("lpt0").is_ok());
    assert!(validate_path_component("console").is_ok());
    assert!(validate_path_component("file.txt").is_ok());
}

#[test]
fn validate_path_examples() {
    assert_eq!(validate_path("/docs//a.txt", 3).unwrap(), "/docs/a.txt");
    assert_eq!(validate_path("/a/../b", 3).unwrap_err(), "Directory traversal not allowed");
    assert_eq!(validate_path("/a/b/c/d", 3).unwrap_err(), "Directory depth 4 exceeds maximum allowed depth of 3");
    assert_eq!(validate_path("/x/AUX", 3).unwrap_err(), "Reserved filename: AUX");
}

#[test]
fn resolve_file_examples() {
    assert_eq!(resolve_file_path("/", "a.txt", 3).unwrap(), "/a.txt");
    assert_eq!(resolve_file_path("/docs", " a.txt ", 3).unwrap(), "/docs/a.txt");
    assert_eq!(resolve_file_path("/docs/", "a.txt", 3).unwrap(), "/docs/a.txt");
    assert_eq!(resolve_file_path("/docs", "/other/b.txt", 3).unwrap(), "/other/b.txt");
    assert_eq!(resolve_file_path("/docs", "   ", 3).unwrap_err(), "Empty file path");
    assert_eq!(resolve_file_path("/docs", "../secret", 3).unwrap_err(), "Directory traversal not allowed");
}

#[test]
fn resolve_cwd_examples() {
    assert_eq!(resolve_cwd_path("/docs", "", 3).unwrap(), "/docs");
    assert_eq!(resolve_cwd_path("/", "..", 3).unwrap(), "/");
    assert_eq!(resolve_cwd_path("/docs", "..", 3).unwrap_err(), "Directory traversal not allowed");
    assert_eq!(resolve_cwd_path("/docs", "sub", 3).unwrap(), "/docs/sub");
    assert_eq!(resolve_cwd_path("/docs", "\\up", 3).unwrap(), "/up");
}

#[test]
fn real_path_examples() {
    assert_eq!(virtual_to_real_path("./server_root", "/a/b.txt"), "./server_root/a/b.txt");
    assert_eq!(virtual_to_real_path("./server_root/", "/a"), "./server_root/a");
    assert_eq!(virtual_to_real_path("./server_root", "/"), "./server_root");
    assert_eq!(virtual_to_real_path("", "///x"), "x");
}

#[test]
fn bounds_examples() {
    assert!(path_starts_with("/srv/root/a", "/srv/root"));
    assert!(!path_starts_with("/srv/rootx/a", "/srv/root"));
    assert!(path_starts_with("/srv/root", "/srv/root/"));
    assert!(verify_path_within_bounds(Some("/srv/root"), Some("/srv/root/a.txt"), None).is_ok());
    assert_eq!(
        verify_path_within_bounds(Some("/srv/root"), Some("/etc/passwd"), None).unwrap_err(),
        "Path outside server root"
    );
    assert!(verify_path_within_bounds(Some("/srv/root"), None, Some("/srv/root/sub")).is_ok());
    assert!(verify_path_within_bounds(Some("/srv/root"), None, Some("/tmp")).is_err());
    assert!(verify_path_within_bounds(None, Some("/etc"), None).is_ok());
    assert!(verify_path_within_bounds(Some("/srv/root"), None, None).is_ok());
}

#[test]
fn resolve_and_validate_examples() {
    let (real, virt) = resolve_and_validate_file_path(
        "/srv/root", "/docs", "a.txt", Some("/srv/root"), None, Some("/srv/root/docs"),
        3,
    )
    .unwrap();
    assert_eq!(real, "/srv/root/docs/a.txt");
    assert_eq!(virt, "/docs/a.txt");
    assert!(resolve_and_validate_file_path(
        "/srv/root", "/docs", "a.txt", Some("/srv/root"), Some("/elsewhere/a.txt"), None,
        3,
    )
    .is_err());
}
