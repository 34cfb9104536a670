use rax_ftp_server::error::types::StorageError;
use rax_ftp_server::navigate::operations::change_directory;
use rax_ftp_server::error::types::NavigateError;
use rax_ftp_server::storage::filesystem::{directory_exists, file_exists, PathFacts, PathKind};
use rax_ftp_server::storage::operations::{
    delete_file, list_directory, prepare_file_retrieval, prepare_file_storage, retry_delay_ms,
    temp_path_for, DirEntryInfo, EntryMetadata,
};

fn facts(exists: bool, is_file: bool, is_dir: bool) -> PathFacts {
    assert!(!(is_file && is_dir));
    PathFacts {
        exists,
        kind: if is_file {
            PathKind::File
        } else if is_dir {
            PathKind::Directory
        } else {
            PathKind::Other
        },
        canonical: None,
        parent: None,
        parent_exists: true,
        parent_is_dir: true,
        parent_canonical: None,
    }
}

fn entry(name: &str, meta: Option<(bool, u64, u64)>) -> DirEntryInfo {
    DirEntryInfo {
        name: name.to_string(),
        metadata: meta.map(|(is_dir, len, modified_secs)| EntryMetadata { is_dir, len, modified_secs }),
    }
}

#[test]
fn listing_lines() {
    let read = Ok(vec![
        entry("a.txt", Some((false, 12, 1700000000))),
        entry("docs", Some((true, 4096, 1600000000))),
        entry("weird", None),
    ]);
    let lines = list_directory("/sub", read).unwrap();
    assert_eq!(
        lines,
        vec!["." .to_string() + "|0|0", "..|0|0".to_string(), "a.txt|12|1700000000".to_string(),
            "docs/|0|1600000000".to_string(), "weird|0|0".to_string()]
    );
    let root = list_directory("/", Ok(vec![])).unwrap();
    assert_eq!(root, vec![".|0|0".to_string()]);
    match list_directory("/", Err(StorageError::PermissionDenied("/".to_string()))) {
        Err(StorageError::PermissionDenied(p)) => assert_eq!(p, "/"),
        other => panic!("{:?}", other),
    }
}

#[test]
fn retrieval_checks() {
    let r = prepare_file_retrieval("/srv", "/", "", &facts(true, true, false), None, 3);
    assert!(matches!(r, Err(StorageError::InvalidPath(ref m)) if m == "Empty filename"));
    let r = prepare_file_retrieval("/srv", "/docs", "a.txt", &facts(true, true, false), None, 3);
    assert_eq!(r.unwrap(), "/srv/docs/a.txt");
    let r = prepare_file_retrieval("/srv", "/docs", "a.txt", &facts(false, false, false), None, 3);
    assert!(matches!(r, Err(StorageError::FileNotFound(ref v)) if v == "/docs/a.txt"));
    let r = prepare_file_retrieval("/srv", "/docs", "sub", &facts(true, false, true), None, 3);
    assert!(matches!(r, Err(StorageError::NotADirectory(ref v)) if v == "/docs/sub"));
    let r = prepare_file_retrieval("/srv", "/", "../etc/passwd", &facts(true, true, false), None, 3);
    assert!(matches!(r, Err(StorageError::InvalidPath(_))));
}

#[test]
fn storage_checks() {
    let (p, t) = prepare_file_storage("/srv", "/", "up.bin", &facts(false, false, false), None, false, 3).unwrap();
    assert_eq!((p.as_str(), t.as_str()), ("/srv/up.bin", "/srv/up.bin.tmp"));
    let r = prepare_file_storage("/srv", "/", "up.bin", &facts(true, true, false), None, false, 3);
    assert!(matches!(r, Err(StorageError::FileAlreadyExists(ref v)) if v == "/up.bin"));
    let r = prepare_file_storage("/srv", "/", "up.bin", &facts(false, false, false), None, true, 3);
    assert!(matches!(r, Err(StorageError::UploadInProgress(ref v)) if v == "/up.bin"));
    let mut f = facts(false, false, false);
    f.parent = Some("/srv/x".to_string());
    f.parent_exists = false;
    let r = prepare_file_storage("/srv", "/x", "y", &f, None, false, 3);
    assert!(matches!(r, Err(StorageError::DirectoryNotFound(ref p)) if p == "/srv/x"));
    f.parent_exists = true;
    f.parent_is_dir = false;
    let r = prepare_file_storage("/srv", "/x", "y", &f, None, false, 3);
    assert!(matches!(r, Err(StorageError::NotADirectory(ref p)) if p == "/srv/x"));
}

#[test]
fn deletion_checks() {
    assert_eq!(delete_file("/srv", "/", "old.txt", &facts(true, true, false), None, 3).unwrap(), "/srv/old.txt");
    let r = delete_file("/srv", "/", "old.txt", &facts(false, false, false), None, 3);
    assert!(matches!(r, Err(StorageError::FileNotFound(ref v)) if v == "/old.txt"));
}

#[test]
fn temp_paths() {
    assert_eq!(temp_path_for("/srv/a.txt"), "/srv/a.txt.tmp");
    assert_eq!(temp_path_for("/srv/archive.tar.gz"), "/srv/archive.tar.gz.tmp");
    assert_eq!(temp_path_for("/srv/noext"), "/srv/noext..tmp");
    assert_eq!(
        std::path::Path::new("/srv/noext").with_extension(".tmp").to_string_lossy(),
        temp_path_for("/srv/noext")
    );
    assert_eq!(temp_path_for("/srv/.."), "/srv/..");
}

#[test]
fn retries() {
    assert_eq!(retry_delay_ms(1, true), Some(100));
    assert_eq!(retry_delay_ms(2, true), Some(200));
    assert_eq!(retry_delay_ms(3, true), None);
    assert_eq!(retry_delay_ms(1, false), None);
}

#[test]
fn existence_facts() {
    assert!(file_exists(&facts(true, true, false)));
    assert!(!file_exists(&facts(true, false, true)));
    assert!(directory_exists(&facts(true, false, true)));
    assert!(!directory_exists(&facts(false, false, false)));
}

fn dir_facts(canonical: Option<&str>) -> PathFacts {
    let mut f = facts(true, false, true);
    f.canonical = canonical.map(|s| s.to_string());
    f
}

#[test]
fn change_directory_cases() {
    let ok = change_directory("/", "docs", &dir_facts(Some("/srv/docs")), Some("/srv"), 3);
    assert_eq!(ok.unwrap(), "/docs");
    let at_root = change_directory("/", "..", &dir_facts(Some("/srv")), Some("/srv"), 3);
    assert_eq!(at_root.unwrap(), "/");
    let up = change_directory("/docs", "..", &dir_facts(Some("/srv")), Some("/srv"), 3);
    assert!(matches!(up, Err(NavigateError::InvalidPath(ref m)) if m == "Directory traversal not allowed"));
    assert!(matches!(change_directory("/", "", &dir_facts(None), Some("/srv"), 3),
        Err(NavigateError::InvalidPath(ref m)) if m == "Empty path provided"));
    assert!(matches!(change_directory("/", "nope", &facts(false, false, false), Some("/srv"), 3),
        Err(NavigateError::DirectoryNotFound(ref v)) if v == "/nope"));
    assert!(matches!(change_directory("/", "f.txt", &facts(true, true, false), Some("/srv"), 3),
        Err(NavigateError::NotADirectory(ref v)) if v == "/f.txt"));
    assert!(matches!(change_directory("/", "d", &dir_facts(None), Some("/srv"), 3),
        Err(NavigateError::PermissionDenied(ref v)) if v == "/d"));
    assert!(matches!(change_directory("/", "d", &dir_facts(Some("/srv/d")), None, 3),
        Err(NavigateError::InvalidPath(ref m)) if m == "Server root invalid"));
    assert!(matches!(change_directory("/", "link", &dir_facts(Some("/etc")), Some("/srv"), 3),
        Err(NavigateError::PathTraversal(ref t)) if t == "link"));
}
