//! Storage decisions for FTP commands: formatting of directory listings,
//! and the checks made before a file is retrieved, stored or deleted. The
//! file-system facts they rest on are gathered by the caller.
use crate::error::types::{StorageError, StorageErrorView};
use crate::storage::filesystem::{is_file, opt_str, PathFacts, PathFactsView};
use crate::storage::validation::{
    bounds_check, char_seqs, real_path_spec, resolve_and_validate_file_path, resolve_and_validate_spec,
    resolve_file_spec, segments, split_components,
};
use crate::text::{chars_eq, chars_of, decimal, decimal_chars, extend_chars, slice_range, string_from_chars};
use vstd::prelude::*;

verus! {

/// Metadata of a directory entry.
#[derive(Clone, Copy, Debug)]
pub struct EntryMetadata {
    pub is_dir: bool,
    pub len: u64,
    pub modified_secs: u64,
}

/// A directory entry as read from the file system: its name and, when it
/// could be read, its metadata.
#[derive(Clone, Debug)]
pub struct DirEntryInfo {
    pub name: String,
    pub metadata: Option<EntryMetadata>,
}

/// The listing line of one directory entry: `name|size|timestamp`, with a
/// `/` after the names of directories, whose size is given as 0; an entry
/// without metadata is listed as `name|0|0`.
pub open spec fn listing_line(e: DirEntryInfo) -> Seq<char> {
    match e.metadata {
        Some(m) => if m.is_dir {
            e.name@ + "/|0|"@ + decimal(m.modified_secs as nat)
        } else {
            e.name@ + seq!['|'] + decimal(m.len as nat) + seq!['|'] + decimal(m.modified_secs as nat)
        },
        None => e.name@ + "|0|0"@,
    }
}

/// The lines of a directory listing: `.|0|0` first, then `..|0|0` unless at
/// the root, then one line per entry in the order read.
pub open spec fn listing_lines(cwd: Seq<char>, entries: Seq<DirEntryInfo>) -> Seq<Seq<char>> {
    (if cwd == seq!['/'] {
        seq![".|0|0"@]
    } else {
        seq![".|0|0"@, "..|0|0"@]
    }) + entries.map_values(|e: DirEntryInfo| listing_line(e))
}

/// The character sequences of a vector of strings.
pub open spec fn string_seqs(v: Seq<String>) -> Seq<Seq<char>> {
    v.map_values(|s: String| s@)
}

fn listing_line_exec(e: &DirEntryInfo) -> (s: String)
    ensures
        s@ == listing_line(*e),
{
    let mut v = chars_of(e.name.as_str());
    match e.metadata {
        Some(m) => {
            if m.is_dir {
                extend_chars(&mut v, &chars_of("/|0|"));
                extend_chars(&mut v, &decimal_chars(m.modified_secs));
            } else {
                v.push('|');
                extend_chars(&mut v, &decimal_chars(m.len));
                v.push('|');
                extend_chars(&mut v, &decimal_chars(m.modified_secs));
            }
        },
        None => {
            extend_chars(&mut v, &chars_of("|0|0"));
        },
    }
    string_from_chars(&v)
}

/// Lists the contents of the current directory: given what reading the
/// directory gave, the listing lines, or the error that reading it gave.
pub fn list_directory(current_virtual_path: &str, read: Result<Vec<DirEntryInfo>, StorageError>) -> (r: Result<Vec<String>, StorageError>)
    ensures
        match read {
            Err(e) => r is Err && r->Err_0@ == e@,
            Ok(entries) => r is Ok && string_seqs(r->Ok_0@) == listing_lines(current_virtual_path@, entries@),
        },
{
    let entries = match read {
        Err(e) => {
            return Err(e);
        },
        Ok(v) => v,
    };
    let mut lines: Vec<String> = Vec::new();
    lines.push(string_from_chars(&chars_of(".|0|0")));
    let cwd = chars_of(current_virtual_path);
    let root = ['/'];
    assert(root@ =~= seq!['/']);
    if !chars_eq(&cwd, &root) {
        lines.push(string_from_chars(&chars_of("..|0|0")));
    }
    let ghost head = string_seqs(lines@);
    assert(head =~= (if current_virtual_path@ == seq!['/'] {
        seq![".|0|0"@]
    } else {
        seq![".|0|0"@, "..|0|0"@]
    }));
    let ghost start = lines@.len();
    let mut i: usize = 0;
    while i < entries.len()
        invariant
            i <= entries@.len(),
            start == head.len(),
            lines@.len() == start + i,
            forall|j: int| 0 <= j < start ==> #[trigger] lines@[j]@ == head[j],
            forall|j: int| 0 <= j < i ==> #[trigger] lines@[start + j]@ == listing_line(entries@[j]),
        decreases entries@.len() - i,
    {
        let line = listing_line_exec(&entries[i]);
        lines.push(line);
        assert(lines@[start + i]@ == listing_line(entries@[i as int]));
        i = i + 1;
    }
    assert(string_seqs(lines@) =~= listing_lines(current_virtual_path@, entries@)) by {
        let m = entries@.map_values(|e: DirEntryInfo| listing_line(e));
        assert forall|j: int| 0 <= j < lines@.len() implies string_seqs(lines@)[j] == (head + m)[j] by {
            if j >= start {
                assert(lines@[start + (j - start)]@ == listing_line(entries@[j - start]));
            }
        }
    }
    Ok(lines)
}

/// The view of a storage result carrying a string.
pub open spec fn storage_result(r: Result<String, StorageError>) -> Result<Seq<char>, StorageErrorView> {
    match r {
        Ok(s) => Ok(s@),
        Err(e) => Err(e@),
    }
}

/// What preparing a file retrieval gives: the real path of the file, once
/// the name is non-empty, the path resolves within the server root, and the
/// path is an existing regular file.
pub open spec fn retrieval_spec(
    root: Seq<char>,
    cwd: Seq<char>,
    filename: Seq<char>,
    f: PathFactsView,
    root_canonical: Option<Seq<char>>,
    max_depth: usize,
) -> Result<Seq<char>, StorageErrorView> {
    if filename.len() == 0 {
        Err(StorageErrorView::InvalidPath("Empty filename"@))
    } else {
        match resolve_and_validate_spec(root, cwd, filename, root_canonical, f.canonical, f.parent_canonical, max_depth) {
            Err(e) => Err(StorageErrorView::InvalidPath(e)),
            Ok((real_path, v)) => if !f.exists {
                Err(StorageErrorView::FileNotFound(v))
            } else if !f.is_file {
                Err(StorageErrorView::NotADirectory(v))
            } else {
                Ok(real_path)
            },
        }
    }
}

fn resolve_for_storage(
    server_root: &str,
    current_virtual_path: &str,
    filename: &str,
    facts: &PathFacts,
    root_canonical: Option<&str>,
    max_depth: usize,
) -> (r: Result<(String, String), StorageError>)
    ensures
        match resolve_and_validate_spec(
            server_root@,
            current_virtual_path@,
            filename@,
            crate::storage::validation::opt_view(root_canonical),
            facts@.canonical,
            facts@.parent_canonical,
            max_depth,
        ) {
            Ok((a, b)) => r is Ok && r->Ok_0.0@ == a && r->Ok_0.1@ == b,
            Err(e) => r is Err && r->Err_0@ == StorageErrorView::InvalidPath(e),
        },
{
    match resolve_and_validate_file_path(
        server_root,
        current_virtual_path,
        filename,
        root_canonical,
        opt_str(&facts.canonical),
        opt_str(&facts.parent_canonical),
        max_depth,
    ) {
        Ok(p) => Ok(p),
        Err(e) => Err(StorageError::InvalidPath(e)),
    }
}

/// Prepares a file retrieval: checks the name, resolves the path within the
/// server root, and checks that it is an existing regular file, returning
/// its real path.
pub fn prepare_file_retrieval(
    server_root: &str,
    current_virtual_path: &str,
    filename: &str,
    facts: &PathFacts,
    root_canonical: Option<&str>,
    max_depth: usize,
) -> (r: Result<String, StorageError>)
    ensures
        storage_result(r) == retrieval_spec(
            server_root@,
            current_virtual_path@,
            filename@,
            facts@,
            crate::storage::validation::opt_view(root_canonical),
            max_depth,
        ),
{
    if filename.is_empty() {
        return Err(StorageError::InvalidPath(string_from_chars(&chars_of("Empty filename"))));
    }
    let (real_path, v) = match resolve_for_storage(
        server_root,
        current_virtual_path,
        filename,
        facts,
        root_canonical,
        max_depth,
    ) {
        Ok(p) => p,
        Err(e) => {
            return Err(e);
        },
    };
    if !facts.exists {
        return Err(StorageError::FileNotFound(v));
    }
    if !is_file(facts) {
        return Err(StorageError::NotADirectory(v));
    }
    Ok(real_path)
}

/// Whether a file name has an extension: a `.` after its first character.
pub open spec fn has_extension(name: Seq<char>) -> bool {
    exists|i: int| 0 < i < name.len() && name[i] == '.'
}

/// `s` without its trailing `/` characters.
pub open spec fn trim_trailing_slashes(s: Seq<char>) -> Seq<char>
    decreases s.len(),
{
    if s.len() > 0 && s.last() == '/' {
        trim_trailing_slashes(s.drop_last())
    } else {
        s
    }
}

/// The temporary path an upload is written to before it is moved into
/// place: the file's extension extended with `.tmp`, as
/// `with_extension(format!("{}.tmp", ext))` gives it (so `a.txt` becomes
/// `a.txt.tmp` and `a` becomes `a..tmp`). A path whose last component is
/// `.` or `..`, or that has none, is left as it is.
pub open spec fn temp_path_spec(real_path: Seq<char>) -> Seq<char> {
    let segs = segments(real_path, false);
    if segs.len() == 0 || segs.last() == seq!['.'] || segs.last() == seq!['.', '.'] {
        real_path
    } else if has_extension(segs.last()) {
        trim_trailing_slashes(real_path) + ".tmp"@
    } else {
        trim_trailing_slashes(real_path) + "..tmp"@
    }
}

/// The temporary upload path of a real path.
pub fn temp_path_for(real_path: &str) -> (t: String)
    ensures
        t@ == temp_path_spec(real_path@),
{
    let p = chars_of(real_path);
    let parts = split_components(&p, false);
    let n = parts.len();
    if n == 0 {
        return string_from_chars(&p);
    }
    let ghost segs = char_seqs(parts@);
    assert(segs.last() == parts@[n - 1]@);
    let dot = ['.'];
    let dotdot = ['.', '.'];
    assert(dot@ =~= seq!['.']);
    assert(dotdot@ =~= seq!['.', '.']);
    if chars_eq(&parts[n - 1], &dot) || chars_eq(&parts[n - 1], &dotdot) {
        return string_from_chars(&p);
    }
    let name = &parts[n - 1];
    let mut ext = false;
    let mut k: usize = 1;
    while k < name.len()
        invariant
            1 <= k,
            k <= name@.len() || name@.len() == 0,
            ext == (exists|i: int| 0 < i < k && i < name@.len() && name@[i] == '.'),
        decreases name@.len() - k,
    {
        if name[k] == '.' {
            ext = true;
        }
        k = k + 1;
    }
    assert(ext == has_extension(name@));
    let mut end = p.len();
    assert(p@.subrange(0, end as int) =~= p@);
    while end > 0 && p[end - 1] == '/'
        invariant
            end <= p@.len(),
            trim_trailing_slashes(p@) == trim_trailing_slashes(p@.subrange(0, end as int)),
        decreases end,
    {
        assert(p@.subrange(0, end as int).drop_last() =~= p@.subrange(0, end - 1));
        end = end - 1;
    }
    let mut out = slice_range(&p, 0, end);
    assert(trim_trailing_slashes(p@) == out@) by {
        if end > 0 {
            assert(p@.subrange(0, end as int).last() == p@[end - 1]);
        }
    }
    if ext {
        extend_chars(&mut out, &chars_of(".tmp"));
    } else {
        extend_chars(&mut out, &chars_of("..tmp"));
    }
    string_from_chars(&out)
}


/// How many times a file-system operation is tried before its error stands.
pub const RETRY_ATTEMPTS: u32 = 3;

/// The pause, in milliseconds, before another try of a file-system
/// operation whose try number `attempt` (counting from 1) failed: `100 *
/// attempt` when the failure was a permission error and tries are left,
/// none otherwise (the error then stands).
pub fn retry_delay_ms(attempt: u32, permission_denied: bool) -> (d: Option<u64>)
    ensures
        d == (if permission_denied && attempt < RETRY_ATTEMPTS {
            Some((100 * attempt) as u64)
        } else {
            None
        }),
{
    if permission_denied && attempt < RETRY_ATTEMPTS {
        Some(100 * (attempt as u64))
    } else {
        None
    }
}

/// The view of a storage result carrying two strings.
pub open spec fn storage_pair_result(r: Result<(String, String), StorageError>) -> Result<(Seq<char>, Seq<char>), StorageErrorView> {
    match r {
        Ok((a, b)) => Ok((a@, b@)),
        Err(e) => Err(e@),
    }
}

/// What preparing a file upload gives: the real path of the file and the
/// temporary path it is written to first, once the name is non-empty, the
/// path resolves within the server root, its parent directory (if it has
/// one) exists and is a directory, the file does not exist yet and no
/// upload to it is in progress (its temporary path does not exist).
pub open spec fn storage_spec(
    root: Seq<char>,
    cwd: Seq<char>,
    filename: Seq<char>,
    f: PathFactsView,
    root_canonical: Option<Seq<char>>,
    temp_exists: bool,
    max_depth: usize,
) -> Result<(Seq<char>, Seq<char>), StorageErrorView> {
    if filename.len() == 0 {
        Err(StorageErrorView::InvalidPath("Empty filename"@))
    } else {
        match resolve_and_validate_spec(root, cwd, filename, root_canonical, f.canonical, f.parent_canonical, max_depth) {
            Err(e) => Err(StorageErrorView::InvalidPath(e)),
            Ok((real_path, v)) => if f.parent is Some && !f.parent_exists {
                Err(StorageErrorView::DirectoryNotFound(f.parent->0))
            } else if f.parent is Some && !f.parent_is_dir {
                Err(StorageErrorView::NotADirectory(f.parent->0))
            } else if f.exists {
                Err(StorageErrorView::FileAlreadyExists(v))
            } else if temp_exists {
                Err(StorageErrorView::UploadInProgress(v))
            } else {
                Ok((real_path, temp_path_spec(real_path)))
            },
        }
    }
}

/// Prepares a file upload: checks the name, resolves the path within the
/// server root, checks the parent directory, and refuses to overwrite an
/// existing file or to start a second upload to the same file. `facts`
/// describe the real path, `temp_exists` whether its temporary path
/// ([`temp_path_for`]) exists. Returns the real and the temporary path.
pub fn prepare_file_storage(
    server_root: &str,
    current_virtual_path: &str,
    filename: &str,
    facts: &PathFacts,
    root_canonical: Option<&str>,
    temp_exists: bool,
    max_depth: usize,
) -> (r: Result<(String, String), StorageError>)
    ensures
        storage_pair_result(r) == storage_spec(
            server_root@,
            current_virtual_path@,
            filename@,
            facts@,
            crate::storage::validation::opt_view(root_canonical),
            temp_exists,
            max_depth,
        ),
{
    if filename.is_empty() {
        return Err(StorageError::InvalidPath(string_from_chars(&chars_of("Empty filename"))));
    }
    let (real_path, v) = match resolve_for_storage(
        server_root,
        current_virtual_path,
        filename,
        facts,
        root_canonical,
        max_depth,
    ) {
        Ok(p) => p,
        Err(e) => {
            return Err(e);
        },
    };
    match &facts.parent {
        Some(parent) => {
            if !facts.parent_exists {
                return Err(StorageError::DirectoryNotFound(parent.clone()));
            }
            if !facts.parent_is_dir {
                return Err(StorageError::NotADirectory(parent.clone()));
            }
        },
        None => {},
    }
    if facts.exists {
        return Err(StorageError::FileAlreadyExists(v));
    }
    if temp_exists {
        return Err(StorageError::UploadInProgress(v));
    }
    let temp = temp_path_for(real_path.as_str());
    Ok((real_path, temp))
}

/// What checking a deletion gives: the real path of the file to remove,
/// once the name is non-empty, the path resolves within the server root,
/// and the path is an existing regular file.
pub open spec fn deletion_spec(
    root: Seq<char>,
    cwd: Seq<char>,
    filename: Seq<char>,
    f: PathFactsView,
    root_canonical: Option<Seq<char>>,
    max_depth: usize,
) -> Result<Seq<char>, StorageErrorView> {
    retrieval_spec(root, cwd, filename, f, root_canonical, max_depth)
}

/// Checks a file deletion: the name must be non-empty, the path must
/// resolve within the server root and be an existing regular file. Returns
/// the real path to remove; the removal itself, tried again after a
/// permission error as [`retry_delay_ms`] says, is left to the caller.
pub fn delete_file(
    server_root: &str,
    current_virtual_path: &str,
    filename: &str,
    facts: &PathFacts,
    root_canonical: Option<&str>,
    max_depth: usize,
) -> (r: Result<String, StorageError>)
    ensures
        storage_result(r) == deletion_spec(
            server_root@,
            current_virtual_path@,
            filename@,
            facts@,
            crate::storage::validation::opt_view(root_canonical),
            max_depth,
        ),
{
    prepare_file_retrieval(server_root, current_virtual_path, filename, facts, root_canonical, max_depth)
}

/// A listing holds every entry read, in the order read, after `.|0|0` and,
/// away from the root, `..|0|0`: one line more than there are entries at
/// the root, two more elsewhere.
pub proof fn law_listing_lists_every_entry(cwd: Seq<char>, entries: Seq<DirEntryInfo>)
    ensures
        ({
            let l = listing_lines(cwd, entries);
            let k: int = if cwd == seq!['/'] { 1 } else { 2 };
            &&& l.len() == entries.len() + k
            &&& l[0] == ".|0|0"@
            &&& cwd != seq!['/'] ==> l[1] == "..|0|0"@
            &&& forall|i: int| 0 <= i < entries.len() ==> #[trigger] l[k + i] == listing_line(entries[i])
            &&& forall|i: int| 0 <= i < entries.len() ==> l.contains(listing_line(#[trigger] entries[i]))
        }),
{
    let l = listing_lines(cwd, entries);
    let k: int = if cwd == seq!['/'] { 1 } else { 2 };
    assert forall|i: int| 0 <= i < entries.len() implies l.contains(listing_line(#[trigger] entries[i])) by {
        assert(l[k + i] == listing_line(entries[i]));
    }
}

/// The line of an entry names it and gives, for a regular file, its size
/// and modification time; for a directory, its name with `/`, size 0 and its
/// modification time; without metadata, size and time 0.
pub proof fn law_listing_line_fields(e: DirEntryInfo)
    ensures
        e.metadata matches Some(m) ==> listing_line(e) == if m.is_dir {
            e.name@ + "/|0|"@ + decimal(m.modified_secs as nat)
        } else {
            e.name@ + "|"@ + decimal(m.len as nat) + "|"@ + decimal(m.modified_secs as nat)
        },
        e.metadata is None ==> listing_line(e) == e.name@ + "|0|0"@,
{
    if let Some(m) = e.metadata {
        if !m.is_dir {
            assert(seq!['|'] =~= "|"@) by {
                reveal_strlit("|");
            }
        }
    }
}

/// A retrieval succeeds exactly for a non-empty name that resolves, against
/// the current directory, to a path within the server root naming an
/// existing regular file; it then gives the real path of that resolved
/// path.
pub proof fn law_retrieval_targets_working_directory(
    root: Seq<char>,
    cwd: Seq<char>,
    name: Seq<char>,
    f: PathFactsView,
    root_canonical: Option<Seq<char>>,
    max_depth: usize,
)
    ensures
        retrieval_spec(root, cwd, name, f, root_canonical, max_depth) matches Ok(p) ==> {
            &&& resolve_file_spec(cwd, name, max_depth) matches Ok(v)
            &&& p == real_path_spec(root, v)
            &&& f.exists && f.is_file
        },
        (name.len() > 0 && resolve_file_spec(cwd, name, max_depth) is Ok && bounds_check(
            root_canonical,
            f.canonical,
            f.parent_canonical,
        ) is Ok && f.exists && f.is_file) ==> retrieval_spec(root, cwd, name, f, root_canonical, max_depth)
            == Ok::<Seq<char>, StorageErrorView>(
            real_path_spec(root, resolve_file_spec(cwd, name, max_depth)->Ok_0),
        ),
{
}

/// A deletion succeeds exactly for a non-empty name that resolves, against
/// the current directory, to a path within the server root naming an
/// existing regular file; the path it gives to remove is the real path of
/// that resolved path.
pub proof fn law_deletion_targets_working_directory(
    root: Seq<char>,
    cwd: Seq<char>,
    name: Seq<char>,
    f: PathFactsView,
    root_canonical: Option<Seq<char>>,
    max_depth: usize,
)
    ensures
        deletion_spec(root, cwd, name, f, root_canonical, max_depth) matches Ok(p) ==> {
            &&& resolve_file_spec(cwd, name, max_depth) matches Ok(v)
            &&& p == real_path_spec(root, v)
            &&& f.exists && f.is_file
        },
        (name.len() > 0 && resolve_file_spec(cwd, name, max_depth) is Ok && bounds_check(
            root_canonical,
            f.canonical,
            f.parent_canonical,
        ) is Ok && f.exists && f.is_file) ==> deletion_spec(root, cwd, name, f, root_canonical, max_depth)
            == Ok::<Seq<char>, StorageErrorView>(
            real_path_spec(root, resolve_file_spec(cwd, name, max_depth)->Ok_0),
        ),
{
}

/// An upload is prepared only for a non-empty name that resolves, against
/// the current directory, to a path within the server root where no file
/// and no upload in progress exist yet; the file lands at the real path of
/// that resolved path, and is first written to that path's temporary path.
pub proof fn law_storage_targets_working_directory(
    root: Seq<char>,
    cwd: Seq<char>,
    name: Seq<char>,
    f: PathFactsView,
    root_canonical: Option<Seq<char>>,
    temp_exists: bool,
    max_depth: usize,
)
    ensures
        storage_spec(root, cwd, name, f, root_canonical, temp_exists, max_depth) matches Ok((p, t)) ==> {
            &&& resolve_file_spec(cwd, name, max_depth) matches Ok(v)
            &&& p == real_path_spec(root, v)
            &&& t == temp_path_spec(p)
            &&& !f.exists
            &&& !temp_exists
        },
        (name.len() > 0 && resolve_file_spec(cwd, name, max_depth) is Ok && bounds_check(
            root_canonical,
            f.canonical,
            f.parent_canonical,
        ) is Ok && (f.parent is Some ==> f.parent_exists && f.parent_is_dir) && !f.exists && !temp_exists)
            ==> storage_spec(root, cwd, name, f, root_canonical, temp_exists, max_depth) is Ok,
{
}

} // verus!
