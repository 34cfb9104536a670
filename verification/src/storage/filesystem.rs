//! Facts about file-system paths, as gathered by the caller before a
//! storage decision is made.
use vstd::prelude::*;

verus! {

/// What kind of file-system object a path names. A path is never both a
/// regular file and a directory.
#[derive(Debug, Clone, Copy, PartialEq, Eq, Structural)]
pub enum PathKind {
    /// A regular file.
    File,
    /// A directory.
    Directory,
    /// Anything else, or nothing.
    Other,
}

/// What the file system says about a real path and its parent directory.
pub struct PathFacts {
    /// The path exists.
    pub exists: bool,
    /// What the path names.
    pub kind: PathKind,
    /// The canonical form of the path, if it could be computed.
    pub canonical: Option<String>,
    /// The parent directory of the path, if it has one.
    pub parent: Option<String>,
    /// The parent directory exists.
    pub parent_exists: bool,
    /// The parent directory is a directory.
    pub parent_is_dir: bool,
    /// The canonical form of the parent directory, if it could be computed.
    pub parent_canonical: Option<String>,
}

/// The mathematical value of [`PathFacts`].
pub struct PathFactsView {
    pub exists: bool,
    pub is_file: bool,
    pub is_dir: bool,
    pub canonical: Option<Seq<char>>,
    pub parent: Option<Seq<char>>,
    pub parent_exists: bool,
    pub parent_is_dir: bool,
    pub parent_canonical: Option<Seq<char>>,
}

/// The view of an optional string.
pub open spec fn opt_string(o: Option<String>) -> Option<Seq<char>> {
    match o {
        Some(s) => Some(s@),
        None => None,
    }
}

impl View for PathFacts {
    type V = PathFactsView;

    open spec fn view(&self) -> PathFactsView {
        PathFactsView {
            exists: self.exists,
            is_file: self.kind is File,
            is_dir: self.kind is Directory,
            canonical: opt_string(self.canonical),
            parent: opt_string(self.parent),
            parent_exists: self.parent_exists,
            parent_is_dir: self.parent_is_dir,
            parent_canonical: opt_string(self.parent_canonical),
        }
    }
}

/// Borrows the text of an optional string.
pub fn opt_str(o: &Option<String>) -> (r: Option<&str>)
    ensures
        crate::storage::validation::opt_view(r) == opt_string(*o),
{
    match o {
        Some(s) => Some(s.as_str()),
        None => None,
    }
}

/// Whether the facts say the path is a regular file.
pub fn is_file(facts: &PathFacts) -> (b: bool)
    ensures
        b == facts@.is_file,
{
    match facts.kind {
        PathKind::File => true,
        _ => false,
    }
}

/// Whether the facts say the path is a directory.
pub fn is_dir(facts: &PathFacts) -> (b: bool)
    ensures
        b == facts@.is_dir,
{
    match facts.kind {
        PathKind::Directory => true,
        _ => false,
    }
}

/// Whether a path is an existing regular file.
pub fn file_exists(facts: &PathFacts) -> (b: bool)
    ensures
        b == (facts@.exists && facts@.is_file),
{
    facts.exists && is_file(facts)
}

/// Whether a path is an existing directory.
pub fn directory_exists(facts: &PathFacts) -> (b: bool)
    ensures
        b == (facts@.exists && facts@.is_dir),
{
    facts.exists && is_dir(facts)
}

/// A path is never both an existing regular file and an existing
/// directory.
pub proof fn law_file_or_directory(facts: PathFacts)
    ensures
        !(facts@.exists && facts@.is_file && facts@.exists && facts@.is_dir),
{
}

} // verus!
