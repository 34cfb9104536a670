//! Changing the working directory of a client.
use crate::error::types::{NavigateError, NavigateErrorView};
use crate::storage::filesystem::{is_dir, PathFacts, PathFactsView};
use crate::storage::validation::{opt_view, path_has_prefix, path_starts_with, resolve_cwd_path, resolve_cwd_spec};
use crate::text::{chars_of, string_from_chars};
use vstd::prelude::*;

verus! {

/// The view of a navigation result.
pub open spec fn navigate_result(r: Result<String, NavigateError>) -> Result<Seq<char>, NavigateErrorView> {
    match r {
        Ok(s) => Ok(s@),
        Err(e) => Err(e@),
    }
}

/// What changing the working directory gives: the new virtual directory,
/// once the target is non-empty, resolves to a valid path, and that path
/// is an existing directory whose canonical form lies within the canonical
/// server root. `f` describes the real path the new directory maps to.
pub open spec fn change_directory_spec(
    cwd: Seq<char>,
    target: Seq<char>,
    f: PathFactsView,
    root_canonical: Option<Seq<char>>,
    max_depth: usize,
) -> Result<Seq<char>, NavigateErrorView> {
    if target.len() == 0 {
        Err(NavigateErrorView::InvalidPath("Empty path provided"@))
    } else {
        match resolve_cwd_spec(cwd, target, max_depth) {
            Err(e) => Err(NavigateErrorView::InvalidPath(e)),
            Ok(v) => if !f.exists {
                Err(NavigateErrorView::DirectoryNotFound(v))
            } else if !f.is_dir {
                Err(NavigateErrorView::NotADirectory(v))
            } else {
                match f.canonical {
                    None => Err(NavigateErrorView::PermissionDenied(v)),
                    Some(c) => match root_canonical {
                        None => Err(NavigateErrorView::InvalidPath("Server root invalid"@)),
                        Some(root) => if path_has_prefix(c, root) {
                            Ok(v)
                        } else {
                            Err(NavigateErrorView::PathTraversal(target))
                        },
                    },
                }
            },
        }
    }
}

/// Changes the working directory of a client: resolves `target_path`
/// against the current virtual directory and checks, from `facts` about the
/// real path it maps to and the canonical server root, that it is an
/// existing directory within the server root; paths deeper than
/// `max_depth` are refused. Returns the new virtual directory.
pub fn change_directory(
    current_virtual_path: &str,
    target_path: &str,
    facts: &PathFacts,
    root_canonical: Option<&str>,
    max_depth: usize,
) -> (r: Result<String, NavigateError>)
    ensures
        navigate_result(r) == change_directory_spec(
            current_virtual_path@,
            target_path@,
            facts@,
            opt_view(root_canonical),
            max_depth,
        ),
{
    if target_path.is_empty() {
        return Err(NavigateError::InvalidPath(string_from_chars(&chars_of("Empty path provided"))));
    }
    let v = match resolve_cwd_path(current_virtual_path, target_path, max_depth) {
        Ok(v) => v,
        Err(e) => {
            return Err(NavigateError::InvalidPath(e));
        },
    };
    if !facts.exists {
        return Err(NavigateError::DirectoryNotFound(v));
    }
    if !is_dir(facts) {
        return Err(NavigateError::NotADirectory(v));
    }
    match &facts.canonical {
        None => Err(NavigateError::PermissionDenied(v)),
        Some(c) => match root_canonical {
            None => Err(NavigateError::InvalidPath(string_from_chars(&chars_of("Server root invalid")))),
            Some(root) => {
                if path_starts_with(c.as_str(), root) {
                    Ok(v)
                } else {
                    Err(NavigateError::PathTraversal(string_from_chars(&chars_of(target_path))))
                }
            },
        },
    }
}

/// A change of directory succeeds exactly for a non-empty target that
/// resolves, against the current directory, to a valid path naming an
/// existing directory whose canonical form lies within the canonical server
/// root; the new directory is that resolved path.
pub proof fn law_cwd_moves_to_resolved_directory(
    cwd: Seq<char>,
    target: Seq<char>,
    f: PathFactsView,
    root_canonical: Option<Seq<char>>,
    max_depth: usize,
)
    ensures
        change_directory_spec(cwd, target, f, root_canonical, max_depth) matches Ok(v) ==> {
            &&& resolve_cwd_spec(cwd, target, max_depth) == Ok::<Seq<char>, Seq<char>>(v)
            &&& f.exists && f.is_dir
            &&& root_canonical matches Some(r) && f.canonical matches Some(c) && path_has_prefix(c, r)
        },
        (target.len() > 0 && resolve_cwd_spec(cwd, target, max_depth) is Ok && f.exists && f.is_dir
            && root_canonical is Some && f.canonical is Some && path_has_prefix(
            f.canonical->0,
            root_canonical->0,
        )) ==> change_directory_spec(cwd, target, f, root_canonical, max_depth) == Ok::<
            Seq<char>,
            NavigateErrorView,
        >(resolve_cwd_spec(cwd, target, max_depth)->Ok_0),
{
}

} // verus!
