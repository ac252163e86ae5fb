//! Derivation of the default worktree location from the working directory.

use vstd::prelude::*;
use crate::text::{decimal, decimal_text};

verus! {

/// The final component of the path `p`, where it has one. This is the answer
/// of `std::path::Path::file_name` on the platform the crate is built for,
/// which this library takes as given.
pub uninterp spec fn path_file_name(p: Seq<char>) -> Option<Seq<char>>;

/// The path `p` without its final component, where it has one. This is the
/// answer of `std::path::Path::parent`, which this library takes as given.
pub uninterp spec fn path_parent(p: Seq<char>) -> Option<Seq<char>>;

/// The path `base` with `tail` adjoined. This is the answer of
/// `std::path::Path::join`, which this library takes as given.
pub uninterp spec fn path_joined(base: Seq<char>, tail: Seq<char>) -> Seq<char>;

/// The directory in which the default worktree is placed: the parent of the
/// working directory, or `.` where it has none.
pub open spec fn parent_or_here(cwd: Seq<char>) -> Seq<char> {
    match path_parent(cwd) {
        Some(p) => p,
        None => "."@,
    }
}

/// The repository's name as the working directory gives it, or `repo` where
/// the directory has no final component.
pub open spec fn repo_name(cwd: Seq<char>) -> Seq<char> {
    match path_file_name(cwd) {
        Some(n) => n,
        None => "repo"@,
    }
}

/// The final component of a default worktree: the repository's name, `-af-`
/// and the process id.
pub open spec fn worktree_leaf(name: Seq<char>, pid: nat) -> Seq<char> {
    name + "-af-"@ + decimal_text(pid)
}

/// The default worktree path for a working directory and a process id: a
/// sibling of the working directory.
pub open spec fn default_worktree_path(cwd: Seq<char>, pid: nat) -> Seq<char> {
    path_joined(parent_or_here(cwd), worktree_leaf(repo_name(cwd), pid))
}

/// Calls `Path::file_name`. Trusted: the outcome depends on the path alone,
/// and is the one that `path_file_name` names.
#[verifier::external_body]
fn file_name(p: &str) -> (r: Option<String>)
    ensures
        r.deep_view() == path_file_name(p@),
{
    std::path::Path::new(p).file_name().and_then(|s| s.to_str()).map(|s| s.to_string())
}

/// Calls `Path::parent`. Trusted: the outcome depends on the path alone, and
/// is the one that `path_parent` names.
#[verifier::external_body]
fn parent(p: &str) -> (r: Option<String>)
    ensures
        r.deep_view() == path_parent(p@),
{
    std::path::Path::new(p).parent().map(|q| q.to_string_lossy().into_owned())
}

/// Calls `Path::join`. Trusted: the outcome depends on the two paths alone,
/// and is the one that `path_joined` names; since joining either extends
/// `base` by `tail` or replaces it with `tail`, a tail that is not empty
/// gives a path that is not empty.
#[verifier::external_body]
fn join(base: &str, tail: &str) -> (r: String)
    ensures
        r@ == path_joined(base@, tail@),
        tail@.len() > 0 ==> r@.len() > 0,
{
    std::path::Path::new(base).join(tail).to_string_lossy().into_owned()
}

/// Builds the final component of a default worktree from the repository's
/// name, where the working directory gave one.
pub fn leaf_for(name: Option<String>, pid: u32) -> (r: String)
    ensures
        r@ == worktree_leaf(
            match name.deep_view() {
                Some(n) => n,
                None => "repo"@,
            },
            pid as nat,
        ),
        r@.len() > 0,
{
    proof {
        reveal_strlit("-af-");
    }
    let mut leaf = match name {
        Some(n) => n,
        None => String::from_str("repo"),
    };
    leaf.append("-af-");
    let id = decimal(pid);
    leaf.append(id.as_str());
    leaf
}

/// Computes the default worktree path for the working directory `cwd`. It
/// is never empty.
pub fn default_target(cwd: &str, pid: u32) -> (r: String)
    ensures
        r@ == default_worktree_path(cwd@, pid as nat),
        r@.len() > 0,
{
    let leaf = leaf_for(file_name(cwd), pid);
    let dir = match parent(cwd) {
        Some(p) => p,
        None => String::from_str("."),
    };
    join(dir.as_str(), leaf.as_str())
}

} // verus!
