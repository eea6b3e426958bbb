//! What this crate takes on trust: the `git2` and `std::path` types it holds, and one thin
//! wrapper for each call it makes into them.
//!
//! Almost every wrapper reads a repository on disk. Nothing is claimed of what such a read
//! returns; the verified code that calls it is correct for whatever comes back.

use crate::submodule::{DeclaredSubmodule, DeltaIds, HeadCommit, HeadState};
use std::path::PathBuf;
use vstd::prelude::*;

verus! {

#[verifier::external_type_specification]
#[verifier::external_body]
pub struct ExRepository(git2::Repository);

#[verifier::external_type_specification]
#[verifier::external_body]
pub struct ExGitError(git2::Error);

#[verifier::external_type_specification]
#[verifier::external_body]
pub struct ExReference<'repo>(git2::Reference<'repo>);

#[verifier::external_type_specification]
#[verifier::external_body]
pub struct ExTree<'repo>(git2::Tree<'repo>);

#[verifier::external_type_specification]
#[verifier::external_body]
pub struct ExPathBuf(PathBuf);

/// `git2::Repository::submodules`, with each entry reduced to what `Submodule::name`,
/// `Submodule::path` and `Submodule::url` give for it, the path also as text (`Path::to_str`).
/// A name, path text or URL that is not valid UTF-8, and a URL that is not set, come back
/// as `None`. A declaration that cannot be looked up fails the call.
#[verifier::external_body]
pub(crate) fn read_submodules(repo: &git2::Repository) -> (r: Result<
    Vec<DeclaredSubmodule>,
    git2::Error,
>) {
    let subs = repo.submodules()?;
    Ok(
        subs.iter().map(
            |sm|
                DeclaredSubmodule {
                    name: sm.name().ok().map(|s| s.to_string()),
                    path: sm.path().to_path_buf(),
                    path_text: sm.path().to_str().map(|s| s.to_string()),
                    url: sm.url().ok().flatten().map(|s| s.to_string()),
                },
        ).collect(),
    )
}

/// `git2::Repository::workdir`: the working directory, or `None` for a bare repository.
#[verifier::external_body]
pub(crate) fn workdir_of(repo: &git2::Repository) -> (r: Option<PathBuf>) {
    repo.workdir().map(|p| p.to_path_buf())
}

/// `git2::Repository::open`.
#[verifier::external_body]
pub(crate) fn open_repository(path: &PathBuf) -> (r: Result<git2::Repository, git2::Error>) {
    git2::Repository::open(path)
}

/// `git2::Error::message`.
#[verifier::external_body]
pub(crate) fn error_message(e: &git2::Error) -> (r: String) {
    e.message().to_string()
}

/// `git2::Repository::head`: the reference that HEAD resolves to, or `None` where it
/// cannot be resolved.
#[verifier::external_body]
pub(crate) fn repository_head<'repo>(repo: &'repo git2::Repository) -> (r: Option<
    git2::Reference<'repo>,
>) {
    repo.head().ok()
}

/// `git2::Repository::find_reference`: the reference of that full name, or `None` where
/// there is none.
#[verifier::external_body]
pub(crate) fn find_reference<'repo>(repo: &'repo git2::Repository, name: &str) -> (r: Option<
    git2::Reference<'repo>,
>) {
    repo.find_reference(name).ok()
}

/// What `Reference::is_branch`, `Reference::shorthand` and `Reference::target` give for a
/// reference, the target as the hexadecimal text that `Oid` displays. A short name that is
/// not valid UTF-8 comes back as `None`.
#[verifier::external_body]
pub(crate) fn reference_state(reference: &git2::Reference<'_>) -> (r: HeadState) {
    HeadState {
        is_branch: reference.is_branch(),
        shorthand: reference.shorthand().ok().map(|s| s.to_string()),
        target: reference.target().map(|oid| oid.to_string()),
    }
}

/// `git2::Reference::peel_to_commit`, reduced to what `Commit::id` (as the hexadecimal
/// text that `Oid` displays) and `Commit::summary` give, a summary that is not valid UTF-8
/// as `None`. `None` where the reference does not lead to a commit.
#[verifier::external_body]
pub(crate) fn reference_commit(reference: &git2::Reference<'_>) -> (r: Option<HeadCommit>) {
    reference.peel_to_commit().ok().map(
        |c|
            HeadCommit {
                id: c.id().to_string(),
                summary: c.summary().ok().flatten().map(|s| s.to_string()),
            },
    )
}

/// `git2::Reference::peel_to_tree`, or `None` where the reference does not lead to a tree.
#[verifier::external_body]
pub(crate) fn reference_tree<'repo>(reference: &git2::Reference<'repo>) -> (r: Option<
    git2::Tree<'repo>,
>) {
    reference.peel_to_tree().ok()
}

/// `git2::Repository::statuses`, each entry reduced to the bits of `StatusEntry::status`.
/// With `Some(b)` the options are `StatusOptions::new` with `include_untracked(b)`; with
/// `None` the call is made without options.
#[verifier::external_body]
pub(crate) fn read_status_flags(repo: &git2::Repository, include_untracked: Option<bool>) -> (r:
    Result<Vec<u32>, git2::Error>) {
    let mut opts = include_untracked.map(
        |b|
            {
                let mut o = git2::StatusOptions::new();
                o.include_untracked(b);
                o
            },
    );
    let statuses = repo.statuses(opts.as_mut())?;
    Ok(statuses.iter().map(|e| e.status().bits()).collect())
}

/// `git2::Repository::graph_ahead_behind` on two object ids given as hexadecimal text
/// (`Oid::from_str`): the commits only `local` reaches, then those only `upstream` reaches.
/// `None` where an id does not parse or the graph cannot be walked.
#[verifier::external_body]
pub(crate) fn graph_ahead_behind(repo: &git2::Repository, local: &str, upstream: &str) -> (r:
    Option<(usize, usize)>) {
    let local = git2::Oid::from_str(local).ok()?;
    let upstream = git2::Oid::from_str(upstream).ok()?;
    repo.graph_ahead_behind(local, upstream).ok()
}

/// `git2::Repository::diff_tree_to_index` against the repository's own index, limited to
/// `pathspec` (`DiffOptions::pathspec`): of each delta the ids of its old and new side
/// (`DiffDelta::old_file`, `DiffDelta::new_file`, `DiffFile::id`) as the hexadecimal text
/// that `Oid` displays, or `None` where the diff fails. `DiffOptions::pathspec` panics on
/// a NUL character, so none may occur.
#[verifier::external_body]
pub(crate) fn deltas_tree_to_index(
    repo: &git2::Repository,
    tree: Option<&git2::Tree<'_>>,
    pathspec: &str,
) -> (r: Option<Vec<DeltaIds>>)
    requires
        !pathspec@.contains('\0'),
{
    let mut opts = git2::DiffOptions::new();
    opts.pathspec(pathspec);
    let diff = repo.diff_tree_to_index(tree, None, Some(&mut opts)).ok()?;
    Some(
        diff.deltas().map(
            |d|
                DeltaIds {
                    old_id: d.old_file().id().to_string(),
                    new_id: d.new_file().id().to_string(),
                },
        ).collect(),
    )
}

/// `git2::Repository::diff_index_to_workdir` from the repository's own index, limited to
/// `pathspec` (`DiffOptions::pathspec`): of each delta the ids of its old and new side
/// (`DiffDelta::old_file`, `DiffDelta::new_file`, `DiffFile::id`) as the hexadecimal text
/// that `Oid` displays, or `None` where the diff fails. `DiffOptions::pathspec` panics on
/// a NUL character, so none may occur.
#[verifier::external_body]
pub(crate) fn deltas_index_to_workdir(repo: &git2::Repository, pathspec: &str) -> (r: Option<
    Vec<DeltaIds>,
>)
    requires
        !pathspec@.contains('\0'),
{
    let mut opts = git2::DiffOptions::new();
    opts.pathspec(pathspec);
    let diff = repo.diff_index_to_workdir(None, Some(&mut opts)).ok()?;
    Some(
        diff.deltas().map(
            |d|
                DeltaIds {
                    old_id: d.old_file().id().to_string(),
                    new_id: d.new_file().id().to_string(),
                },
        ).collect(),
    )
}

/// `git2::Repository::config` followed by `Config::get_string`: the value of `key`, or
/// `None` where it is not set or cannot be read. Fails where the configuration itself
/// does not open.
#[verifier::external_body]
pub(crate) fn config_string(repo: &git2::Repository, key: &str) -> (r: Result<
    Option<String>,
    git2::Error,
>) {
    let config = repo.config()?;
    Ok(config.get_string(key).ok())
}

/// `Path::join`.
#[verifier::external_body]
pub(crate) fn join_path(base: &PathBuf, relative: &PathBuf) -> (r: PathBuf) {
    base.join(relative)
}

/// `Path::exists`.
#[verifier::external_body]
pub(crate) fn path_exists(path: &PathBuf) -> (r: bool) {
    path.exists()
}

/// `Path::display`, written out.
#[verifier::external_body]
pub(crate) fn path_display(path: &PathBuf) -> (r: String) {
    path.display().to_string()
}

/// `PathBuf::clone`: the copy is the same path.
#[verifier::external_body]
pub(crate) fn clone_path(path: &PathBuf) -> (r: PathBuf)
    ensures
        r == *path,
{
    path.clone()
}

} // verus!
