//! What `pull` runs and records once submodules were updated from their upstreams.

use crate::config::CommitMode;
use crate::submodule::filter_of;
use crate::text::{join, joined, texts, trim, trimmed};
use vstd::prelude::*;

verus! {

/// The arguments that update every submodule, or the one named, from its upstream.
pub open spec fn update_arguments(name: Option<Seq<char>>) -> Seq<Seq<char>> {
    let all = seq!["submodule"@, "update"@, "--remote"@, "--merge"@];
    match name {
        Some(n) => all + seq!["--"@, n],
        None => all,
    }
}

/// The message of the commit that records the updated submodules.
pub open spec fn update_message(updated: Seq<Seq<char>>) -> Seq<char> {
    "Update submodule(s): "@ + joined(updated, ", "@)
}

/// The arguments to hand to `git` for the update.
pub fn update_args(name: Option<&str>) -> (args: Vec<String>)
    ensures
        texts(args@) == update_arguments(filter_of(name)),
{
    let mut args: Vec<String> = Vec::new();
    args.push(String::from_str("submodule"));
    args.push(String::from_str("update"));
    args.push(String::from_str("--remote"));
    args.push(String::from_str("--merge"));
    if let Some(n) = name {
        args.push(String::from_str("--"));
        args.push(String::from_str(n));
    }
    assert(texts(args@) =~= update_arguments(filter_of(name)));
    args
}

/// Whether `listing`, taken as it is, names anything: whether it is not empty.
pub fn names_a_path(listing: &str) -> (b: bool)
    ensures
        b == (listing@.len() > 0),
{
    listing.unicode_len() > 0
}

/// Whether the list of changed paths that `git diff --name-only` printed for a submodule
/// names anything, whitespace aside.
pub fn pointer_moved(changed_paths: &str) -> (moved: bool)
    ensures
        moved == (trimmed(changed_paths@).len() > 0),
{
    let listing = trim(changed_paths);
    names_a_path(listing.as_str())
}

/// The message of the commit that records the submodules named in `updated`.
pub fn commit_message(updated: &Vec<String>) -> (msg: String)
    ensures
        msg@ == update_message(texts(updated@)),
{
    let names = join(updated, ", ");
    String::from_str("Update submodule(s): ").concat(names.as_str())
}

/// The commit mode to act on: the one given on the command line, else the configured one.
pub fn effective_mode(chosen: Option<CommitMode>, configured: CommitMode) -> (mode: CommitMode)
    ensures
        mode == match chosen {
            Some(m) => m,
            None => configured,
        },
{
    match chosen {
        Some(m) => m,
        None => configured,
    }
}

} // verus!
