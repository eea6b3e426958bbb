//! What `clone` makes of its argument: the URL to fetch and the path to put the submodule at.
//!
//! Three forms are understood: a full URL (`https://`, `ssh://` or `git@`), the shorthand
//! `owner/repo` for a repository on github.com, and `host/owner/repo`.

use crate::text::{
    chars_of, count_char, count_of, push_range, replace_char, replace_from, skip_leading,
    skip_trailing, starts_with_at, trim_end_matches, trim_start_matches,
};
use vstd::prelude::*;

verus! {

/// The argument is in none of the forms that `clone` understands.
#[derive(Debug)]
pub struct UrlError {
    pub input: String,
}

/// Whether `url` begins like a full URL.
pub open spec fn is_full_url(url: Seq<char>) -> bool {
    "https://"@.is_prefix_of(url) || "git@"@.is_prefix_of(url) || "ssh://"@.is_prefix_of(url)
}

/// Whether `url` is `owner/repo`: one slash, with something on both sides of it.
pub open spec fn is_owner_repo(url: Seq<char>) -> bool {
    count_char(url, '/') == 1 && url.first() != '/' && url.last() != '/'
}

/// Whether `url` has the slashes of `host/owner/repo`: two or more.
pub open spec fn is_host_path(url: Seq<char>) -> bool {
    count_char(url, '/') >= 2
}

/// What is left of a full URL as a path: the scheme and the `git@` user are taken off the
/// front, every `:` becomes `/`, and `.git` is taken off the end.
pub open spec fn url_tail(url: Seq<char>) -> Seq<char> {
    let unschemed = trim_start_matches(
        trim_start_matches(trim_start_matches(url, "https://"@), "ssh://"@),
        "git@"@,
    );
    trim_end_matches(replace_char(unschemed, ':', '/'), ".git"@)
}

/// The path under `root` at which the repository of a full URL goes.
pub open spec fn path_of_url(url: Seq<char>, root: Seq<char>) -> Seq<char> {
    root + "/"@ + url_tail(url)
}

/// The URL to fetch and the path to use for the argument `url`, or nothing where it is in
/// no known form.
pub open spec fn parsed(url: Seq<char>, root: Seq<char>) -> Option<(Seq<char>, Seq<char>)> {
    if is_full_url(url) {
        Some((url, path_of_url(url, root)))
    } else if is_owner_repo(url) {
        Some(("https://github.com/"@ + url, root + "/github.com/"@ + url))
    } else if is_host_path(url) {
        Some(("https://"@ + url, root + "/"@ + url))
    } else {
        None
    }
}

impl UrlError {
    /// What went wrong, in one line.
    pub fn message(&self) -> (r: String)
        ensures
            r@ == "Could not parse URL: "@ + self.input@
                + ". Use owner/repo, github.com/user/repo, or a full git URL."@,
    {
        String::from_str("Could not parse URL: ").concat(self.input.as_str()).concat(
            ". Use owner/repo, github.com/user/repo, or a full git URL.",
        )
    }
}

fn begins_with(s: &Vec<char>, prefix: &str) -> (b: bool)
    ensures
        b == prefix@.is_prefix_of(s@),
{
    let p = chars_of(prefix);
    assert(s@.skip(0) =~= s@);
    starts_with_at(s, 0, &p)
}

/// The path under `root` for the repository at the full URL `url`. This never fails.
pub fn url_to_path(url: &str, root: &str) -> (r: Result<String, UrlError>)
    ensures
        r matches Ok(path) && path@ == path_of_url(url@, root@),
{
    let u = chars_of(url);
    assert(u@.skip(0) =~= u@);
    let a = skip_leading(&u, 0, &chars_of("https://"));
    let b = skip_leading(&u, a, &chars_of("ssh://"));
    let c = skip_leading(&u, b, &chars_of("git@"));
    let slashed = replace_from(&u, c, ':', '/');
    assert(slashed@.take(slashed@.len() as int) =~= slashed@);
    let end = skip_trailing(&slashed, slashed.len(), &chars_of(".git"));
    let mut path = String::from_str(root).concat("/");
    push_range(&mut path, &slashed, 0, end);
    assert(slashed@.subrange(0, end as int) =~= slashed@.take(end as int));
    Ok(path)
}

/// The URL to fetch and the path under `root` for the argument `url`.
pub fn parse_url_and_path(url: &str, root: &str) -> (r: Result<(String, String), UrlError>)
    ensures
        match r {
            Ok((git_url, path)) => parsed(url@, root@) == Some((git_url@, path@)),
            Err(e) => parsed(url@, root@) is None && e.input@ == url@,
        },
{
    let u = chars_of(url);
    if begins_with(&u, "https://") || begins_with(&u, "git@") || begins_with(&u, "ssh://") {
        return match url_to_path(url, root) {
            Ok(path) => Ok((String::from_str(url), path)),
            Err(e) => Err(e),
        };
    }
    let slashes = count_of(&u, '/');
    if slashes == 1 && u[0] != '/' && u[u.len() - 1] != '/' {
        let git_url = String::from_str("https://github.com/").concat(url);
        let path = String::from_str(root).concat("/github.com/").concat(url);
        return Ok((git_url, path));
    }
    if slashes >= 2 {
        let git_url = String::from_str("https://").concat(url);
        let path = String::from_str(root).concat("/").concat(url);
        return Ok((git_url, path));
    }
    Err(UrlError { input: String::from_str(url) })
}

/// The message of the commit that records a submodule added at `sub_path`.
pub fn commit_message(sub_path: &str) -> (msg: String)
    ensures
        msg@ == "Add submodule: "@ + sub_path@,
{
    String::from_str("Add submodule: ").concat(sub_path)
}

} // verus!
