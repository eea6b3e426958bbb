//! Per-submodule status snapshots of a parent repository.
//!
//! [`discover`] lists the submodules that the parent declares and, for each one, reconciles
//! what the nested repository, its working tree, its upstream branch and the parent's own
//! index say into one [`SubmoduleInfo`]. Reading is kept apart from deciding: what is read
//! from a repository is held as plain values ([`DeclaredSubmodule`], [`HeadState`],
//! [`HeadCommit`], [`RepoObservation`]), and the record is a function of those values.

use crate::git::{
    clone_path, deltas_index_to_workdir, deltas_tree_to_index, error_message, find_reference,
    graph_ahead_behind, join_path, open_repository, path_display, path_exists,
    read_status_flags, read_submodules, reference_commit, reference_state, reference_tree,
    repository_head, workdir_of,
};
use crate::status::{count_modified, count_staged, count_statuses, count_untracked, StatusCounts};
use crate::text::{
    has_char, leading_chars, prefix_of_len, same_text, text_of, text_or_empty,
};
use std::path::PathBuf;
use vstd::prelude::*;

verus! {

/// Number of characters of an abbreviated commit id.
pub const SHORT_ID_LEN: usize = 7;

/// The status snapshot of one submodule.
#[derive(Debug)]
pub struct SubmoduleInfo {
    pub name: String,
    pub path: PathBuf,
    pub url: String,
    pub branch: Option<String>,
    pub head_commit: Option<String>,
    pub head_message: Option<String>,
    pub is_dirty: bool,
    pub ahead: usize,
    pub behind: usize,
    pub staged: usize,
    pub modified: usize,
    pub untracked: usize,
    pub parent_changed: bool,
}

/// A submodule as the parent's configuration declares it.
#[derive(Debug)]
pub struct DeclaredSubmodule {
    pub name: Option<String>,
    pub path: PathBuf,
    /// The path as text. `None` where it is not valid UTF-8.
    pub path_text: Option<String>,
    pub url: Option<String>,
}

/// What HEAD of a repository resolves to.
#[derive(Debug)]
pub struct HeadState {
    /// Whether the reference is a local branch.
    pub is_branch: bool,
    /// The short name of the reference.
    pub shorthand: Option<String>,
    /// The id of the object it points at directly, in hexadecimal.
    pub target: Option<String>,
}

/// The commit that HEAD of a repository leads to.
#[derive(Debug)]
pub struct HeadCommit {
    /// The commit's id, in hexadecimal.
    pub id: String,
    /// The first paragraph of its message.
    pub summary: Option<String>,
}

/// Everything read from one nested repository.
#[derive(Debug)]
pub struct RepoObservation {
    pub head: Option<HeadState>,
    pub commit: Option<HeadCommit>,
    /// The status flags of each entry of the working tree.
    pub statuses: Vec<u32>,
    /// The id of the object that the upstream tracking reference points at, in
    /// hexadecimal. `None` where there is no such reference.
    pub upstream: Option<String>,
    /// Commits ahead of and behind the upstream. `None` where they were not counted.
    pub ahead_behind: Option<(usize, usize)>,
}

/// One entry of a diff of the parent, by the object ids of its two sides.
#[derive(Debug)]
pub struct DeltaIds {
    /// The id on the old side, in hexadecimal; all zeroes where that side is absent.
    pub old_id: String,
    /// The id on the new side, in hexadecimal; all zeroes where that side is absent.
    pub new_id: String,
}

/// Why a snapshot could not be taken.
#[derive(Debug)]
pub enum DiscoverError {
    /// The parent's submodule configuration cannot be read.
    SubmodulesUnreadable { detail: String },
    /// The parent has no working directory.
    BareRepository,
    /// A submodule's directory exists but does not open as a repository.
    OpenFailed { path: String, detail: String },
}

/// The view of an optional filter.
pub open spec fn filter_of(filter: Option<&str>) -> Option<Seq<char>> {
    match filter {
        Some(f) => Some(f@),
        None => None,
    }
}

/// A snapshot as a mathematical value.
pub struct SubmoduleView {
    pub name: Seq<char>,
    pub path: PathBuf,
    pub url: Seq<char>,
    pub branch: Option<Seq<char>>,
    pub head_commit: Option<Seq<char>>,
    pub head_message: Option<Seq<char>>,
    pub is_dirty: bool,
    pub ahead: nat,
    pub behind: nat,
    pub staged: nat,
    pub modified: nat,
    pub untracked: nat,
    pub parent_changed: bool,
}

/// A declaration as a mathematical value, with the name and URL it reads as.
pub struct DeclaredView {
    pub name: Seq<char>,
    pub path: PathBuf,
    pub path_text: Option<Seq<char>>,
    pub url: Seq<char>,
}

/// What HEAD resolves to, as a mathematical value.
pub struct HeadView {
    pub is_branch: bool,
    pub shorthand: Option<Seq<char>>,
    pub target: Option<Seq<char>>,
}

/// The current commit, as a mathematical value.
pub struct CommitView {
    pub id: Seq<char>,
    pub summary: Option<Seq<char>>,
}

/// One entry of a diff, as a mathematical value.
pub struct DeltaView {
    pub old_id: Seq<char>,
    pub new_id: Seq<char>,
}

/// What was read from a nested repository, as a mathematical value.
pub struct ObservationView {
    pub head: Option<HeadView>,
    pub commit: Option<CommitView>,
    pub statuses: Seq<u32>,
    pub upstream: Option<Seq<char>>,
    pub ahead_behind: Option<(nat, nat)>,
}

impl View for SubmoduleInfo {
    type V = SubmoduleView;

    open spec fn view(&self) -> SubmoduleView {
        SubmoduleView {
            name: self.name@,
            path: self.path,
            url: self.url@,
            branch: text_of(self.branch),
            head_commit: text_of(self.head_commit),
            head_message: text_of(self.head_message),
            is_dirty: self.is_dirty,
            ahead: self.ahead as nat,
            behind: self.behind as nat,
            staged: self.staged as nat,
            modified: self.modified as nat,
            untracked: self.untracked as nat,
            parent_changed: self.parent_changed,
        }
    }
}

impl View for DeclaredSubmodule {
    type V = DeclaredView;

    /// A name or URL that the configuration does not give reads as empty.
    open spec fn view(&self) -> DeclaredView {
        DeclaredView {
            name: text_or_empty(self.name),
            path: self.path,
            path_text: text_of(self.path_text),
            url: text_or_empty(self.url),
        }
    }
}

impl View for HeadState {
    type V = HeadView;

    open spec fn view(&self) -> HeadView {
        HeadView {
            is_branch: self.is_branch,
            shorthand: text_of(self.shorthand),
            target: text_of(self.target),
        }
    }
}

impl View for DeltaIds {
    type V = DeltaView;

    open spec fn view(&self) -> DeltaView {
        DeltaView { old_id: self.old_id@, new_id: self.new_id@ }
    }
}

impl View for HeadCommit {
    type V = CommitView;

    open spec fn view(&self) -> CommitView {
        CommitView { id: self.id@, summary: text_of(self.summary) }
    }
}

/// The view of an optional HEAD.
pub open spec fn head_of(head: Option<HeadState>) -> Option<HeadView> {
    match head {
        Some(h) => Some(h@),
        None => None,
    }
}

/// The view of an optional commit.
pub open spec fn commit_of(commit: Option<HeadCommit>) -> Option<CommitView> {
    match commit {
        Some(c) => Some(c@),
        None => None,
    }
}

impl View for RepoObservation {
    type V = ObservationView;

    open spec fn view(&self) -> ObservationView {
        ObservationView {
            head: head_of(self.head),
            commit: commit_of(self.commit),
            statuses: self.statuses@,
            upstream: text_of(self.upstream),
            ahead_behind: match self.ahead_behind {
                Some((ahead, behind)) => Some((ahead as nat, behind as nat)),
                None => None,
            },
        }
    }
}

/// The views of a list of declarations, in order.
pub open spec fn declared_views(declared: Seq<DeclaredSubmodule>) -> Seq<DeclaredView> {
    declared.map_values(|d: DeclaredSubmodule| d@)
}

/// An object id as it is shown: its first seven characters.
pub open spec fn short_id(id: Seq<char>) -> Seq<char> {
    prefix_of_len(id, SHORT_ID_LEN as nat)
}

/// What a checkout is on: the branch's short name, or the abbreviated id of the commit
/// that a detached HEAD points at. Nothing where HEAD cannot be read.
pub open spec fn branch_label(head: Option<HeadView>) -> Option<Seq<char>> {
    match head {
        None => None,
        Some(h) => if h.is_branch {
            h.shorthand
        } else {
            match h.target {
                Some(id) => Some(short_id(id)),
                None => None,
            }
        },
    }
}

/// The abbreviated id of the current commit. Nothing where no commit is resolved.
pub open spec fn head_commit_label(commit: Option<CommitView>) -> Option<Seq<char>> {
    match commit {
        Some(c) => Some(short_id(c.id)),
        None => None,
    }
}

/// The summary line of the current commit, empty where the commit has none.
pub open spec fn head_message_label(commit: Option<CommitView>) -> Option<Seq<char>> {
    match commit {
        Some(c) => Some(
            match c.summary {
                Some(s) => s,
                None => Seq::empty(),
            },
        ),
        None => None,
    }
}

/// The remote-tracking reference that a checkout is measured against: `origin/<branch>`
/// for a named branch with a commit. Nothing for any other HEAD.
pub open spec fn upstream_ref(head: Option<HeadView>) -> Option<Seq<char>> {
    match head {
        Some(h) => if h.is_branch && h.target is Some && h.shorthand is Some {
            Some("refs/remotes/origin/"@ + h.shorthand->0)
        } else {
            None
        },
        None => None,
    }
}

/// Commits ahead of and behind the upstream. A checkout that is on no branch, has no
/// upstream tracking reference, or whose history could not be walked counts as up to date.
pub open spec fn divergence(obs: ObservationView) -> (nat, nat) {
    if upstream_ref(obs.head) is Some && obs.upstream is Some {
        match obs.ahead_behind {
            Some(counts) => counts,
            None => (0, 0),
        }
    } else {
        (0, 0)
    }
}

/// Whether a diff entry records a move of the pointer: the ids of its two sides differ. An
/// entry with the same id on both sides only says that files inside the submodule were
/// touched.
pub open spec fn moves(delta: DeltaView) -> bool {
    delta.old_id != delta.new_id
}

/// Whether any of the entries records a move of the pointer.
pub open spec fn any_moves(entries: Seq<DeltaIds>) -> bool {
    exists|i: int| 0 <= i < entries.len() && moves(#[trigger] entries[i]@)
}

/// Whether a diff shows a move of the pointer. A diff that failed shows none.
pub open spec fn shows_move(deltas: Option<Vec<DeltaIds>>) -> bool {
    deltas matches Some(list) && any_moves(list@)
}

/// Whether the parent holds a pending change to a submodule's pointer, given the entries of
/// the staged and of the unstaged diff at its path.
pub open spec fn pointer_changed(
    staged: Option<Vec<DeltaIds>>,
    unstaged: Option<Vec<DeltaIds>>,
) -> bool {
    shows_move(staged) || shows_move(unstaged)
}

/// Whether a declaration passes the name filter.
pub open spec fn selected(d: DeclaredView, filter: Option<Seq<char>>) -> bool {
    filter matches Some(f) ==> d.name == f
}

/// The declarations that pass the name filter, in their order.
pub open spec fn select(declared: Seq<DeclaredView>, filter: Option<Seq<char>>) -> Seq<
    DeclaredView,
> {
    declared.filter(|d: DeclaredView| selected(d, filter))
}

impl ObservationView {
    /// What holds of everything that [`observe`] reads: an upstream is only looked up for
    /// a checkout that has one to look for, and commits are only counted against an
    /// upstream that was found.
    pub open spec fn well_formed(self) -> bool {
        &&& upstream_ref(self.head) is None ==> self.upstream is None
        &&& self.upstream is None ==> self.ahead_behind is None
    }
}

impl SubmoduleView {
    /// The same record with the parent's pointer change set to `changed`.
    pub open spec fn with_parent_changed(self, changed: bool) -> SubmoduleView {
        SubmoduleView { parent_changed: changed, ..self }
    }

    /// Whether the record is a snapshot of declaration `d`: apart from the parent's pointer
    /// change, either the record of a submodule that is not checked out, or the record of
    /// what some reading of a repository showed.
    pub open spec fn snapshot_of(self, d: DeclaredView) -> bool {
        ||| self == SubmoduleView::not_checked_out(d.name, d.path, d.url).with_parent_changed(
            self.parent_changed,
        )
        ||| exists|obs: ObservationView|
            obs.well_formed() && self == (#[trigger] SubmoduleView::checked_out(
                d.name,
                d.path,
                d.url,
                obs,
            )).with_parent_changed(self.parent_changed)
    }

    /// The record's own invariant: it is dirty exactly when something is staged or
    /// modified, whatever is untracked; the commit id and message come together; and a
    /// checkout that is on nothing is neither ahead nor behind.
    pub open spec fn consistent(self) -> bool {
        &&& self.is_dirty == (self.staged > 0 || self.modified > 0)
        &&& self.head_commit is Some <==> self.head_message is Some
        &&& self.branch is None ==> self.ahead == 0 && self.behind == 0
    }

    /// Whether the record carries nothing but what the configuration declares.
    pub open spec fn unpopulated(self) -> bool {
        &&& self.branch is None
        &&& self.head_commit is None
        &&& self.head_message is None
        &&& !self.is_dirty
        &&& self.ahead == 0
        &&& self.behind == 0
        &&& self.staged == 0
        &&& self.modified == 0
        &&& self.untracked == 0
    }

    /// Whether the record is that of declaration `d`.
    pub open spec fn of(self, d: DeclaredView) -> bool {
        &&& self.name == d.name
        &&& self.path == d.path
        &&& self.url == d.url
    }

    /// The record of a submodule of this name, path and URL whose directory is not on disk.
    pub open spec fn not_checked_out(
        name: Seq<char>,
        path: PathBuf,
        url: Seq<char>,
    ) -> SubmoduleView {
        SubmoduleView {
            name: name,
            path: path,
            url: url,
            branch: None,
            head_commit: None,
            head_message: None,
            is_dirty: false,
            ahead: 0,
            behind: 0,
            staged: 0,
            modified: 0,
            untracked: 0,
            parent_changed: false,
        }
    }

    /// The record of a submodule of this name, path and URL whose repository showed `obs`.
    pub open spec fn checked_out(
        name: Seq<char>,
        path: PathBuf,
        url: Seq<char>,
        obs: ObservationView,
    ) -> SubmoduleView {
        SubmoduleView {
            name: name,
            path: path,
            url: url,
            branch: branch_label(obs.head),
            head_commit: head_commit_label(obs.commit),
            head_message: head_message_label(obs.commit),
            is_dirty: count_staged(obs.statuses) > 0 || count_modified(obs.statuses) > 0,
            ahead: divergence(obs).0,
            behind: divergence(obs).1,
            staged: count_staged(obs.statuses),
            modified: count_modified(obs.statuses),
            untracked: count_untracked(obs.statuses),
            parent_changed: false,
        }
    }
}

/// Whether `list` holds one snapshot for each declaration of `chosen`, in order.
pub open spec fn records_of(list: Seq<SubmoduleInfo>, chosen: Seq<DeclaredView>) -> bool {
    &&& list.len() == chosen.len()
    &&& forall|i: int|
        0 <= i < list.len() ==> {
            &&& (#[trigger] list[i])@.snapshot_of(chosen[i])
            &&& list[i]@.of(chosen[i])
            &&& list[i]@.consistent()
        }
}

fn copy_text(s: &Option<String>) -> (r: Option<String>)
    ensures
        text_of(r) == text_of(*s),
{
    match s {
        Some(t) => Some(t.clone()),
        None => None,
    }
}

fn text_or_default(s: &Option<String>) -> (r: String)
    ensures
        r@ == text_or_empty(*s),
{
    match s {
        Some(t) => t.clone(),
        None => String::new(),
    }
}

/// The abbreviated form of an object id.
pub fn abbreviate(id: &str) -> (r: String)
    ensures
        r@ == short_id(id@),
{
    leading_chars(id, SHORT_ID_LEN)
}

/// What the checkout is on.
pub fn resolve_branch(head: &Option<HeadState>) -> (r: Option<String>)
    ensures
        text_of(r) == branch_label(head_of(*head)),
{
    match head {
        None => None,
        Some(h) => {
            if h.is_branch {
                copy_text(&h.shorthand)
            } else {
                match &h.target {
                    Some(id) => Some(abbreviate(id.as_str())),
                    None => None,
                }
            }
        },
    }
}

/// The abbreviated id and the summary line of the current commit.
pub fn describe_head_commit(commit: &Option<HeadCommit>) -> (r: (Option<String>, Option<String>))
    ensures
        text_of(r.0) == head_commit_label(commit_of(*commit)),
        text_of(r.1) == head_message_label(commit_of(*commit)),
{
    match commit {
        Some(c) => (Some(abbreviate(c.id.as_str())), Some(text_or_default(&c.summary))),
        None => (None, None),
    }
}

/// The full name of the remote-tracking reference to measure the checkout against.
pub fn tracking_ref(head: &Option<HeadState>) -> (r: Option<String>)
    ensures
        text_of(r) == upstream_ref(head_of(*head)),
{
    match head {
        Some(h) => {
            if h.is_branch && h.target.is_some() {
                match &h.shorthand {
                    Some(name) => Some(
                        String::from_str("refs/remotes/origin/").concat(name.as_str()),
                    ),
                    None => None,
                }
            } else {
                None
            }
        },
        None => None,
    }
}

/// The status flags to go by, given what the second enumeration returned: its entries
/// where it succeeded, and none where it failed too, so that the working tree counts as
/// clean.
pub fn statuses_after_retry(retry: Result<Vec<u32>, git2::Error>) -> (r: Vec<u32>)
    ensures
        retry matches Ok(flags) ==> r == flags,
        retry is Err ==> r@.len() == 0,
{
    match retry {
        Ok(flags) => flags,
        Err(_) => Vec::new(),
    }
}

/// The status flags to go by, given what the enumeration with untracked files returned:
/// its entries where it succeeded. Where it failed the enumeration is tried once more on
/// `repo` without options, and [`statuses_after_retry`] settles the rest.
pub fn statuses_or_retry(repo: &git2::Repository, first: Result<Vec<u32>, git2::Error>) -> (r:
    Vec<u32>)
    ensures
        first matches Ok(flags) ==> r == flags,
{
    match first {
        Ok(flags) => flags,
        Err(_) => statuses_after_retry(read_status_flags(repo, None)),
    }
}

/// The commits ahead of and behind the upstream that `obs` amounts to.
pub fn settle_divergence(obs: &RepoObservation) -> (r: (usize, usize))
    ensures
        (r.0 as nat, r.1 as nat) == divergence(obs@),
{
    if tracking_ref(&obs.head).is_some() && obs.upstream.is_some() {
        match obs.ahead_behind {
            Some(counts) => counts,
            None => (0, 0),
        }
    } else {
        (0, 0)
    }
}

/// Completes the observation of `repo` from what was read of it first: what HEAD resolves
/// to, the commit it leads to, and what the enumeration of the working tree with untracked
/// files returned. These are kept as they are, the entries by the rule of
/// [`statuses_or_retry`]. The upstream is looked up only for a checkout that has one to
/// look for, and commits are counted only against an upstream that was found.
pub fn observe_from(
    repo: &git2::Repository,
    head: Option<HeadState>,
    commit: Option<HeadCommit>,
    first: Result<Vec<u32>, git2::Error>,
) -> (obs: RepoObservation)
    ensures
        obs.head == head,
        obs.commit == commit,
        first matches Ok(flags) ==> obs.statuses == flags,
        obs@.well_formed(),
{
    let statuses = statuses_or_retry(repo, first);
    let upstream = match tracking_ref(&head) {
        Some(name) => match find_reference(repo, name.as_str()) {
            Some(theirs) => reference_state(&theirs).target,
            None => None,
        },
        None => None,
    };
    let ahead_behind = match (&head, &upstream) {
        (Some(HeadState { target: Some(local), .. }), Some(theirs)) => graph_ahead_behind(
            repo,
            local.as_str(),
            theirs.as_str(),
        ),
        _ => None,
    };
    RepoObservation { head, commit, statuses, upstream, ahead_behind }
}

/// Reads from `repo` all that a snapshot is made of. A commit is read only through a HEAD
/// that resolves; the rest is as [`observe_from`] completes it.
pub fn observe(repo: &git2::Repository) -> (obs: RepoObservation)
    ensures
        obs@.well_formed(),
        obs@.head is None ==> obs@.commit is None,
{
    let (head, commit) = match repository_head(repo) {
        Some(reference) => (Some(reference_state(&reference)), reference_commit(&reference)),
        None => (None, None),
    };
    let first = read_status_flags(repo, Some(true));
    observe_from(repo, head, commit, first)
}

impl SubmoduleInfo {
    /// The record of a submodule that is declared but not checked out.
    pub fn not_checked_out(name: String, path: PathBuf, url: String) -> (info: SubmoduleInfo)
        ensures
            info@ == SubmoduleView::not_checked_out(name@, path, url@),
            info@.unpopulated(),
            info@.consistent(),
    {
        SubmoduleInfo {
            name,
            path,
            url,
            branch: None,
            head_commit: None,
            head_message: None,
            is_dirty: false,
            ahead: 0,
            behind: 0,
            staged: 0,
            modified: 0,
            untracked: 0,
            parent_changed: false,
        }
    }

    /// The record of a submodule whose repository showed `obs`.
    pub fn checked_out(name: &str, path: &PathBuf, url: &str, obs: &RepoObservation) -> (info:
        SubmoduleInfo)
        ensures
            info@ == SubmoduleView::checked_out(name@, *path, url@, obs@),
            info@.consistent(),
    {
        let branch = resolve_branch(&obs.head);
        let (head_commit, head_message) = describe_head_commit(&obs.commit);
        let counts = count_statuses(&obs.statuses);
        let (ahead, behind) = settle_divergence(obs);
        SubmoduleInfo {
            name: String::from_str(name),
            path: clone_path(path),
            url: String::from_str(url),
            branch,
            head_commit,
            head_message,
            is_dirty: counts.is_dirty(),
            ahead,
            behind,
            staged: counts.staged,
            modified: counts.modified,
            untracked: counts.untracked,
            parent_changed: false,
        }
    }
}

impl DiscoverError {
    /// What went wrong, in one line.
    pub fn message(&self) -> (r: String)
        ensures
            r@ == match *self {
                DiscoverError::SubmodulesUnreadable { .. } => "Failed to read submodules"@,
                DiscoverError::BareRepository => "Bare repositories are not supported"@,
                DiscoverError::OpenFailed { path, .. } => "Failed to open submodule repo at "@
                    + path@,
            },
    {
        match self {
            DiscoverError::SubmodulesUnreadable { .. } => String::from_str(
                "Failed to read submodules",
            ),
            DiscoverError::BareRepository => String::from_str(
                "Bare repositories are not supported",
            ),
            DiscoverError::OpenFailed { path, .. } => String::from_str(
                "Failed to open submodule repo at ",
            ).concat(path.as_str()),
        }
    }
}

/// Takes the snapshot of the submodule of this name, path and URL, given what opening its
/// repository returned. It fails exactly where the open failed, and the error then names
/// `shown_path`; nothing that is read from an opened repository can fail it.
pub fn gather_info(
    name: &str,
    path: &PathBuf,
    url: &str,
    shown_path: String,
    opened: Result<git2::Repository, git2::Error>,
) -> (r: Result<SubmoduleInfo, DiscoverError>)
    ensures
        opened is Err <==> r is Err,
        r matches Err(e) ==> (e matches DiscoverError::OpenFailed { path: p, .. } && p@
            == shown_path@),
        r matches Ok(info) ==> {
            &&& exists|obs: ObservationView|
                obs.well_formed() && info@ == #[trigger] SubmoduleView::checked_out(
                    name@,
                    *path,
                    url@,
                    obs,
                )
            &&& info@.name == name@
            &&& info@.path == *path
            &&& info@.url == url@
            &&& info@.consistent()
            &&& !info.parent_changed
        },
{
    match opened {
        Ok(sub_repo) => {
            let obs = observe(&sub_repo);
            Ok(SubmoduleInfo::checked_out(name, path, url, &obs))
        },
        Err(e) => Err(DiscoverError::OpenFailed { path: shown_path, detail: error_message(&e) }),
    }
}

/// Whether any entry of `entries` records a move of the pointer.
pub fn finds_move(entries: &Vec<DeltaIds>) -> (b: bool)
    ensures
        b == any_moves(entries@),
{
    let mut i: usize = 0;
    while i < entries.len()
        invariant
            i <= entries.len(),
            forall|j: int| 0 <= j < i ==> !moves(#[trigger] entries@[j]@),
        decreases entries.len() - i,
    {
        if !same_text(entries[i].old_id.as_str(), entries[i].new_id.as_str()) {
            assert(moves(entries@[i as int]@));
            return true;
        }
        i += 1;
    }
    false
}

/// Whether the diff `deltas` shows a move of the pointer.
pub fn any_move(deltas: &Option<Vec<DeltaIds>>) -> (b: bool)
    ensures
        b == shows_move(*deltas),
{
    match deltas {
        Some(list) => finds_move(list),
        None => false,
    }
}

/// Decides from the two diffs of the parent whether the submodule's pointer changed.
pub fn parent_pointer_changed(
    staged: &Option<Vec<DeltaIds>>,
    unstaged: &Option<Vec<DeltaIds>>,
) -> (b: bool)
    ensures
        b == pointer_changed(*staged, *unstaged),
{
    let in_index = any_move(staged);
    let in_workdir = any_move(unstaged);
    in_index || in_workdir
}

/// Whether the parent `repo` holds a staged or unstaged change of the pointer at the
/// submodule path whose text is `sm_path`. A path that has no text, or whose text holds a
/// NUL character, cannot be asked for, and has no change to show.
pub fn check_parent_changed(repo: &git2::Repository, sm_path: &Option<String>) -> (b: bool)
    ensures
        sm_path is None ==> !b,
        sm_path matches Some(text) ==> text@.contains('\0') ==> !b,
{
    let sm_path_str = match sm_path {
        Some(s) => s,
        None => {
            return false;
        },
    };
    if has_char(sm_path_str.as_str(), '\0') {
        return false;
    }
    let tree = match repository_head(repo) {
        Some(reference) => reference_tree(&reference),
        None => None,
    };
    let staged = deltas_tree_to_index(repo, tree.as_ref(), sm_path_str.as_str());
    let unstaged = deltas_index_to_workdir(repo, sm_path_str.as_str());
    parent_pointer_changed(&staged, &unstaged)
}

/// Makes the snapshot of one declared submodule from what was found out about it: what
/// opening its repository returned, or `None` where nothing is on disk and nothing was
/// opened, and the parent's answer on its pointer. It fails exactly where an open failed,
/// and the error then names `shown_path`. The parent's answer goes into every record.
pub fn snapshot_from(
    entry: &DeclaredSubmodule,
    shown_path: String,
    opened: Option<Result<git2::Repository, git2::Error>>,
    parent_changed: bool,
) -> (r: Result<SubmoduleInfo, DiscoverError>)
    ensures
        r is Err <==> opened matches Some(Err(_)),
        r matches Err(e) ==> (e matches DiscoverError::OpenFailed { path: p, .. } && p@
            == shown_path@),
        r matches Ok(info) ==> {
            &&& info.parent_changed == parent_changed
            &&& info@.snapshot_of(entry@)
            &&& info@.of(entry@)
            &&& info@.consistent()
            &&& opened is None ==> info@ == SubmoduleView::not_checked_out(
                entry@.name,
                entry@.path,
                entry@.url,
            ).with_parent_changed(parent_changed)
            &&& opened is None ==> info@.unpopulated()
        },
{
    let name = text_or_default(&entry.name);
    let url = text_or_default(&entry.url);
    let mut info = match opened {
        Some(result) => match gather_info(
            name.as_str(),
            &entry.path,
            url.as_str(),
            shown_path,
            result,
        ) {
            Ok(info) => info,
            Err(e) => {
                return Err(e);
            },
        },
        None => SubmoduleInfo::not_checked_out(name, clone_path(&entry.path), url),
    };
    info.parent_changed = parent_changed;
    Ok(info)
}

/// Takes the snapshot of one declared submodule of the parent `repo`. `abs_path` is where
/// its working directory would be, and `on_disk` says whether anything is there. Nothing
/// is opened for a submodule that is not on disk; the parent is asked in either case, and
/// [`snapshot_from`] makes the record.
pub fn snapshot_entry(
    repo: &git2::Repository,
    entry: &DeclaredSubmodule,
    abs_path: &PathBuf,
    on_disk: bool,
) -> (r: Result<SubmoduleInfo, DiscoverError>)
    ensures
        !on_disk ==> r is Ok,
        match r {
            Ok(info) => {
                &&& info@.snapshot_of(entry@)
                &&& entry.path_text is None ==> !info.parent_changed
                &&& entry.path_text matches Some(text) ==> text@.contains('\0')
                    ==> !info.parent_changed
                &&& info@.of(entry@)
                &&& info@.consistent()
                &&& !on_disk ==> info@ == SubmoduleView::not_checked_out(
                    entry@.name,
                    entry@.path,
                    entry@.url,
                ).with_parent_changed(info.parent_changed)
                &&& !on_disk ==> info@.unpopulated()
            },
            Err(e) => on_disk && e is OpenFailed,
        },
{
    let opened = if on_disk {
        Some(open_repository(abs_path))
    } else {
        None
    };
    let answer = check_parent_changed(repo, &entry.path_text);
    snapshot_from(entry, path_display(abs_path), opened, answer)
}

/// Whether a declared name passes the filter.
pub fn name_selected(name: &Option<String>, filter: Option<&str>) -> (b: bool)
    ensures
        b == (filter_of(filter) matches Some(f) ==> text_or_empty(*name) == f),
{
    match filter {
        Some(f) => {
            let given = text_or_default(name);
            same_text(given.as_str(), f)
        },
        None => true,
    }
}

/// Takes the snapshots of the submodules in `declared` that pass `filter`, given what the
/// parent `repo` answered when asked for its declarations and for its working directory.
pub fn discover_declared(
    repo: &git2::Repository,
    declared: Result<Vec<DeclaredSubmodule>, git2::Error>,
    workdir: Option<PathBuf>,
    filter: Option<&str>,
) -> (r: Result<Vec<SubmoduleInfo>, DiscoverError>)
    ensures
        declared is Err ==> r matches Err(DiscoverError::SubmodulesUnreadable { .. }),
        declared is Ok && workdir is None ==> r matches Err(DiscoverError::BareRepository),
        workdir is None ==> r is Err,
        declared matches Ok(d) ==> workdir is Some ==> {
            let chosen = select(declared_views(d@), filter_of(filter));
            match r {
                Ok(list) => records_of(list@, chosen),
                Err(e) => e is OpenFailed && chosen.len() > 0,
            }
        },
        declared matches Ok(d) ==> workdir is Some ==> select(
            declared_views(d@),
            filter_of(filter),
        ).len() == 0 ==> (r matches Ok(list) && list@.len() == 0),
{
    let entries = match declared {
        Ok(d) => d,
        Err(e) => {
            return Err(DiscoverError::SubmodulesUnreadable { detail: error_message(&e) });
        },
    };
    let base = match workdir {
        Some(w) => w,
        None => {
            return Err(DiscoverError::BareRepository);
        },
    };
    let ghost views = declared_views(entries@);
    let ghost keep = |d: DeclaredView| selected(d, filter_of(filter));
    let mut results: Vec<SubmoduleInfo> = Vec::new();
    let mut i: usize = 0;
    proof {
        reveal(Seq::filter);
    }
    while i < entries.len()
        invariant
            i <= entries.len(),
            declared == Ok::<Vec<DeclaredSubmodule>, git2::Error>(entries),
            workdir is Some,
            views == declared_views(entries@),
            keep == |d: DeclaredView| selected(d, filter_of(filter)),
            records_of(results@, views.take(i as int).filter(keep)),
        decreases entries.len() - i,
    {
        let entry = &entries[i];
        proof {
            reveal(Seq::filter);
            assert(views.take(i + 1).drop_last() =~= views.take(i as int));
            assert(views.take(i + 1).last() == entry@);
        }
        if name_selected(&entry.name, filter) {
            let abs_path = join_path(&base, &entry.path);
            let on_disk = path_exists(&abs_path);
            match snapshot_entry(repo, entry, &abs_path, on_disk) {
                Ok(info) => {
                    results.push(info);
                },
                Err(e) => {
                    proof {
                        views.lemma_filter_contains(keep, i as int);
                    }
                    return Err(e);
                },
            }
        }
        i += 1;
    }
    proof {
        assert(views.take(entries.len() as int) =~= views);
    }
    Ok(results)
}

/// Takes the snapshot of every submodule that the parent `repo` declares, or of the one
/// named by `filter`, in the order of the declarations. Whatever the repository holds,
/// each record that comes back is a snapshot of a declaration that passes the filter.
pub fn discover(repo: &git2::Repository, filter: Option<&str>) -> (r: Result<
    Vec<SubmoduleInfo>,
    DiscoverError,
>)
    ensures
        r matches Ok(list) ==> forall|i: int|
            0 <= i < list@.len() ==> {
                &&& exists|d: DeclaredView|
                    selected(d, filter_of(filter)) && #[trigger] list@[i]@.snapshot_of(d)
                &&& (#[trigger] list@[i])@.consistent()
                &&& filter_of(filter) matches Some(f) ==> list@[i]@.name == f
            },
{
    let declared = read_submodules(repo);
    let workdir = workdir_of(repo);
    let ghost chosen = select(declared_views(declared->Ok_0@), filter_of(filter));
    let r = discover_declared(repo, declared, workdir, filter);
    proof {
        if r is Ok {
            let list = r->Ok_0@;
            assert forall|i: int| 0 <= i < list.len() implies {
                &&& exists|d: DeclaredView|
                    selected(d, filter_of(filter)) && #[trigger] list[i]@.snapshot_of(d)
                &&& (#[trigger] list[i])@.consistent()
                &&& filter_of(filter) matches Some(f) ==> list[i]@.name == f
            } by {
                declared_views(declared->Ok_0@).lemma_filter_pred(
                    |d: DeclaredView| selected(d, filter_of(filter)),
                    i,
                );
                assert(selected(chosen[i], filter_of(filter)));
                assert(list[i]@.snapshot_of(chosen[i]));
            }
        }
    }
    r
}

} // verus!
