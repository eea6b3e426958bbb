use git2::build::CheckoutBuilder;
use git2::{IndexEntry, IndexTime, Oid, Repository, ResetType, Signature};
use git_dom::submodule::{
    check_parent_changed, discover, discover_declared, gather_info, observe, observe_from,
    snapshot_entry, snapshot_from, statuses_after_retry, statuses_or_retry, DeclaredSubmodule,
    DiscoverError, HeadCommit, HeadState,
};
use std::path::{Path, PathBuf};

const GITLINK: u32 = 0o160000;
const REGULAR: u32 = 0o100644;

fn index_entry(path: &str, mode: u32, id: Oid) -> IndexEntry {
    IndexEntry {
        ctime: IndexTime::new(0, 0),
        mtime: IndexTime::new(0, 0),
        dev: 0,
        ino: 0,
        mode,
        uid: 0,
        gid: 0,
        file_size: 0,
        id,
        flags: 0,
        flags_extended: 0,
        path: path.as_bytes().to_vec(),
    }
}

fn signature() -> Signature<'static> {
    Signature::new("Tester", "tester@example.org", &git2::Time::new(1_700_000_000, 0)).unwrap()
}

/// Commits a tree that holds the given files on top of `parents` and moves `refname` there.
fn commit_files(
    repo: &Repository,
    refname: &str,
    files: &[(&str, &str)],
    parents: &[Oid],
    message: &str,
) -> Oid {
    let mut builder = repo.treebuilder(None).unwrap();
    for (name, content) in files {
        let blob = repo.blob(content.as_bytes()).unwrap();
        builder.insert(name, blob, REGULAR as i32).unwrap();
    }
    let tree = repo.find_tree(builder.write().unwrap()).unwrap();
    let parent_commits: Vec<git2::Commit> =
        parents.iter().map(|id| repo.find_commit(*id).unwrap()).collect();
    let parent_refs: Vec<&git2::Commit> = parent_commits.iter().collect();
    let sig = signature();
    repo.commit(Some(refname), &sig, &sig, message, &tree, &parent_refs).unwrap()
}

/// Declares submodules in `.gitmodules` and the index of `repo` without checking any out.
fn declare_only(repo: &Repository, declared: &[(&str, &str, &str)]) {
    let mut text = String::new();
    for (name, path, url) in declared {
        text.push_str(&format!("[submodule \"{}\"]\n\tpath = {}\n\turl = {}\n", name, path, url));
    }
    let mut index = repo.index().unwrap();
    index
        .add_frombuffer(&index_entry(".gitmodules", REGULAR, Oid::zero()), text.as_bytes())
        .unwrap();
    let pinned = Oid::from_str("1111111111111111111111111111111111111111").unwrap();
    for (_, path, _) in declared {
        index.add(&index_entry(path, GITLINK, pinned)).unwrap();
    }
    index.write().unwrap();
    let mut checkout = CheckoutBuilder::new();
    checkout.force().path(".gitmodules");
    repo.checkout_index(Some(&mut index), Some(&mut checkout)).unwrap();
}

#[test]
fn bare_repository_is_an_error() {
    let dir = tempfile::tempdir().unwrap();
    let repo = Repository::init_bare(dir.path()).unwrap();
    // Without a working tree the declarations themselves cannot be read.
    let err = discover(&repo, None).unwrap_err();
    match &err {
        DiscoverError::SubmodulesUnreadable { detail } => assert!(!detail.is_empty()),
        other => panic!("unexpected error: {:?}", other),
    }
    assert_eq!(err.message(), "Failed to read submodules");
    assert!(discover(&repo, Some("anything")).is_err());
}

#[test]
fn missing_working_directory_is_an_error() {
    let dir = tempfile::tempdir().unwrap();
    let repo = Repository::init_bare(dir.path()).unwrap();
    let err = discover_declared(&repo, Ok(Vec::new()), None, None).unwrap_err();
    assert!(matches!(err, DiscoverError::BareRepository));
    assert_eq!(err.message(), "Bare repositories are not supported");

    let declared = vec![DeclaredSubmodule {
        name: Some("a".to_string()),
        path: PathBuf::from("a"),
        path_text: Some("a".to_string()),
        url: None,
    }];
    let err = discover_declared(&repo, Ok(declared), None, Some("b")).unwrap_err();
    assert!(matches!(err, DiscoverError::BareRepository));
}

#[test]
fn unreadable_declarations_are_an_error() {
    let dir = tempfile::tempdir().unwrap();
    let repo = Repository::init(dir.path()).unwrap();
    let failure = git2::Error::from_str("corrupt metadata");
    let workdir = Some(dir.path().to_path_buf());
    let err = discover_declared(&repo, Err(failure), workdir, None).unwrap_err();
    match &err {
        DiscoverError::SubmodulesUnreadable { detail } => assert_eq!(detail, "corrupt metadata"),
        other => panic!("unexpected error: {:?}", other),
    }
}

#[test]
fn repository_without_submodules_gives_empty_list() {
    let dir = tempfile::tempdir().unwrap();
    let repo = Repository::init(dir.path()).unwrap();
    assert!(discover(&repo, None).unwrap().is_empty());
    assert!(discover(&repo, Some("libs/foo")).unwrap().is_empty());
}

#[test]
fn absent_submodule_has_only_its_declaration() {
    let dir = tempfile::tempdir().unwrap();
    let repo = Repository::init(dir.path()).unwrap();
    declare_only(&repo, &[("vendor/bar", "vendor/bar", "https://example.org/bar.git")]);
    assert!(!dir.path().join("vendor/bar").exists());

    let list = discover(&repo, None).unwrap();
    assert_eq!(list.len(), 1);
    let info = &list[0];
    assert_eq!(info.name, "vendor/bar");
    assert_eq!(info.path, PathBuf::from("vendor/bar"));
    assert_eq!(info.url, "https://example.org/bar.git");
    assert_eq!(info.branch, None);
    assert_eq!(info.head_commit, None);
    assert_eq!(info.head_message, None);
    assert!(!info.is_dirty);
    assert_eq!(
        (info.ahead, info.behind, info.staged, info.modified, info.untracked),
        (0, 0, 0, 0, 0)
    );
    // The pointer itself is staged in the parent and not yet committed.
    assert!(info.parent_changed);
}

#[test]
fn filter_selects_by_declared_name() {
    let dir = tempfile::tempdir().unwrap();
    let repo = Repository::init(dir.path()).unwrap();
    declare_only(
        &repo,
        &[
            ("first", "libs/one", "https://example.org/one.git"),
            ("second", "libs/two", "https://example.org/two.git"),
        ],
    );

    let all = discover(&repo, None).unwrap();
    assert_eq!(all.len(), 2);
    assert_eq!(all[0].name, "first");
    assert_eq!(all[1].name, "second");

    let one = discover(&repo, Some("second")).unwrap();
    assert_eq!(one.len(), 1);
    assert_eq!(one[0].name, "second");
    assert_eq!(one[0].path, PathBuf::from("libs/two"));

    // A path is not a name.
    assert!(discover(&repo, Some("libs/two")).unwrap().is_empty());
    assert!(discover(&repo, Some("third")).unwrap().is_empty());
}

#[test]
fn directory_that_is_no_repository_fails_the_call() {
    let dir = tempfile::tempdir().unwrap();
    let repo = Repository::init(dir.path()).unwrap();
    declare_only(
        &repo,
        &[
            ("first", "libs/one", "https://example.org/one.git"),
            ("second", "libs/two", "https://example.org/two.git"),
        ],
    );
    // Checking out the whole index makes an empty directory for each pinned submodule.
    let mut checkout = CheckoutBuilder::new();
    checkout.force();
    repo.checkout_index(None, Some(&mut checkout)).unwrap();
    assert!(dir.path().join("libs/one").exists());

    let err = discover(&repo, None).unwrap_err();
    match &err {
        DiscoverError::OpenFailed { path, detail } => {
            assert!(path.ends_with("one"));
            assert!(!detail.is_empty());
        }
        other => panic!("unexpected error: {:?}", other),
    }
    assert!(err.message().starts_with("Failed to open submodule repo at "));
    assert!(err.message().ends_with("one"));
}

/// A parent with the submodule `libs/foo` on branch `main`, two commits ahead of
/// `origin/main`. Returns the parent, the nested repository and the id of its last commit.
fn parent_with_foo(root: &Path) -> (Repository, Repository, Oid) {
    let parent = Repository::init(root).unwrap();
    let mut sm = parent
        .submodule("https://example.org/foo.git", Path::new("libs/foo"), true)
        .unwrap();
    let sub = sm.open().unwrap();
    let base = commit_files(&sub, "refs/heads/main", &[("a.txt", "one\n")], &[], "first");
    sub.reference("refs/remotes/origin/main", base, true, "upstream").unwrap();
    let second =
        commit_files(&sub, "refs/heads/main", &[("a.txt", "two\n")], &[base], "second");
    let third = commit_files(
        &sub,
        "refs/heads/main",
        &[("a.txt", "three\n")],
        &[second],
        "third change\n\nwith a body\n",
    );
    sub.set_head("refs/heads/main").unwrap();
    let mut checkout = CheckoutBuilder::new();
    checkout.force();
    sub.checkout_head(Some(&mut checkout)).unwrap();
    sm.add_finalize().unwrap();
    drop(sm);
    let tree_id = parent.index().unwrap().write_tree().unwrap();
    {
        let tree = parent.find_tree(tree_id).unwrap();
        let sig = signature();
        parent.commit(Some("HEAD"), &sig, &sig, "add foo", &tree, &[]).unwrap();
    }
    (parent, sub, third)
}

#[test]
fn clean_submodule_on_a_branch() {
    let dir = tempfile::tempdir().unwrap();
    let (parent, _sub, third) = parent_with_foo(dir.path());

    let list = discover(&parent, None).unwrap();
    assert_eq!(list.len(), 1);
    let info = &list[0];
    assert_eq!(info.name, "libs/foo");
    assert_eq!(info.path, PathBuf::from("libs/foo"));
    assert_eq!(info.url, "https://example.org/foo.git");
    assert_eq!(info.branch.as_deref(), Some("main"));
    assert_eq!(info.head_commit.as_deref(), Some(&third.to_string()[..7]));
    assert_eq!(info.head_message.as_deref(), Some("third change"));
    assert_eq!((info.ahead, info.behind), (2, 0));
    assert_eq!((info.staged, info.modified, info.untracked), (0, 0, 0));
    assert!(!info.is_dirty);
    assert!(!info.parent_changed);
}

#[test]
fn submodule_ahead_of_upstream_with_a_modified_file() {
    let dir = tempfile::tempdir().unwrap();
    let (parent, sub, third) = parent_with_foo(dir.path());
    // Put other content into the working tree, then point the index back at HEAD.
    let other = commit_files(&sub, "refs/heads/scratch", &[("a.txt", "edited\n")], &[], "x");
    let mut checkout = CheckoutBuilder::new();
    checkout.force();
    sub.checkout_tree(&sub.find_object(other, None).unwrap(), Some(&mut checkout)).unwrap();
    sub.reset(&sub.find_object(third, None).unwrap(), ResetType::Mixed, None).unwrap();

    let list = discover(&parent, Some("libs/foo")).unwrap();
    assert_eq!(list.len(), 1);
    let info = &list[0];
    assert_eq!(info.branch.as_deref(), Some("main"));
    assert_eq!((info.ahead, info.behind), (2, 0));
    assert_eq!((info.staged, info.modified, info.untracked), (0, 1, 0));
    assert!(info.is_dirty);
    assert!(!info.parent_changed);
}

#[test]
fn untracked_file_alone_is_not_dirty() {
    let dir = tempfile::tempdir().unwrap();
    let (parent, sub, third) = parent_with_foo(dir.path());
    // Leave a file in the working tree that neither HEAD nor the index knows.
    let other = commit_files(
        &sub,
        "refs/heads/scratch",
        &[("a.txt", "three\n"), ("notes.txt", "n\n")],
        &[],
        "x",
    );
    let mut checkout = CheckoutBuilder::new();
    checkout.force();
    sub.checkout_tree(&sub.find_object(other, None).unwrap(), Some(&mut checkout)).unwrap();
    sub.reset(&sub.find_object(third, None).unwrap(), ResetType::Mixed, None).unwrap();

    let list = discover(&parent, None).unwrap();
    let info = &list[0];
    assert_eq!((info.staged, info.modified, info.untracked), (0, 0, 1));
    assert!(!info.is_dirty);
    assert!(!info.parent_changed);
}

#[test]
fn staged_file_is_counted_and_dirty() {
    let dir = tempfile::tempdir().unwrap();
    let (parent, sub, _third) = parent_with_foo(dir.path());
    let mut index = sub.index().unwrap();
    index.add_frombuffer(&index_entry("b.txt", REGULAR, Oid::zero()), b"new\n").unwrap();
    index.write().unwrap();
    let mut checkout = CheckoutBuilder::new();
    checkout.force();
    sub.checkout_index(Some(&mut index), Some(&mut checkout)).unwrap();

    let list = discover(&parent, None).unwrap();
    let info = &list[0];
    assert_eq!((info.staged, info.modified, info.untracked), (1, 0, 0));
    assert!(info.is_dirty);
    assert!(!info.parent_changed);
}

#[test]
fn detached_head_is_labelled_by_short_id() {
    let dir = tempfile::tempdir().unwrap();
    let (parent, sub, third) = parent_with_foo(dir.path());
    sub.set_head_detached(third).unwrap();

    let list = discover(&parent, None).unwrap();
    let info = &list[0];
    let short = third.to_string()[..7].to_string();
    assert_eq!(info.branch.as_deref(), Some(short.as_str()));
    assert_eq!(info.head_commit.as_deref(), Some(short.as_str()));
    assert_eq!((info.ahead, info.behind), (0, 0));
}

#[test]
fn branch_without_upstream_is_up_to_date() {
    let dir = tempfile::tempdir().unwrap();
    let (parent, sub, third) = parent_with_foo(dir.path());
    sub.reference("refs/heads/topic", third, true, "topic").unwrap();
    sub.set_head("refs/heads/topic").unwrap();

    let list = discover(&parent, None).unwrap();
    let info = &list[0];
    assert_eq!(info.branch.as_deref(), Some("topic"));
    assert_eq!((info.ahead, info.behind), (0, 0));
}

#[test]
fn branch_behind_upstream() {
    let dir = tempfile::tempdir().unwrap();
    let (parent, sub, third) = parent_with_foo(dir.path());
    let ahead =
        commit_files(&sub, "refs/heads/next", &[("a.txt", "four\n")], &[third], "fourth");
    sub.reference("refs/remotes/origin/main", ahead, true, "upstream moved").unwrap();

    let list = discover(&parent, None).unwrap();
    assert_eq!((list[0].ahead, list[0].behind), (0, 1));
}

#[test]
fn moved_pointer_shows_as_parent_change() {
    let dir = tempfile::tempdir().unwrap();
    let (parent, sub, third) = parent_with_foo(dir.path());
    let fourth =
        commit_files(&sub, "refs/heads/main", &[("a.txt", "three\n")], &[third], "fourth");
    assert_ne!(fourth, third);

    let list = discover(&parent, None).unwrap();
    assert!(list[0].parent_changed);
    assert_eq!((list[0].ahead, list[0].behind), (3, 0));
}

#[test]
fn entry_that_is_not_on_disk_is_not_opened() {
    let dir = tempfile::tempdir().unwrap();
    let repo = Repository::init(dir.path()).unwrap();
    let entry = DeclaredSubmodule {
        name: None,
        path: PathBuf::from("vendor/bar"),
        path_text: Some("vendor/bar".to_string()),
        url: None,
    };
    // The path given would not open, and is not tried.
    let info = snapshot_entry(&repo, &entry, &dir.path().join("vendor/bar"), false).unwrap();
    assert_eq!(info.name, "");
    assert_eq!(info.url, "");
    assert_eq!(info.path, PathBuf::from("vendor/bar"));
    assert_eq!(info.branch, None);
    assert_eq!(info.head_commit, None);
    assert!(!info.is_dirty);
    assert!(!info.parent_changed);

    let err = snapshot_entry(&repo, &entry, &dir.path().join("vendor/bar"), true).unwrap_err();
    assert!(matches!(err, DiscoverError::OpenFailed { .. }));
}

#[test]
fn observation_of_a_checkout() {
    let dir = tempfile::tempdir().unwrap();
    let (_parent, sub, third) = parent_with_foo(dir.path());
    let obs = observe(&sub);
    let head = obs.head.unwrap();
    assert!(head.is_branch);
    assert_eq!(head.shorthand.as_deref(), Some("main"));
    assert_eq!(head.target, Some(third.to_string()));
    let commit = obs.commit.unwrap();
    assert_eq!(commit.id, third.to_string());
    assert_eq!(commit.summary.as_deref(), Some("third change"));
    assert!(obs.statuses.is_empty());
    assert_eq!(obs.upstream.map(|id| id.len()), Some(40));
    assert_eq!(obs.ahead_behind, Some((2, 0)));
}

#[test]
fn observation_of_an_empty_repository() {
    let dir = tempfile::tempdir().unwrap();
    let repo = Repository::init(dir.path()).unwrap();
    let obs = observe(&repo);
    assert!(obs.head.is_none());
    assert!(obs.commit.is_none());
    assert!(obs.statuses.is_empty());
    assert_eq!(obs.upstream, None);
    assert_eq!(obs.ahead_behind, None);
}

#[test]
fn statuses_are_retried_only_after_a_failure() {
    let dir = tempfile::tempdir().unwrap();
    let (_parent, sub, _third) = parent_with_foo(dir.path());
    assert_eq!(statuses_or_retry(&sub, Ok(vec![1, 128])), vec![1, 128]);
    // The working tree is clean, and that is what the second enumeration finds.
    let failed = Err(git2::Error::from_str("no status"));
    assert!(statuses_or_retry(&sub, failed).is_empty());

    // A bare repository has no working tree to enumerate at all.
    let bare_dir = tempfile::tempdir().unwrap();
    let bare = Repository::init_bare(bare_dir.path()).unwrap();
    let failed = Err(git2::Error::from_str("no status"));
    assert!(statuses_or_retry(&bare, failed).is_empty());
}

#[test]
fn observation_keeps_what_was_read_first() {
    let dir = tempfile::tempdir().unwrap();
    let (_parent, sub, third) = parent_with_foo(dir.path());
    let head = HeadState {
        is_branch: true,
        shorthand: Some("main".to_string()),
        target: Some(third.to_string()),
    };
    let commit = HeadCommit { id: third.to_string(), summary: None };
    let obs = observe_from(&sub, Some(head), Some(commit), Ok(vec![256, 128]));
    assert_eq!(obs.head.unwrap().shorthand.as_deref(), Some("main"));
    assert_eq!(obs.commit.unwrap().id, third.to_string());
    assert_eq!(obs.statuses, vec![256, 128]);
    assert!(obs.upstream.is_some());
    assert_eq!(obs.ahead_behind, Some((2, 0)));

    // A branch that has no counterpart at origin is not measured.
    let head = HeadState {
        is_branch: true,
        shorthand: Some("topic".to_string()),
        target: Some(third.to_string()),
    };
    let obs = observe_from(&sub, Some(head), None, Ok(Vec::new()));
    assert_eq!(obs.upstream, None);
    assert_eq!(obs.ahead_behind, None);

    // Nor is a checkout that is on no branch, whatever origin holds.
    let head = HeadState {
        is_branch: false,
        shorthand: Some("main".to_string()),
        target: Some(third.to_string()),
    };
    let obs = observe_from(&sub, Some(head), None, Ok(Vec::new()));
    assert_eq!(obs.upstream, None);
    assert_eq!(obs.ahead_behind, None);

    let obs = observe_from(&sub, None, None, Ok(Vec::new()));
    assert!(obs.head.is_none());
    assert_eq!(obs.upstream, None);
    assert_eq!(obs.ahead_behind, None);
}

#[test]
fn path_without_usable_text_shows_no_change() {
    let dir = tempfile::tempdir().unwrap();
    let (parent, sub, third) = parent_with_foo(dir.path());
    assert!(!check_parent_changed(&parent, &None));
    assert!(!check_parent_changed(&parent, &Some("libs/\0foo".to_string())));
    assert!(!check_parent_changed(&parent, &Some("libs/foo".to_string())));
    assert!(!check_parent_changed(&parent, &Some("libs/other".to_string())));

    commit_files(&sub, "refs/heads/main", &[("a.txt", "three\n")], &[third], "fourth");
    assert!(check_parent_changed(&parent, &Some("libs/foo".to_string())));
    assert!(!check_parent_changed(&parent, &Some("libs/\0foo".to_string())));
    assert!(!check_parent_changed(&parent, &None));
}

#[test]
fn failed_open_fails_and_names_the_path() {
    let failure = git2::Error::from_str("not a repository");
    let err = gather_info(
        "foo",
        &PathBuf::from("libs/foo"),
        "https://example.org/foo.git",
        "/work/libs/foo".to_string(),
        Err(failure),
    )
    .unwrap_err();
    match &err {
        DiscoverError::OpenFailed { path, detail } => {
            assert_eq!(path, "/work/libs/foo");
            assert_eq!(detail, "not a repository");
        }
        other => panic!("unexpected error: {:?}", other),
    }
    assert_eq!(err.message(), "Failed to open submodule repo at /work/libs/foo");
}

#[test]
fn opened_repository_always_gives_a_record() {
    let dir = tempfile::tempdir().unwrap();
    let (_parent, sub, third) = parent_with_foo(dir.path());
    let info = gather_info(
        "foo",
        &PathBuf::from("libs/foo"),
        "https://example.org/foo.git",
        "shown".to_string(),
        Ok(sub),
    )
    .unwrap();
    assert_eq!(info.name, "foo");
    assert_eq!(info.path, PathBuf::from("libs/foo"));
    assert_eq!(info.url, "https://example.org/foo.git");
    assert_eq!(info.branch.as_deref(), Some("main"));
    assert_eq!(info.head_commit.as_deref(), Some(&third.to_string()[..7]));
    assert_eq!((info.ahead, info.behind), (2, 0));
    assert!(!info.parent_changed);

    // An empty repository opens, and that is enough.
    let empty_dir = tempfile::tempdir().unwrap();
    let empty = Repository::init(empty_dir.path()).unwrap();
    let info =
        gather_info("e", &PathBuf::from("e"), "", "shown".to_string(), Ok(empty)).unwrap();
    assert_eq!(info.branch, None);
    assert_eq!(info.head_commit, None);
    assert_eq!(info.head_message, None);
    assert_eq!((info.staged, info.modified, info.untracked), (0, 0, 0));
    assert!(!info.is_dirty);
}

#[test]
fn second_failed_enumeration_leaves_no_entries() {
    assert_eq!(statuses_after_retry(Ok(vec![256, 1])), vec![256, 1]);
    assert!(statuses_after_retry(Ok(Vec::new())).is_empty());
    assert!(statuses_after_retry(Err(git2::Error::from_str("no status"))).is_empty());
}

#[test]
fn declared_path_text_is_read() {
    let dir = tempfile::tempdir().unwrap();
    let repo = Repository::init(dir.path()).unwrap();
    declare_only(&repo, &[("bar", "vendor/bar", "https://example.org/bar.git")]);
    // The pointer is staged under the path, and is found by the path's text.
    assert!(check_parent_changed(&repo, &Some("vendor/bar".to_string())));
    assert!(!check_parent_changed(&repo, &Some("vendor/baz".to_string())));
    let list = discover(&repo, Some("bar")).unwrap();
    assert_eq!(list.len(), 1);
    assert!(list[0].parent_changed);
}

#[test]
fn record_is_made_from_what_was_found_out() {
    let entry = DeclaredSubmodule {
        name: Some("bar".to_string()),
        path: PathBuf::from("vendor/bar"),
        path_text: Some("vendor/bar".to_string()),
        url: Some("https://example.org/bar.git".to_string()),
    };
    // Nothing on disk: the parent's answer still goes into the record.
    for answer in [false, true] {
        let info = snapshot_from(&entry, "shown".to_string(), None, answer).unwrap();
        assert_eq!(info.name, "bar");
        assert_eq!(info.path, PathBuf::from("vendor/bar"));
        assert_eq!(info.url, "https://example.org/bar.git");
        assert_eq!(info.branch, None);
        assert_eq!(info.head_commit, None);
        assert_eq!(info.head_message, None);
        assert!(!info.is_dirty);
        assert_eq!(
            (info.ahead, info.behind, info.staged, info.modified, info.untracked),
            (0, 0, 0, 0, 0)
        );
        assert_eq!(info.parent_changed, answer);
    }

    // A failed open fails the whole, whatever the parent answered.
    for answer in [false, true] {
        let failed = Some(Err(git2::Error::from_str("not a repository")));
        let err = snapshot_from(&entry, "/work/vendor/bar".to_string(), failed, answer)
            .unwrap_err();
        assert_eq!(err.message(), "Failed to open submodule repo at /work/vendor/bar");
    }

    // An opened repository gives its record, with the parent's answer.
    let dir = tempfile::tempdir().unwrap();
    let (_parent, sub, _third) = parent_with_foo(dir.path());
    let info = snapshot_from(&entry, "shown".to_string(), Some(Ok(sub)), true).unwrap();
    assert_eq!(info.name, "bar");
    assert_eq!(info.branch.as_deref(), Some("main"));
    assert_eq!((info.ahead, info.behind), (2, 0));
    assert!(info.parent_changed);
}

#[test]
fn declaration_that_cannot_be_looked_up_is_an_error() {
    let dir = tempfile::tempdir().unwrap();
    let repo = Repository::init(dir.path()).unwrap();
    // A section that names a submodule but gives it neither path nor URL.
    let text = "[submodule \"ghost\"]\n\tactive = true\n";
    let mut index = repo.index().unwrap();
    index
        .add_frombuffer(&index_entry(".gitmodules", REGULAR, Oid::zero()), text.as_bytes())
        .unwrap();
    index.write().unwrap();
    let mut checkout = CheckoutBuilder::new();
    checkout.force().path(".gitmodules");
    repo.checkout_index(Some(&mut index), Some(&mut checkout)).unwrap();

    match discover(&repo, None) {
        Err(DiscoverError::SubmodulesUnreadable { detail }) => assert!(!detail.is_empty()),
        other => panic!("unexpected result: {:?}", other),
    }
}
