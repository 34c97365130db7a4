use ralphtown::git::{
    classify_clone_error, Branch, CloneError, CloneProgress, CommandOutput, DiffTotals, ErrorClass,
    FileDelta, FileStatus, FileStatusType, GitError, GitFailure, GitManager, PatchLines, RawBranch,
    RawCommit, RawDelta, StatusEntry, StatusFlags,
};

fn flags() -> StatusFlags {
    StatusFlags {
        index_new: false,
        index_modified: false,
        index_deleted: false,
        index_renamed: false,
        wt_new: false,
        wt_modified: false,
        wt_deleted: false,
        wt_renamed: false,
    }
}

fn entry(path: &str, flags: StatusFlags) -> StatusEntry {
    StatusEntry {
        path: Some(path.to_string()),
        flags,
        index_old_path: Some(format!("old-index/{}", path)),
        workdir_old_path: Some(format!("old-wt/{}", path)),
    }
}

fn args(words: &[&str]) -> Vec<String> {
    words.iter().map(|w| w.to_string()).collect()
}

#[test]
fn test_checkout_invalid_branch() {
    let result = GitManager::checkout("/tmp", "--invalid");
    assert!(matches!(result, Err(GitError::InvalidBranch(_))));

    let result = GitManager::checkout("/tmp", "foo..bar");
    assert!(matches!(result, Err(GitError::InvalidBranch(_))));
}

#[test]
fn checkout_takes_ordinary_names_and_refuses_the_others() {
    let c = GitManager::checkout("/repo", "feature/x.y").unwrap();
    assert_eq!(c.program, "git");
    assert_eq!(c.working_dir, "/repo");
    assert_eq!(c.args, args(&["checkout", "feature/x.y"]));
    assert_eq!(
        GitManager::checkout("/repo", "a\0b"),
        Err(GitError::InvalidBranch("a\0b".to_string()))
    );
    assert_eq!(GitManager::checkout("/repo", ".."), Err(GitError::InvalidBranch("..".to_string())));
    assert_eq!(GitManager::checkout("/repo", "-"), Err(GitError::InvalidBranch("-".to_string())));
    assert!(GitManager::checkout("/repo", "a.b.c").is_ok());
    assert!(GitManager::checkout("/repo", "a-b").is_ok());
    assert!(GitManager::checkout("/repo", "").is_ok());
}

#[test]
fn write_commands_have_their_fixed_arguments() {
    assert_eq!(GitManager::pull("/r").args, args(&["pull"]));
    assert_eq!(GitManager::push("/r").args, args(&["push"]));
    assert_eq!(GitManager::commit("/r", "a message").args, args(&["commit", "-m", "a message"]));
    assert_eq!(GitManager::reset_hard("/r").args, args(&["reset", "--hard"]));
    assert_eq!(GitManager::add_all("/r").args, args(&["add", "-A"]));
    let c = GitManager::pull("/some/repo");
    assert_eq!((c.program.as_str(), c.working_dir.as_str()), ("git", "/some/repo"));
}

#[test]
fn command_that_could_not_run_is_a_command_failure() {
    let out = CommandOutput { success: false, stdout: "".to_string(), stderr: "fatal".to_string() };
    assert_eq!(GitManager::run_git_command(Ok(out.clone())), Ok(out));
    assert_eq!(
        GitManager::run_git_command(Err("No such file".to_string())),
        Err(GitError::CommandFailed("Failed to run git: No such file".to_string()))
    );
    assert_eq!(
        GitError::CommandFailed("x".to_string()).to_string(),
        "Git command failed: x"
    );
    assert_eq!(GitError::NotARepo("x".to_string()).to_string(), "Not a git repository: x");
    assert_eq!(GitError::OperationFailed("x".to_string()).to_string(), "Git operation failed: x");
    assert_eq!(GitError::InvalidBranch("x".to_string()).to_string(), "Invalid branch name: x");
}

#[test]
fn clone_failures_are_classified_by_subsystem() {
    let ssh = classify_clone_error(GitFailure { class: ErrorClass::Ssh, message: "m".to_string() });
    match &ssh {
        CloneError::SshAuthFailed { message, help_steps } => {
            assert_eq!(message, "m");
            assert_eq!(
                help_steps,
                &vec![
                    "Ensure your SSH key is added to ssh-agent: ssh-add ~/.ssh/id_ed25519",
                    "Verify your key is added to GitHub: ssh -T git@github.com",
                    "If using a passphrase, the ssh-agent must have the key unlocked",
                ]
            );
        }
        other => panic!("unexpected: {:?}", other),
    }
    assert_eq!(ssh.to_string(), "SSH authentication failed: m");
    let http = classify_clone_error(GitFailure { class: ErrorClass::Http, message: "m".to_string() });
    match &http {
        CloneError::HttpsAuthFailed { message, help_steps } => {
            assert_eq!(message, "m");
            assert_eq!(
                help_steps,
                &vec![
                    "HTTPS cloning requires a Personal Access Token (PAT)",
                    "Create a PAT at GitHub Settings > Developer Settings > Tokens",
                    "Use the PAT as password when prompted, or configure git credential helper",
                ]
            );
        }
        other => panic!("unexpected: {:?}", other),
    }
    assert_eq!(http.to_string(), "HTTPS authentication failed: m");
    let net = classify_clone_error(GitFailure { class: ErrorClass::Net, message: "m".to_string() });
    assert_eq!(net, CloneError::NetworkError { message: "m".to_string() });
    assert_eq!(net.to_string(), "Network error: m");
    for class in [ErrorClass::Uncategorized, ErrorClass::Os, ErrorClass::Ssl, ErrorClass::Invalid] {
        let other = classify_clone_error(GitFailure { class, message: "m".to_string() });
        assert_eq!(other, CloneError::OperationFailed { message: "m".to_string() });
        assert_eq!(other.to_string(), "Clone operation failed: m");
    }
}

#[test]
fn test_status_clean_repo() {
    // One commit on `main`, no upstream, nothing changed.
    let status = GitManager::status("main".to_string(), None, &Vec::new());
    assert!(!status.branch.is_empty());
    assert_eq!(status.branch, "main");
    assert_eq!((status.ahead, status.behind), (0, 0));
    assert!(status.staged.is_empty());
    assert!(status.unstaged.is_empty());
    assert!(status.untracked.is_empty());
}

#[test]
fn status_sorts_entries_into_staged_unstaged_and_untracked() {
    let entries = vec![
        entry("new_file.txt", StatusFlags { wt_new: true, ..flags() }),
        entry("tracked.txt", StatusFlags { wt_modified: true, ..flags() }),
        entry("added.txt", StatusFlags { index_new: true, wt_modified: true, ..flags() }),
        entry("moved.txt", StatusFlags { index_renamed: true, ..flags() }),
        entry("gone.txt", StatusFlags { index_deleted: true, wt_new: true, ..flags() }),
        entry("both.txt", StatusFlags { index_new: true, index_modified: true, ..flags() }),
        entry("wt-moved.txt", StatusFlags { wt_renamed: true, ..flags() }),
        entry("wt-gone.txt", StatusFlags { wt_deleted: true, wt_renamed: true, ..flags() }),
        StatusEntry {
            path: None,
            flags: StatusFlags { index_modified: true, ..flags() },
            index_old_path: None,
            workdir_old_path: None,
        },
        entry("quiet.txt", flags()),
    ];
    let status = GitManager::status("dev".to_string(), Some((3, 1)), &entries);
    assert_eq!((status.ahead, status.behind), (3, 1));
    assert_eq!(status.untracked, vec!["new_file.txt", "gone.txt"]);
    let plain = |path: &str, status: FileStatusType| FileStatus {
        path: path.to_string(),
        status,
        old_path: None,
    };
    assert_eq!(
        status.staged,
        vec![
            plain("added.txt", FileStatusType::Added),
            FileStatus {
                path: "moved.txt".to_string(),
                status: FileStatusType::Renamed,
                old_path: Some("old-index/moved.txt".to_string()),
            },
            plain("gone.txt", FileStatusType::Deleted),
            plain("both.txt", FileStatusType::Added),
            plain("", FileStatusType::Modified),
        ]
    );
    assert_eq!(
        status.unstaged,
        vec![
            plain("tracked.txt", FileStatusType::Modified),
            plain("added.txt", FileStatusType::Modified),
            FileStatus {
                path: "wt-moved.txt".to_string(),
                status: FileStatusType::Renamed,
                old_path: Some("old-wt/wt-moved.txt".to_string()),
            },
            plain("wt-gone.txt", FileStatusType::Deleted),
        ]
    );
    assert_eq!(status.unstaged[0].status, FileStatusType::Modified);
}

fn raw_commit(id: &str, message: &str, seconds: i64) -> RawCommit {
    RawCommit {
        id: id.to_string(),
        message: Some(message.to_string()),
        author: Some("Test User".to_string()),
        email: Some("test@example.com".to_string()),
        seconds,
    }
}

#[test]
fn log_entries_are_built_from_the_commits_read() {
    let commits = vec![
        raw_commit("0123456789abcdef0123456789abcdef01234567", "  Initial commit\n\n", 1431648000),
        raw_commit("abc", "\u{a0}second\t", 0),
        RawCommit { id: "f00".to_string(), message: None, author: None, email: None, seconds: i64::MAX },
    ];
    let log = GitManager::log(&commits, 10);
    assert_eq!(log.len(), 3);
    assert_eq!(log[0].id, "0123456789abcdef0123456789abcdef01234567");
    assert_eq!(log[0].short_id, "0123456");
    assert_eq!(log[0].message, "Initial commit");
    assert_eq!(log[0].author, "Test User");
    assert_eq!(log[0].email, "test@example.com");
    assert_eq!(log[0].timestamp, "2015-05-15T00:00:00+00:00");
    assert_eq!(log[1].short_id, "abc");
    assert_eq!(log[1].message, "second");
    assert_eq!(log[1].timestamp, "1970-01-01T00:00:00+00:00");
    assert_eq!(log[2].message, "");
    assert_eq!(log[2].author, "");
    assert_eq!(log[2].email, "");
    assert_eq!(log[2].timestamp, "");
    assert_eq!(GitManager::log(&commits, 2).len(), 2);
    assert_eq!(GitManager::log(&commits, 2)[1], log[1]);
    assert!(GitManager::log(&commits, 0).is_empty());
    let entry = GitManager::commit_entry(&commits[0], Some("when".to_string()));
    assert_eq!(entry.timestamp, "when");
    assert_eq!(entry.short_id, "0123456");
}

#[test]
fn branches_list_local_then_remote_without_remote_head() {
    let local = vec![
        RawBranch { name: Some("main".to_string()), upstream: Some("origin/main".to_string()) },
        RawBranch { name: Some("dev".to_string()), upstream: None },
        RawBranch { name: None, upstream: None },
    ];
    let remote = vec![
        Some("origin/HEAD".to_string()),
        Some("origin/main".to_string()),
        None,
        Some("HEAD".to_string()),
        Some("origin/HEADS".to_string()),
    ];
    let list = GitManager::branches(&Some("main".to_string()), &local, &remote);
    let branch = |name: &str, is_current: bool, is_remote: bool, upstream: Option<&str>| Branch {
        name: name.to_string(),
        is_current,
        is_remote,
        upstream: upstream.map(|u| u.to_string()),
    };
    assert_eq!(
        list,
        vec![
            branch("main", true, false, Some("origin/main")),
            branch("dev", false, false, None),
            branch("", false, false, None),
            branch("origin/main", false, true, None),
            branch("", false, true, None),
            branch("HEAD", false, true, None),
            branch("origin/HEADS", false, true, None),
        ]
    );
    let unknown = GitManager::branches(&None, &local, &Vec::new());
    assert_eq!(unknown.iter().filter(|b| b.is_current).count(), 1);
    assert_eq!(unknown[2].name, "");
    assert!(unknown[2].is_current);
}

#[test]
fn diff_statistics_fall_back_to_the_totals() {
    let totals = DiffTotals { files_changed: 2, insertions: 7, deletions: 3 };
    let none = DiffTotals { files_changed: 0, insertions: 0, deletions: 0 };
    assert!(GitManager::diff_stats(&Vec::new(), none).is_empty());
    let files = vec![
        RawDelta {
            path: Some("tracked.txt".to_string()),
            lines: PatchLines::Counted { added: 2, removed: 1 },
        },
        RawDelta { path: Some("image.png".to_string()), lines: PatchLines::NoPatch },
        RawDelta { path: None, lines: PatchLines::Uncounted },
    ];
    assert_eq!(
        GitManager::diff_stats(&files, totals),
        vec![
            FileDelta { path: "tracked.txt".to_string(), added: 2, removed: 1 },
            FileDelta { path: "".to_string(), added: 0, removed: 0 },
        ]
    );
    let binary = vec![RawDelta { path: Some("image.png".to_string()), lines: PatchLines::NoPatch }];
    assert_eq!(
        GitManager::diff_stats(&binary, totals),
        vec![FileDelta {
            path: "(binary or unreadable files)".to_string(),
            added: 7,
            removed: 3
        }]
    );
    assert!(GitManager::diff_stats(&binary, none).is_empty());
}

#[test]
fn head_is_named_after_branch_or_commit() {
    let name = Some("main".to_string());
    let id = Some("0123456789abcdef".to_string());
    assert_eq!(GitManager::get_current_branch(true, &name, &id), "main");
    assert_eq!(GitManager::get_current_branch(true, &None, &id), "HEAD");
    assert_eq!(GitManager::get_current_branch(false, &name, &id), "0123456");
    assert_eq!(GitManager::get_current_branch(false, &name, &Some("ab".to_string())), "ab");
    assert_eq!(GitManager::get_current_branch(false, &name, &None), "HEAD");
}

#[test]
fn flooding_the_progress_channel_never_stops_the_clone() {
    let (tx, mut rx) = tokio::sync::mpsc::channel::<CloneProgress>(4);
    let snapshot = |n: usize| CloneProgress {
        received_objects: n,
        total_objects: 1000,
        received_bytes: n,
        indexed_objects: n,
        total_deltas: 0,
        indexed_deltas: 0,
    };
    for n in 0..1000 {
        assert!(GitManager::report_progress(&tx, snapshot(n)));
    }
    // what fitted was queued in order; the rest was dropped
    let mut received = Vec::new();
    while let Ok(p) = rx.try_recv() {
        received.push(p);
    }
    assert_eq!(received, vec![snapshot(0), snapshot(1), snapshot(2), snapshot(3)]);
    // a drained channel takes snapshots again
    assert!(GitManager::report_progress(&tx, snapshot(5000)));
    assert_eq!(rx.try_recv().ok(), Some(snapshot(5000)));
    // a closed channel does not stop the clone either
    drop(rx);
    assert!(GitManager::report_progress(&tx, snapshot(1)));
}

#[test]
fn test_status_with_untracked() {
    let entries = vec![StatusEntry {
        path: Some("new_file.txt".to_string()),
        flags: StatusFlags { wt_new: true, ..flags() },
        index_old_path: None,
        workdir_old_path: None,
    }];
    let status = GitManager::status("main".to_string(), None, &entries);

    assert_eq!(status.untracked.len(), 1);
    assert!(status.untracked.contains(&"new_file.txt".to_string()));
    assert!(status.staged.is_empty());
    assert!(status.unstaged.is_empty());
}

#[test]
fn test_status_with_modified() {
    // `tracked.txt` was committed and then changed in the working tree.
    let entries = vec![StatusEntry {
        path: Some("tracked.txt".to_string()),
        flags: StatusFlags { wt_modified: true, ..flags() },
        index_old_path: None,
        workdir_old_path: Some("tracked.txt".to_string()),
    }];
    let status = GitManager::status("main".to_string(), None, &entries);

    assert_eq!(status.unstaged.len(), 1);
    assert_eq!(status.unstaged[0].status, FileStatusType::Modified);
    assert_eq!(status.unstaged[0].path, "tracked.txt");
    assert_eq!(status.unstaged[0].old_path, None);
}

#[test]
fn test_log() {
    let read = vec![raw_commit(
        "0123456789abcdef0123456789abcdef01234567",
        "Initial commit",
        1700000000,
    )];
    let commits = GitManager::log(&read, 10);

    assert_eq!(commits.len(), 1);
    assert_eq!(commits[0].message, "Initial commit");
}

#[test]
fn test_branches() {
    let local = vec![RawBranch { name: Some("main".to_string()), upstream: None }];
    let branches = GitManager::branches(&Some("main".to_string()), &local, &Vec::new());

    let local_branches: Vec<_> = branches.iter().filter(|b| !b.is_remote).collect();
    assert!(!local_branches.is_empty());

    let current = branches.iter().find(|b| b.is_current);
    assert!(current.is_some());
}

#[test]
fn test_diff_stats_no_changes() {
    let totals = DiffTotals { files_changed: 0, insertions: 0, deletions: 0 };
    let deltas = GitManager::diff_stats(&Vec::new(), totals);

    assert!(deltas.is_empty());
}

#[test]
fn test_diff_stats_with_changes() {
    // "line1\nline2\nline3\n" became "line1\nmodified\nline3\nnew line\n".
    let files = vec![RawDelta {
        path: Some("tracked.txt".to_string()),
        lines: PatchLines::Counted { added: 2, removed: 1 },
    }];
    let totals = DiffTotals { files_changed: 1, insertions: 2, deletions: 1 };
    let deltas = GitManager::diff_stats(&files, totals);

    assert!(!deltas.is_empty());
    let delta = &deltas[0];
    assert_eq!(delta.path, "tracked.txt");
    assert!(delta.added > 0 || delta.removed > 0);
    assert_eq!((delta.added, delta.removed), (2, 1));
}

#[test]
fn test_clone_invalid_url() {
    // A text that is no URL fails in the transport or in the file system,
    // never as an authentication failure.
    let failures = [
        (ErrorClass::Net, "unsupported URL protocol"),
        (ErrorClass::Os, "failed to resolve path 'not-a-valid-url'"),
        (ErrorClass::Invalid, "invalid url"),
    ];
    for (class, message) in failures {
        let result = classify_clone_error(GitFailure { class, message: message.to_string() });
        match result {
            CloneError::OperationFailed { .. } | CloneError::NetworkError { .. } => {}
            other => panic!("Unexpected error type: {:?}", other),
        }
    }
}
