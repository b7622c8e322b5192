use grw::git::worker::{base_parent, changes_from_deltas, generate_diff, totals_fit_of, history_from_walk, last_commit_entries, sort_status_entries, DeltaInfo, DiffType, StatusEntry, WalkStep};
use grw::git::repo::DeltaKind;
use grw::git::worker::{
    branch_label, change_status, commit_label, count_line_changes, file_totals,
    get_commit_file_changes_static, is_transient_error, last_commit_file_diff, placement,
    retry_step, short_sha, view_mode_by_priority, GitWorker, RetryStep,
};
use grw::git::{FileChangeStatus, FileDiff, Status, ViewMode};
use grw::shared_state::GitSharedState;
use std::path::Path;

fn fresh_repo_path(name: &str) -> String {
    let nanos = std::time::SystemTime::now()
        .duration_since(std::time::UNIX_EPOCH)
        .unwrap()
        .as_nanos();
    format!("/tmp/grw-worker-test-{}-{}", name, nanos)
}

/// A new repository; commits are made from in-memory blobs, each giving the
/// full set of files of its tree.
fn create_test_repo(name: &str) -> (git2::Repository, String) {
    let path = fresh_repo_path(name);
    let repo = git2::Repository::init(&path).unwrap();
    (repo, path)
}

fn commit_files(repo: &git2::Repository, files: &[(&str, &str)], message: &str) -> git2::Oid {
    let mut builder = repo.treebuilder(None).unwrap();
    for (name, content) in files {
        let blob = repo.blob(content.as_bytes()).unwrap();
        builder.insert(name, blob, 0o100644).unwrap();
    }
    let tree_id = builder.write().unwrap();
    let tree = repo.find_tree(tree_id).unwrap();
    let signature = git2::Signature::now("Test User", "test@example.com").unwrap();
    let parent = repo.head().ok().and_then(|h| h.peel_to_commit().ok());
    let parents: Vec<&git2::Commit> = match &parent {
        Some(p) => vec![p],
        None => vec![],
    };
    repo.commit(Some("HEAD"), &signature, &signature, message, &tree, &parents).unwrap()
}

#[test]
fn test_get_commit_history() {
    let (repo, path) = create_test_repo("test_get_commit_history");
    commit_files(&repo, &[("file1.txt", "Hello World")], "Initial commit");
    commit_files(&repo, &[("file1.txt", "Hello World"), ("file2.txt", "Second file")], "Add second file");
    commit_files(
        &repo,
        &[("file1.txt", "Hello World Updated"), ("file2.txt", "Second file")],
        "Update first file",
    );

    let mut shared = GitSharedState::new();
    let worker = GitWorker::new(&path).unwrap();
    let commits = worker.get_commit_history(&mut shared, 10).unwrap();

    assert_eq!(commits.len(), 3);
    let messages: Vec<&str> = commits.iter().map(|c| c.message.as_str()).collect();
    assert!(messages.contains(&"Update first file"));
    assert!(messages.contains(&"Add second file"));
    assert!(messages.contains(&"Initial commit"));
    for commit in &commits {
        assert!(!commit.sha.is_empty());
        assert_eq!(commit.short_sha.len(), 7);
        assert!(commit.sha.starts_with(&commit.short_sha));
    }
}

#[test]
fn test_get_commit_history_with_limit() {
    let (repo, path) = create_test_repo("test_get_commit_history_with_limit");
    let mut files: Vec<(String, String)> = Vec::new();
    for i in 1..=5 {
        files.push((format!("file{}.txt", i), "content".to_string()));
        let refs: Vec<(&str, &str)> = files.iter().map(|(a, b)| (a.as_str(), b.as_str())).collect();
        commit_files(&repo, &refs, &format!("Commit {}", i));
    }
    let mut shared = GitSharedState::new();
    let worker = GitWorker::new(&path).unwrap();
    let commits = worker.get_commit_history(&mut shared, 3).unwrap();
    assert_eq!(commits.len(), 3);
    assert!(commits.iter().any(|c| c.message.starts_with("Commit")));
}

#[test]
fn test_get_commit_file_changes() {
    let (repo, path) = create_test_repo("test_get_commit_file_changes");
    let commit1 = commit_files(&repo, &[("file1.txt", "Hello\nWorld\n")], "Initial commit");
    let commit2 = commit_files(
        &repo,
        &[("file1.txt", "Hello\nWorld\nUpdated\n"), ("file2.txt", "New file\ncontent\n")],
        "Add and modify files",
    );

    let changes1 = get_commit_file_changes_static(&repo, &path, &commit1.to_string()).unwrap();
    assert_eq!(changes1.len(), 1);
    assert!(Path::new(&changes1[0].path).ends_with("file1.txt"));
    assert_eq!(changes1[0].status, FileChangeStatus::Added);
    assert_eq!(changes1[0].additions, 2);

    let changes2 = get_commit_file_changes_static(&repo, &path, &commit2.to_string()).unwrap();
    assert_eq!(changes2.len(), 2);
    let file1_change = changes2.iter().find(|c| Path::new(&c.path).ends_with("file1.txt")).unwrap();
    let file2_change = changes2.iter().find(|c| Path::new(&c.path).ends_with("file2.txt")).unwrap();
    assert_eq!(file1_change.status, FileChangeStatus::Modified);
    assert_eq!(file1_change.additions, 1);
    assert_eq!(file1_change.deletions, 0);
    assert_eq!(file2_change.status, FileChangeStatus::Added);
    assert_eq!(file1_change.path, format!("{}/file1.txt", path));
}

#[test]
fn test_get_commit_file_changes_with_deletion() {
    let (repo, path) = create_test_repo("test_get_commit_file_changes_with_deletion");
    commit_files(&repo, &[("file1.txt", "Content 1")], "Initial commit");
    commit_files(&repo, &[("file1.txt", "Content 1"), ("file2.txt", "Content 2")], "Add second file");
    let commit3 = commit_files(&repo, &[("file2.txt", "Content 2")], "Delete file1.txt");
    let changes = get_commit_file_changes_static(&repo, &path, &commit3.to_string()).unwrap();
    assert_eq!(changes.len(), 1);
    assert!(Path::new(&changes[0].path).ends_with("file1.txt"));
    assert_eq!(changes[0].status, FileChangeStatus::Deleted);
}

#[test]
fn test_empty_repository() {
    let (_repo, path) = create_test_repo("test_empty_repository");
    let mut shared = GitSharedState::new();
    let worker = GitWorker::new(&path).unwrap();
    let commits = worker.get_commit_history(&mut shared, 10).unwrap();
    assert_eq!(commits.len(), 0);
}

#[test]
fn test_error_handling_invalid_commit_sha() {
    let (repo, path) = create_test_repo("test_error_handling_invalid_commit_sha");
    commit_files(&repo, &[("test.txt", "content")], "Test commit");
    assert!(get_commit_file_changes_static(&repo, &path, "invalid_sha").is_err());
    let empty = get_commit_file_changes_static(&repo, &path, "");
    assert_eq!(empty.unwrap_err(), "Empty commit SHA");
}

#[test]
fn test_commit_caching() {
    let (repo, path) = create_test_repo("test_commit_caching");
    commit_files(&repo, &[("file1.txt", "content1")], "First commit");
    commit_files(&repo, &[("file1.txt", "content1"), ("file2.txt", "content2")], "Second commit");
    commit_files(
        &repo,
        &[("file1.txt", "content1"), ("file2.txt", "content2"), ("file3.txt", "content3")],
        "Third commit",
    );
    let mut shared = GitSharedState::new();
    let worker = GitWorker::new(&path).unwrap();
    let commits1 = worker.get_commit_history(&mut shared, 10).unwrap();
    assert_eq!(commits1.len(), 3);
    for c in &commits1 {
        let cached = shared.get_cached_commit(&c.sha).unwrap();
        assert_eq!(cached.sha, c.sha);
        assert_eq!(cached.message, c.message);
    }
    let commits2 = worker.get_commit_history(&mut shared, 10).unwrap();
    assert_eq!(commits2.len(), 3);
    assert_eq!(commits1[0].sha, commits2[0].sha);
}

#[test]
fn test_error_handling_missing_repository() {
    assert!(GitWorker::new("/invalid/path/that/does/not/exist").is_err());
}

#[test]
fn test_git_worker_detects_head_changes() {
    let (repo, path) = create_test_repo("test_git_worker_detects_head_changes");
    let commit1 = commit_files(&repo, &[("file1.txt", "Initial content")], "Initial commit");
    let mut worker = GitWorker::new(&path).unwrap();
    assert_eq!(worker.last_head_commit_id(), Some(commit1.to_string().as_str()));
    assert_eq!(worker.last_commit_id(), Some(commit1.to_string().as_str()));

    assert!(!worker.detect_head_change());

    let commit2 = commit_files(&repo, &[("file1.txt", "Initial content"), ("file2.txt", "Second")], "Second commit");
    worker.set_last_commit_files(vec![FileDiff {
        path: "x".to_string(),
        status: Status::from_bits_truncate(2),
        line_strings: vec![],
        additions: 0,
        deletions: 0,
    }]);
    assert!(worker.detect_head_change());
    assert_eq!(worker.last_head_commit_id(), Some(commit2.to_string().as_str()));
    assert_eq!(worker.last_commit_id(), Some(commit2.to_string().as_str()));
    assert!(worker.last_commit_files().is_empty());
}

#[test]
fn test_git_worker_publishes_snapshot() {
    let (repo, path) = create_test_repo("test_git_worker_publishes_snapshot");
    commit_files(&repo, &[("file1.txt", "content1")], "First commit");
    let mut worker = GitWorker::new(&path).unwrap();
    let mut shared = GitSharedState::new();
    shared.set_error("git_status".to_string(), "old".to_string());
    let refresh = worker.finish_update(vec![], vec![], vec![], false);
    assert!(refresh);
    worker.publish_success(&mut shared);
    assert!(shared.get_error("git_status").is_none());
    let snapshot = shared.get_repo().unwrap();
    assert_eq!(snapshot.current_view_mode, ViewMode::LastCommit);
    assert!(!snapshot.repo_name.is_empty());
    assert!(!snapshot.branch_name.is_empty());
    assert_eq!(snapshot.commit_info.1, "First commit");
    assert_eq!(snapshot.commit_info.0.len(), 7);
    GitWorker::publish_failure(&mut shared, "boom".to_string());
    assert_eq!(shared.get_error("git_status"), Some("boom".to_string()));
}

#[test]
fn test_short_sha() {
    assert_eq!(short_sha("0123456789abcdef"), "0123456");
    assert_eq!(short_sha("abc"), "abc");
    assert_eq!(short_sha(""), "");
}

#[test]
fn test_change_status_mapping() {
    assert_eq!(change_status(DeltaKind::Added), Some(FileChangeStatus::Added));
    assert_eq!(change_status(DeltaKind::Deleted), Some(FileChangeStatus::Deleted));
    assert_eq!(change_status(DeltaKind::Renamed), Some(FileChangeStatus::Renamed));
    assert_eq!(change_status(DeltaKind::Copied), Some(FileChangeStatus::Modified));
    assert_eq!(change_status(DeltaKind::Typechange), Some(FileChangeStatus::Modified));
    assert_eq!(change_status(DeltaKind::Conflicted), Some(FileChangeStatus::Modified));
    assert_eq!(change_status(DeltaKind::Ignored), None);
    assert_eq!(change_status(DeltaKind::Untracked), None);
}

#[test]
fn test_count_line_changes() {
    let lines: Vec<String> = vec!["--- a/f", "+++ b/f", "@@ -1 +1 @@", "-old", "+new", "+more", " same"]
        .into_iter()
        .map(|s| s.to_string())
        .collect();
    assert_eq!(count_line_changes(&lines), (2, 1));
    let f = last_commit_file_diff("f".to_string(), lines);
    assert_eq!(f.additions, 2);
    assert_eq!(f.deletions, 1);
    assert_eq!(f.status.bits, 4);
}

#[test]
fn test_placement_and_view_mode() {
    let p = placement(&Status::from_bits_truncate(128 | 2), false);
    assert!(p.working_tree && p.staged && !p.dirty_directory);
    let q = placement(&Status::from_bits_truncate(16384), true);
    assert!(!q.working_tree && !q.staged && q.dirty_directory);
    assert_eq!(view_mode_by_priority(true, true, true), ViewMode::WorkingTree);
    assert_eq!(view_mode_by_priority(false, true, true), ViewMode::DirtyDirectory);
    assert_eq!(view_mode_by_priority(false, false, true), ViewMode::Staged);
    assert_eq!(view_mode_by_priority(false, false, false), ViewMode::LastCommit);
}

#[test]
fn test_transient_errors_and_retries() {
    assert!(is_transient_error("could not lock config file"));
    assert!(is_transient_error("resource busy"));
    assert!(is_transient_error("temporary failure"));
    assert!(!is_transient_error("not a git repository"));
    assert_eq!(retry_step(1, "index.lock exists"), RetryStep::RetryAfterMillis(100));
    assert_eq!(retry_step(2, "busy"), RetryStep::RetryAfterMillis(200));
    assert_eq!(retry_step(3, "busy"), RetryStep::GiveUp);
    assert_eq!(retry_step(1, "corrupt"), RetryStep::GiveUp);
}

#[test]
fn test_labels_and_totals() {
    assert_eq!(branch_label(Some("main".to_string())), "main");
    assert_eq!(branch_label(None), "detached");
    assert_eq!(
        commit_label(None, None),
        ("no commits".to_string(), "no commits".to_string())
    );
    assert_eq!(
        commit_label(Some("0123456789"), None),
        ("unknown".to_string(), "unknown commit".to_string())
    );
    assert_eq!(
        commit_label(Some("0123456789"), Some(None)),
        ("0123456".to_string(), "no summary".to_string())
    );
    assert_eq!(
        commit_label(Some("0123456789"), Some(Some("Fix".to_string()))),
        ("0123456".to_string(), "Fix".to_string())
    );
    let files = vec![
        FileDiff { path: "a".to_string(), status: Status::from_bits_truncate(256), line_strings: vec![], additions: 3, deletions: 1 },
        FileDiff { path: "b".to_string(), status: Status::from_bits_truncate(256), line_strings: vec![], additions: 4, deletions: 0 },
    ];
    assert_eq!(file_totals(&files), (2, 7, 1));
}

#[test]
fn test_commit_history_with_errors() {
    let (repo, path) = create_test_repo("test_commit_history_with_errors");
    commit_files(&repo, &[("file1.txt", "content1")], "Commit 1");
    commit_files(&repo, &[("file1.txt", "content1"), ("file2.txt", "content2")], "Commit 2");
    let mut shared = GitSharedState::new();
    let worker = GitWorker::new(&path).unwrap();
    let commits = worker.get_commit_history(&mut shared, 10).unwrap();
    assert!(commits.len() >= 2);
    for commit in &commits {
        assert!(!commit.sha.is_empty());
        assert!(!commit.short_sha.is_empty());
        assert_eq!(commit.short_sha.len(), 7);
    }
}

#[test]
fn test_git_worker_shared_state_cache_operations() {
    let (repo, path) = create_test_repo("test_git_worker_shared_state_cache_operations");
    commit_files(&repo, &[("file1.txt", "content1")], "First commit");
    commit_files(&repo, &[("file1.txt", "content1"), ("file2.txt", "content2")], "Second commit");
    commit_files(
        &repo,
        &[("file1.txt", "content1"), ("file2.txt", "content2"), ("file3.txt", "content3")],
        "Third commit",
    );
    let mut shared = GitSharedState::new();
    let worker = GitWorker::new(&path).unwrap();

    let commits1 = worker.get_commit_history(&mut shared, 5).unwrap();
    assert_eq!(commits1.len(), 3);
    for commit in &commits1 {
        let cached = shared.get_cached_commit(&commit.sha);
        assert!(cached.is_some());
        assert_eq!(cached.unwrap().sha, commit.sha);
    }

    let commits2 = worker.get_commit_history(&mut shared, 5).unwrap();
    assert_eq!(commits2.len(), 3);
    assert_eq!(commits1[0].sha, commits2[0].sha);

    let file_changes = get_commit_file_changes_static(&repo, &path, &commits1[0].sha).unwrap();
    assert!(!file_changes.is_empty());
}

fn commit_of(sha: &str, message: &str) -> grw::git::CommitInfo {
    grw::git::CommitInfo {
        sha: sha.to_string(),
        short_sha: sha.chars().take(7).collect(),
        message: message.to_string(),
        files_changed: Vec::new(),
    }
}

#[test]
fn test_changes_from_deltas_lists_kept_deltas() {
    let deltas = vec![
        DeltaInfo { kind: DeltaKind::Added, new_path: Some("a.txt".to_string()), old_path: None, stats: Some((3, 0)) },
        DeltaInfo { kind: DeltaKind::Ignored, new_path: Some("b.txt".to_string()), old_path: None, stats: Some((1, 1)) },
        DeltaInfo { kind: DeltaKind::Deleted, new_path: None, old_path: Some("c.txt".to_string()), stats: Some((0, 4)) },
        DeltaInfo { kind: DeltaKind::Copied, new_path: Some("d.txt".to_string()), old_path: None, stats: None },
    ];
    let changes = changes_from_deltas("/repo", &deltas);
    assert_eq!(changes.len(), 3);
    assert_eq!(changes[0].path, "/repo/a.txt");
    assert_eq!(changes[0].status, FileChangeStatus::Added);
    assert_eq!((changes[0].additions, changes[0].deletions), (3, 0));
    assert_eq!(changes[1].path, "/repo/c.txt");
    assert_eq!(changes[1].status, FileChangeStatus::Deleted);
    assert_eq!(changes[2].status, FileChangeStatus::Modified);
    assert_eq!((changes[2].additions, changes[2].deletions), (0, 0));
}

#[test]
fn test_changes_from_deltas_stops_at_tenth_error() {
    let mut deltas = Vec::new();
    for _ in 0..10 {
        deltas.push(DeltaInfo { kind: DeltaKind::Modified, new_path: None, old_path: None, stats: None });
    }
    deltas.push(DeltaInfo { kind: DeltaKind::Added, new_path: Some("late.txt".to_string()), old_path: None, stats: Some((1, 0)) });
    assert!(changes_from_deltas("/repo", &deltas).is_empty());
    deltas.remove(0);
    assert_eq!(changes_from_deltas("/repo", &deltas).len(), 1);
}

#[test]
fn test_invalid_commit_ids_are_refused() {
    let (repo, path) = create_test_repo("test_invalid_commit_ids_are_refused");
    assert!(get_commit_file_changes_static(&repo, &path, &"a".repeat(41)).is_err());
    assert!(get_commit_file_changes_static(&repo, &path, "xyz").is_err());
}

#[test]
fn test_history_from_walk() {
    let cached = commit_of("1111111111111111111111111111111111111111", "cached one");
    let steps = vec![
        WalkStep::Commit {
            sha: "2222222222222222222222222222222222222222".to_string(),
            cached: None,
            summary: None,
            files: None,
        },
        WalkStep::Unreadable,
        WalkStep::Commit { sha: cached.sha.clone(), cached: Some(cached.clone()), summary: None, files: None },
        WalkStep::Commit {
            sha: "3333333333333333333333333333333333333333".to_string(),
            cached: None,
            summary: Some("third".to_string()),
            files: None,
        },
    ];
    let commits = history_from_walk(10, steps);
    assert_eq!(commits.len(), 3);
    assert_eq!(commits[0].short_sha, "2222222");
    assert_eq!(commits[0].message, "<no message>");
    assert_eq!(commits[1].message, "cached one");
    assert_eq!(commits[2].message, "third");
}

#[test]
fn test_history_from_walk_limit_and_errors() {
    let mk = |c: char| WalkStep::Commit { sha: c.to_string().repeat(40), cached: None, summary: None, files: None };
    assert_eq!(history_from_walk(2, vec![mk('a'), mk('b'), mk('c')]).len(), 2);
    let mut steps: Vec<WalkStep> = (0..5).map(|_| WalkStep::Unreadable).collect();
    steps.push(mk('d'));
    assert_eq!(history_from_walk(10, steps).len(), 0);
}

#[test]
fn test_history_ids_are_commit_ids() {
    let (repo, path) = create_test_repo("test_history_ids_are_commit_ids");
    commit_files(&repo, &[("f.txt", "x")], "first");
    let worker = GitWorker::new(&path).unwrap();
    let mut shared = GitSharedState::new();
    let commits = worker.get_commit_history(&mut shared, 10).unwrap();
    assert_eq!(commits.len(), 1);
    assert_eq!(commits[0].sha.len(), 40);
    assert!(commits[0].sha.chars().all(|c| c.is_ascii_hexdigit() && !c.is_ascii_uppercase()));
}

#[test]
fn test_last_commit_entries() {
    let pairs = vec![
        (Some("a.txt".to_string()), Some("a.txt".to_string())),
        (None, Some("new.txt".to_string())),
        (Some("old.txt".to_string()), Some("moved.txt".to_string())),
    ];
    let files = last_commit_entries("/repo", &pairs);
    assert_eq!(files.len(), 2);
    assert_eq!(files[0].path, "/repo/a.txt");
    assert_eq!(files[1].path, "/repo/moved.txt");
    assert_eq!(files[0].status.bits, 4);
    assert_eq!((files[1].additions, files[1].deletions), (0, 0));
}

#[test]
fn test_load_last_commit_files() {
    let (repo, path) = create_test_repo("test_load_last_commit_files");
    commit_files(&repo, &[("a.txt", "one")], "first");
    commit_files(&repo, &[("a.txt", "two"), ("b.txt", "x")], "second");
    let worker = GitWorker::new(&path).unwrap();
    let files = worker.load_last_commit_files();
    let mut names: Vec<String> = files.iter().map(|f| f.path.clone()).collect();
    names.sort();
    assert_eq!(names, vec![format!("{}/a.txt", path), format!("{}/b.txt", path)]);
}

#[test]
fn test_sort_status_entries() {
    let entries = vec![
        StatusEntry { path: "wt.txt".to_string(), bits: 256, in_dirty_directory: false },
        StatusEntry { path: "both.txt".to_string(), bits: 256 | 2, in_dirty_directory: true },
        StatusEntry { path: "staged.txt".to_string(), bits: 1, in_dirty_directory: false },
        StatusEntry { path: "ignored.txt".to_string(), bits: 16384, in_dirty_directory: false },
    ];
    let lists = sort_status_entries("/repo", &entries);
    let paths = |v: &Vec<FileDiff>| v.iter().map(|f| f.path.clone()).collect::<Vec<String>>();
    assert_eq!(paths(&lists.changed), vec!["/repo/wt.txt", "/repo/both.txt"]);
    assert_eq!(paths(&lists.staged), vec!["/repo/both.txt", "/repo/staged.txt"]);
    assert_eq!(paths(&lists.dirty), vec!["/repo/both.txt"]);
    assert_eq!(lists.dirty[0].status.bits, 2);
    assert_eq!(lists.changed[1].status.bits, 258);
}

#[test]
fn test_generate_diff_takes_the_diff_read() {
    let lines = vec!["+a".to_string(), "-b".to_string()];
    let f = generate_diff("/r/x".to_string(), Status::from_bits_truncate(256), DiffType::WorkingTree, Some((lines.clone(), 1, 1)));
    assert_eq!(f.line_strings, lines);
    assert_eq!((f.additions, f.deletions), (1, 1));
    let g = generate_diff("/r/x".to_string(), Status::from_bits_truncate(2), DiffType::WorkingTree, Some((lines.clone(), 1, 1)));
    assert!(g.line_strings.is_empty());
    assert_eq!((g.additions, g.deletions), (0, 0));
    let h = generate_diff("/r/x".to_string(), Status::from_bits_truncate(2), DiffType::Staged, None);
    assert!(h.line_strings.is_empty());
}

#[test]
fn test_base_parent_choice() {
    assert_eq!(base_parent(0), None);
    assert_eq!(base_parent(1), Some(0));
    assert_eq!(base_parent(2), Some(0));
}

#[test]
fn test_history_for_head_without_commit() {
    let (_repo, path) = create_test_repo("test_history_for_head_without_commit");
    let worker = GitWorker::new(&path).unwrap();
    let mut shared = GitSharedState::new();
    assert!(worker.history_for_head(&mut shared, 10, None).unwrap().is_empty());
}

#[test]
fn test_totals_fit_of() {
    let f = |a: usize| FileDiff { path: "p".to_string(), status: Status::from_bits_truncate(256), line_strings: Vec::new(), additions: a, deletions: 0 };
    assert!(totals_fit_of(&vec![f(1), f(2)]));
    assert!(!totals_fit_of(&vec![f(usize::MAX), f(1)]));
}
