use grw::git::{CommitFileChange, CommitInfo, FileChangeStatus, FileDiff, Status, TreeNode};
use grw::ui::commit_tree::{add_file_to_commit_tree, commit_file_diffs, commit_status};
use grw::ui::{App, Theme};

fn change(path: &str, status: FileChangeStatus) -> CommitFileChange {
    CommitFileChange { path: path.to_string(), status, additions: 2, deletions: 1 }
}

fn commit(changes: Vec<CommitFileChange>) -> CommitInfo {
    CommitInfo {
        sha: "0123456789abcdef0123456789abcdef01234567".to_string(),
        short_sha: "0123456".to_string(),
        message: "Change things".to_string(),
        files_changed: changes,
    }
}

fn root(path: &str) -> TreeNode {
    TreeNode { name: ".".to_string(), path: path.to_string(), is_dir: true, children: vec![], file_diff: None }
}

fn diff(path: &str) -> FileDiff {
    FileDiff { path: path.to_string(), status: Status::from_bits_truncate(2), line_strings: vec![], additions: 0, deletions: 0 }
}

#[test]
fn test_commit_status_bits() {
    assert_eq!(commit_status(FileChangeStatus::Added).bits, 1);
    assert_eq!(commit_status(FileChangeStatus::Modified).bits, 2);
    assert_eq!(commit_status(FileChangeStatus::Deleted).bits, 4);
    assert_eq!(commit_status(FileChangeStatus::Renamed).bits, 8);
}

#[test]
fn test_commit_file_diffs() {
    let c = commit(vec![change("/repo/a.txt", FileChangeStatus::Added), change("/repo/src/b.rs", FileChangeStatus::Deleted)]);
    let files = commit_file_diffs(&c, vec![vec!["+a".to_string()], vec![]]);
    assert_eq!(files.len(), 2);
    assert_eq!(files[0].path, "/repo/a.txt");
    assert_eq!(files[0].status.bits, 1);
    assert_eq!(files[0].line_strings, vec!["+a".to_string()]);
    assert_eq!(files[1].status.bits, 4);
    assert_eq!(files[1].additions, 2);
    assert_eq!(files[1].deletions, 1);
}

#[test]
fn test_add_file_to_commit_tree_builds_directories() {
    let mut r = root("/repo");
    add_file_to_commit_tree(&mut r, &diff("/repo/src/ui/app.rs"), "/repo");
    add_file_to_commit_tree(&mut r, &diff("/repo/src/lib.rs"), "/repo");
    add_file_to_commit_tree(&mut r, &diff("/repo/README.md"), "/repo");
    assert_eq!(r.children.len(), 2);
    let src = &r.children[0];
    assert!(src.is_dir);
    assert_eq!(src.name, "src");
    assert_eq!(src.path, "/repo/src");
    assert_eq!(src.children.len(), 2);
    assert_eq!(src.children[0].name, "ui");
    assert_eq!(src.children[0].path, "/repo/src/ui");
    assert_eq!(src.children[0].children[0].name, "app.rs");
    assert_eq!(src.children[0].children[0].path, "/repo/src/ui/app.rs");
    assert!(!src.children[0].children[0].is_dir);
    assert_eq!(src.children[1].name, "lib.rs");
    assert_eq!(r.children[1].name, "README.md");
    assert!(r.children[1].file_diff.is_some());
}

#[test]
fn test_add_file_outside_repository_uses_whole_path() {
    let mut r = root("/repo");
    add_file_to_commit_tree(&mut r, &diff("other/x.txt"), "/repo");
    assert_eq!(r.children.len(), 1);
    assert_eq!(r.children[0].name, "other");
    assert_eq!(r.children[0].children[0].name, "x.txt");
}

#[test]
fn test_load_commit_files() {
    let mut app = App::new_with_config(true, true, 0, vec![Theme::Dark, Theme::Light]);
    let c = commit(vec![
        change("/repo/src/a.rs", FileChangeStatus::Modified),
        change("/repo/src/b.rs", FileChangeStatus::Added),
        change("/repo/c.txt", FileChangeStatus::Renamed),
    ]);
    app.load_commit_files(&c, vec![vec!["+x".to_string()], vec![], vec![]], "/repo");
    assert_eq!(app.get_files().len(), 3);
    assert_eq!(app.get_files()[0].path, "/repo/src/a.rs");
    assert_eq!(app.get_tree_nodes().len(), 4);
    assert_eq!(app.get_tree_nodes()[0].0.name, "src");
    assert_eq!(app.get_tree_nodes()[0].1, 1);
    assert_eq!(app.get_tree_nodes()[1].0.name, "a.rs");
    assert_eq!(app.get_tree_nodes()[1].1, 2);
    assert_eq!(app.get_tree_nodes()[3].0.name, "c.txt");
    assert_eq!(app.get_current_tree_index(), 1);
}

#[test]
fn test_load_commit_files_refuses_empty_sha() {
    let mut app = App::new_with_config(true, true, 0, vec![Theme::Dark, Theme::Light]);
    let mut c = commit(vec![change("/repo/a.rs", FileChangeStatus::Added)]);
    c.sha = String::new();
    app.load_commit_files(&c, vec![vec![]], "/repo");
    assert_eq!(app.get_files().len(), 0);
    assert_eq!(app.get_tree_nodes().len(), 0);
}
