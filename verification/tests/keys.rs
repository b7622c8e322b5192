use grw::ui::app::is_double_press;
use grw::ui::picker::{PickerList, PickerOutcome};
use grw::git::{FileDiff, GitRepo, Status, ViewMode};
use grw::pane::events::{KeyCode, KeyEvent, ALT, CONTROL, SHIFT};
use grw::pane::keys::{GlobalKeyHandler, KeyResult};
use grw::pane::registry::PaneId;
use grw::session::{history_error_message, LoopAction};
use grw::ui::model::InformationPane;
use grw::ui::{App, Theme};

fn app() -> App {
    App::new_with_config(true, true, 0, vec![Theme::Dark, Theme::Light])
}

fn key(code: KeyCode, mods: u8) -> KeyEvent {
    KeyEvent::new(code, mods)
}

#[test]
fn test_quit_keys() {
    let mut a = app();
    assert_eq!(GlobalKeyHandler::handle_global_key(&mut a, &key(KeyCode::Char('q'), 0)), KeyResult::Quit);
    assert_eq!(GlobalKeyHandler::handle_global_key(&mut a, &key(KeyCode::Char('c'), CONTROL)), KeyResult::Quit);
    assert_eq!(GlobalKeyHandler::handle_global_key(&mut a, &key(KeyCode::Char('c'), 0)), KeyResult::NotHandled);
    assert_eq!(GlobalKeyHandler::handle_global_key(&mut a, &key(KeyCode::F(5), 0)), KeyResult::NotHandled);
}

#[test]
fn test_help_and_escape_keys() {
    let mut a = app();
    assert_eq!(GlobalKeyHandler::handle_global_key(&mut a, &key(KeyCode::Char('?'), 0)), KeyResult::Handled);
    assert!(a.is_showing_help());
    assert_eq!(GlobalKeyHandler::handle_global_key(&mut a, &key(KeyCode::Esc, 0)), KeyResult::Handled);
    assert!(!a.is_showing_help());
    assert_eq!(a.get_current_information_pane(), InformationPane::Diff);
    assert_eq!(GlobalKeyHandler::handle_global_key(&mut a, &key(KeyCode::Esc, 0)), KeyResult::Handled);
    assert!(!a.is_showing_help());
}

#[test]
fn test_toggle_keys() {
    let mut a = app();
    GlobalKeyHandler::handle_global_key(&mut a, &key(KeyCode::Char('h'), CONTROL));
    assert!(!a.is_showing_diff_panel());
    GlobalKeyHandler::handle_global_key(&mut a, &key(KeyCode::Char('b'), CONTROL));
    assert!(!a.is_showing_changed_files_pane());
    GlobalKeyHandler::handle_global_key(&mut a, &key(KeyCode::Char('m'), CONTROL));
    assert!(a.is_showing_monitor_pane());
    GlobalKeyHandler::handle_global_key(&mut a, &key(KeyCode::Char('t'), CONTROL));
    assert_eq!(*a.get_theme(), Theme::Light);
    GlobalKeyHandler::handle_global_key(&mut a, &key(KeyCode::Char('s'), CONTROL));
    assert!(a.is_pane_visible(&PaneId::SideBySideDiff));
}

#[test]
fn test_scroll_keys_move_the_diff() {
    let mut a = app();
    let lines: Vec<String> = (0..40).map(|i| format!("l{}", i)).collect();
    a.update_files(vec![FileDiff {
        path: "f".to_string(),
        status: Status::from_bits_truncate(256),
        line_strings: lines,
        additions: 0,
        deletions: 0,
    }]);
    GlobalKeyHandler::handle_global_key(&mut a, &key(KeyCode::Char('j'), 0));
    GlobalKeyHandler::handle_global_key(&mut a, &key(KeyCode::Down, 0));
    assert_eq!(a.get_scroll_offset(), 2);
    GlobalKeyHandler::handle_global_key(&mut a, &key(KeyCode::Char('k'), 0));
    assert_eq!(a.get_scroll_offset(), 1);
    GlobalKeyHandler::handle_global_key(&mut a, &key(KeyCode::Char('G'), SHIFT));
    assert_eq!(a.get_scroll_offset(), 20);
    GlobalKeyHandler::handle_global_key(&mut a, &key(KeyCode::PageUp, 0));
    assert_eq!(a.get_scroll_offset(), 0);
    GlobalKeyHandler::handle_global_key(&mut a, &key(KeyCode::PageDown, 0));
    assert_eq!(a.get_scroll_offset(), 20);
    assert_eq!(GlobalKeyHandler::handle_global_key(&mut a, &key(KeyCode::Char('j'), ALT)), KeyResult::Handled);
}

#[test]
fn test_g_twice_goes_to_top() {
    let mut a = app();
    a.set_scroll_offset(7);
    GlobalKeyHandler::handle_global_key(&mut a, &key(KeyCode::Char('g'), 0));
    GlobalKeyHandler::handle_global_key(&mut a, &key(KeyCode::Char('g'), 0));
    assert_eq!(a.get_scroll_offset(), 0);
}

#[test]
fn test_commit_picker_mode_keys() {
    let mut a = app();
    a.enter_commit_picker_mode();
    assert_eq!(GlobalKeyHandler::handle_global_key(&mut a, &key(KeyCode::Char('j'), 0)), KeyResult::Handled);
    assert_eq!(GlobalKeyHandler::handle_global_key(&mut a, &key(KeyCode::Char('?'), 0)), KeyResult::Handled);
    assert!(a.is_showing_help());
    assert_eq!(GlobalKeyHandler::handle_global_key(&mut a, &key(KeyCode::Esc, 0)), KeyResult::Handled);
    assert!(!a.is_in_commit_picker_mode());
}

#[test]
fn test_main_loop_keys() {
    let mut a = app();
    assert_eq!(a.handle_key_event(key(KeyCode::Char('p'), CONTROL), true), LoopAction::LoadCommitHistory);
    assert!(a.is_in_commit_picker_mode());
    assert_eq!(a.handle_key_event(key(KeyCode::Char('p'), CONTROL), true), LoopAction::Continue);
    assert_eq!(a.handle_key_event(key(KeyCode::Esc, 0), true), LoopAction::Continue);
    assert!(!a.is_in_commit_picker_mode());
    assert_eq!(a.handle_key_event(key(KeyCode::Char('o'), CONTROL), true), LoopAction::Continue);
    assert!(a.is_showing_monitor_pane());
    assert_eq!(a.handle_key_event(key(KeyCode::Char('w'), CONTROL), true), LoopAction::Continue);
    assert_eq!(a.handle_key_event(key(KeyCode::Char('q'), 0), true), LoopAction::Quit);
}

#[test]
fn test_commit_picker_needs_a_repository() {
    let mut a = app();
    assert_eq!(a.handle_key_event(key(KeyCode::Char('p'), CONTROL), false), LoopAction::NoRepository);
    assert!(!a.is_in_commit_picker_mode());
    assert_eq!(grw::session::no_repository_error(), "No Git repository available");
}

#[test]
fn test_history_error_messages() {
    assert_eq!(history_error_message("could not find repository; not a git repository"), "This directory is not a Git repository");
    assert_eq!(history_error_message("reference 'refs/heads/master' not found; HEAD"), "No commits found in this repository");
    assert_eq!(history_error_message("there are no commits"), "No commits found in this repository");
    assert_eq!(history_error_message("permission denied"), "Permission denied accessing Git repository");
    assert_eq!(history_error_message("boom"), "Git error: boom");
}

#[test]
fn test_take_snapshot_decides_what_is_shown() {
    let mut a = app();
    let mut repo = GitRepo {
        path: "/tmp/r".to_string(),
        changed_files: vec![],
        staged_files: vec![],
        dirty_directory_files: vec![],
        last_commit_files: vec![],
        last_commit_id: None,
        current_view_mode: ViewMode::WorkingTree,
        repo_name: "r".to_string(),
        branch_name: "main".to_string(),
        commit_info: ("no commits".to_string(), "no commits".to_string()),
        total_stats: (0, 0, 0),
    };
    assert!(a.take_snapshot(&repo));
    repo.current_view_mode = ViewMode::LastCommit;
    assert!(!a.take_snapshot(&repo));
    a.select_commit(grw::git::CommitInfo {
        sha: "abc1234".to_string(),
        short_sha: "abc1234".to_string(),
        message: "m".to_string(),
        files_changed: vec![],
    });
    repo.current_view_mode = ViewMode::Staged;
    assert!(!a.take_snapshot(&repo));
    repo.branch_name = "other".to_string();
    assert!(a.take_snapshot(&repo));
    assert!(a.get_selected_commit().is_none());
}

#[test]
fn test_load_commit_history_without_snapshot() {
    let mut shared = grw::shared_state::SharedStateManager::new();
    let r = grw::session::load_commit_history(&mut shared, 10);
    assert_eq!(r.unwrap_err(), "No Git repository available");
}

#[test]
fn test_keys_ready_by_binding() {
    let mut a = app();
    a.update_files(vec![FileDiff {
        path: "/r/a.txt".to_string(),
        status: Status::from_bits_truncate(256),
        line_strings: Vec::new(),
        additions: 0,
        deletions: 0,
    }]);
    // Files without tree lines: the keys that move between files wait for
    // the tree, the others are handled.
    assert!(!a.ready_for_keys(&key(KeyCode::Tab, 0)));
    assert!(a.ready_for_keys(&key(KeyCode::Char('q'), 0)));
    assert!(a.ready_for_keys(&key(KeyCode::Char('?'), 0)));
    assert_eq!(GlobalKeyHandler::handle_global_key(&mut a, &key(KeyCode::Char('q'), 0)), KeyResult::Quit);
}

#[test]
fn test_double_press_rule() {
    assert!(is_double_press(Some(0)));
    assert!(is_double_press(Some(499)));
    assert!(!is_double_press(Some(500)));
    assert!(!is_double_press(None));
}

#[test]
fn test_picker_list_keys() {
    let c = |sha: &str| grw::git::CommitInfo {
        sha: sha.to_string(),
        short_sha: sha.chars().take(7).collect(),
        message: "m".to_string(),
        files_changed: Vec::new(),
    };
    let mut p = PickerList::loaded(Ok(vec![c("aaaaaaaaaa"), c("bbbbbbbbbb")]));
    assert_eq!(p.handle_key(KeyCode::Up), PickerOutcome::Handled);
    assert_eq!(p.cursor, 0);
    assert_eq!(p.handle_key(KeyCode::Char('j')), PickerOutcome::Handled);
    assert_eq!(p.cursor, 1);
    assert_eq!(p.handle_key(KeyCode::Down), PickerOutcome::Handled);
    assert_eq!(p.cursor, 1);
    assert_eq!(p.handle_key(KeyCode::Enter), PickerOutcome::Chosen(1));
    assert_eq!(p.handle_key(KeyCode::Char('x')), PickerOutcome::NotHandled);
    let mut e = PickerList::loaded(Err("No Git repository available".to_string()));
    assert_eq!(e.error.as_deref(), Some("No Git repository available"));
    assert_eq!(e.handle_key(KeyCode::Enter), PickerOutcome::Handled);
}
