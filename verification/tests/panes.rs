use grw::pane::events::{AppEvent, KeyCode, KeyEvent, ALT, CONTROL, SHIFT};
use grw::pane::help_pane::{HelpPane, HelpStyle};
use grw::pane::keys::PaneKeyUtils;
use grw::pane::registry::{PaneId, PaneRegistry};
use grw::git::CommitInfo;
use grw::ui::model::ActivePane;
use grw::ui::{App, Theme};

fn create_test_pane_registry() -> PaneRegistry {
    PaneRegistry::new(Theme::Dark)
}

fn create_test_app() -> App {
    App::new_with_config(true, true, 0, vec![Theme::Dark, Theme::Light])
}

#[test]
fn test_pane_registry_creation() {
    let registry = create_test_pane_registry();
    assert_eq!(registry.pane_count(), 8);
    assert!(registry.get_pane(&PaneId::FileTree).is_some());
    assert!(registry.get_pane(&PaneId::Monitor).is_some());
    assert!(registry.get_pane(&PaneId::Diff).is_some());
    assert!(registry.get_pane(&PaneId::CommitPicker).is_some());
    assert!(registry.get_pane(&PaneId::CommitSummary).is_some());
}

#[test]
fn test_pane_visibility() {
    let registry = create_test_pane_registry();

    let file_tree = registry.get_pane(&PaneId::FileTree).unwrap();
    assert!(file_tree.visible());

    let monitor = registry.get_pane(&PaneId::Monitor).unwrap();
    assert!(!monitor.visible());

    let status_bar = registry.get_pane(&PaneId::StatusBar).unwrap();
    assert!(status_bar.visible());
}

#[test]
fn test_pane_ids() {
    assert_eq!(PaneId::FileTree, PaneId::FileTree);
    assert_ne!(PaneId::FileTree, PaneId::Monitor);
}

#[test]
fn test_set_pane_visible_is_read_back() {
    let mut registry = create_test_pane_registry();
    assert!(registry.set_pane_visible(&PaneId::Monitor, true));
    assert!(registry.is_visible(&PaneId::Monitor));
    assert!(registry.set_pane_visible(&PaneId::Monitor, false));
    assert!(!registry.is_visible(&PaneId::Monitor));
}

#[test]
fn test_help_pane_consumes_question_mark_and_escape() {
    let mut registry = create_test_pane_registry();
    registry.set_pane_visible(&PaneId::Help, true);
    let q = AppEvent::Key(KeyEvent::new(KeyCode::Char('?'), 0));
    assert_eq!(registry.send_event(&PaneId::Help, &q), Some(true));
    assert!(!registry.is_visible(&PaneId::Help));

    registry.set_pane_visible(&PaneId::Help, true);
    let other = AppEvent::Key(KeyEvent::new(KeyCode::Char('x'), 0));
    assert_eq!(registry.send_event(&PaneId::Help, &other), Some(false));
    assert!(registry.is_visible(&PaneId::Help));

    let esc = AppEvent::Key(KeyEvent::new(KeyCode::Esc, 0));
    assert_eq!(registry.send_event(&PaneId::Diff, &esc), Some(false));
    assert_eq!(registry.send_event(&PaneId::Help, &esc), Some(true));
    assert!(!registry.is_visible(&PaneId::Help));
}

#[test]
fn test_help_pane_basics() {
    let mut pane = HelpPane::new();
    assert!(!pane.visible());
    assert_eq!(pane.title(), "Help");
    pane.set_visible(true);
    assert!(pane.visible());
    assert!(pane.handle_event(&AppEvent::Key(KeyEvent::new(KeyCode::Esc, 0))));
    assert!(!pane.visible());
    assert!(!pane.handle_event(&AppEvent::ThemeChanged));
}

#[test]
fn test_help_detects_commit_picker_mode() {
    let mut app = create_test_app();

    assert!(!app.is_in_commit_picker_mode());

    app.enter_commit_picker_mode();
    assert!(app.is_in_commit_picker_mode());

    app.exit_commit_picker_mode();
    assert!(!app.is_in_commit_picker_mode());
}

#[test]
fn test_help_detects_selected_commit() {
    let mut app = create_test_app();

    assert!(app.get_selected_commit().is_none());

    let test_commit = CommitInfo {
        sha: "abc123".to_string(),
        short_sha: "abc123".to_string(),
        message: "Test commit".to_string(),
        files_changed: vec![],
    };
    app.select_commit(test_commit);

    assert!(app.get_selected_commit().is_some());

    app.clear_selected_commit();
    assert!(app.get_selected_commit().is_none());
}

#[test]
fn test_help_lines_for_file_tree() {
    let lines = HelpPane::help_lines(false, ActivePane::FileTree, false);
    assert_eq!(lines[0].text, "Git Repository Watcher - Help");
    assert_eq!(lines[0].style, HelpStyle::Title);
    assert_eq!(lines[2].text, "File Tree Hotkeys:");
    assert_eq!(lines[2].style, HelpStyle::Heading);
    assert_eq!(lines[3].text, "  Tab / g t / Right - Next file");
    assert!(lines.iter().any(|l| l.text == "  Ctrl+P        - Enter commit picker mode"));
    assert!(!lines.iter().any(|l| l.text == "  Ctrl+W        - Return to working directory"));
    assert_eq!(lines.last().unwrap().text, "Press ? or Esc to return to the previous pane");
    assert_eq!(lines.len(), 20);
}

#[test]
fn test_help_lines_in_commit_picker_with_selection() {
    let lines = HelpPane::help_lines(true, ActivePane::Diff, true);
    assert_eq!(lines[2].text, "Commit Picker Hotkeys:");
    assert_eq!(lines[3].text, "  j / k / ↑ / ↓     - Navigate commits");
    assert!(!lines.iter().any(|l| l.text == "  Ctrl+P        - Enter commit picker mode"));
    assert!(lines.iter().any(|l| l.text == "  Ctrl+W        - Return to working directory"));
}

#[test]
fn test_help_lines_for_diff_and_monitor() {
    let diff = HelpPane::help_lines(false, ActivePane::SideBySideDiff, false);
    assert_eq!(diff[2].text, "Diff View Hotkeys:");
    assert_eq!(diff[10].text, "  Shift+G           - Go to bottom");
    let monitor = HelpPane::help_lines(false, ActivePane::Monitor, false);
    assert_eq!(monitor[2].text, "Monitor Hotkeys:");
    assert_eq!(monitor[4].text, "  Alt+k / Alt+Up    - Scroll up");
}

#[test]
fn test_scroll_keys() {
    let mut offset: usize = 5;
    assert!(PaneKeyUtils::handle_scroll_keys(&mut offset, &KeyEvent::new(KeyCode::Char('j'), 0), 100));
    assert_eq!(offset, 6);
    assert!(PaneKeyUtils::handle_scroll_keys(&mut offset, &KeyEvent::new(KeyCode::Up, 0), 100));
    assert_eq!(offset, 5);
    assert!(PaneKeyUtils::handle_scroll_keys(&mut offset, &KeyEvent::new(KeyCode::PageUp, 0), 100));
    assert_eq!(offset, 0);
    assert!(PaneKeyUtils::handle_scroll_keys(&mut offset, &KeyEvent::new(KeyCode::PageDown, 0), 100));
    assert_eq!(offset, 10);
    assert!(PaneKeyUtils::handle_scroll_keys(&mut offset, &KeyEvent::new(KeyCode::Char('G'), SHIFT), 100));
    assert_eq!(offset, 80);
    assert!(PaneKeyUtils::handle_scroll_keys(&mut offset, &KeyEvent::new(KeyCode::Char('g'), 0), 100));
    assert_eq!(offset, 0);
    assert!(!PaneKeyUtils::handle_scroll_keys(&mut offset, &KeyEvent::new(KeyCode::Char('x'), ALT), 100));
    assert_eq!(offset, 0);
    let mut top: usize = usize::MAX;
    assert!(PaneKeyUtils::handle_scroll_keys(&mut top, &KeyEvent::new(KeyCode::Down, CONTROL), 3));
    assert_eq!(top, usize::MAX);
}
