use grw::git::{CommitInfo, FileDiff, Status, TreeNode};
use grw::pane::registry::PaneId;
use grw::ui::model::{ActivePane, FileBrowserPane, InformationPane};
use grw::ui::{App, Color, Theme};
use std::time::Duration;

fn create_test_app(
    show_diff_panel: bool,
    show_changed_files_pane: bool,
    initial_theme_index: usize,
    themes: Vec<Theme>,
) -> App {
    App::new_with_config(show_diff_panel, show_changed_files_pane, initial_theme_index, themes)
}

fn file(path: &str, line: &str, bits: u32) -> FileDiff {
    FileDiff {
        path: path.to_string(),
        status: Status::from_bits_truncate(bits),
        line_strings: vec![line.to_string()],
        additions: 1,
        deletions: 0,
    }
}

#[test]
fn test_app_creation() {
    let themes = vec![Theme::Dark, Theme::Light];
    let app = create_test_app(true, true, 0, themes);
    assert_eq!(app.get_files().len(), 0);
    assert_eq!(app.get_current_file_index(), 0);
    assert_eq!(app.get_scroll_offset(), 0);
    assert_eq!(app.get_current_diff_height(), 20);
    assert!(!app.is_showing_help());
    assert!(app.is_showing_diff_panel());
    assert!(app.is_showing_changed_files_pane());
    assert_eq!(app.get_current_file_browser_pane(), FileBrowserPane::FileTree);
    assert_eq!(app.get_current_information_pane(), InformationPane::Diff);
    assert!(!app.get_monitor_command_configured());
    assert!(app.get_monitor_elapsed_time().is_none());
    assert!(!app.get_monitor_has_run());
    assert_eq!(*app.get_theme(), Theme::Dark);
    assert_eq!(app.get_last_active_pane(), ActivePane::default());
}

#[test]
fn test_app_creation_no_diff() {
    let themes = vec![Theme::Dark, Theme::Light];
    let app = create_test_app(false, true, 0, themes);
    assert!(!app.is_showing_diff_panel());
}

#[test]
fn test_scroll_up() {
    let mut app = create_test_app(true, true, 0, vec![Theme::Dark, Theme::Light]);
    app.set_scroll_offset(5);
    app.scroll_up();
    assert_eq!(app.get_scroll_offset(), 4);
}

#[test]
fn test_scroll_up_at_zero() {
    let mut app = create_test_app(true, true, 0, vec![Theme::Dark, Theme::Light]);
    app.set_scroll_offset(0);
    app.scroll_up();
    assert_eq!(app.get_scroll_offset(), 0);
}

#[test]
fn test_page_up() {
    let mut app = create_test_app(true, true, 0, vec![Theme::Dark, Theme::Light]);
    app.set_scroll_offset(25);
    app.page_up(10);
    assert_eq!(app.get_scroll_offset(), 15);
}

#[test]
fn test_page_up_underflow() {
    let mut app = create_test_app(true, true, 0, vec![Theme::Dark, Theme::Light]);
    app.set_scroll_offset(5);
    app.page_up(10);
    assert_eq!(app.get_scroll_offset(), 0);
}

#[test]
fn test_scroll_to_top() {
    let mut app = create_test_app(true, true, 0, vec![Theme::Dark, Theme::Light]);
    app.set_scroll_offset(100);
    app.scroll_to_top();
    assert_eq!(app.get_scroll_offset(), 0);
}

#[test]
fn test_scroll_down_and_bottom_within_file() {
    let mut app = create_test_app(true, true, 0, vec![Theme::Dark, Theme::Light]);
    let lines: Vec<String> = (0..30).map(|i| format!("line {}", i)).collect();
    app.update_files(vec![FileDiff {
        path: "a.txt".to_string(),
        status: Status::from_bits_truncate(256),
        line_strings: lines,
        additions: 30,
        deletions: 0,
    }]);
    app.scroll_down(20);
    assert_eq!(app.get_scroll_offset(), 1);
    app.scroll_to_bottom(20);
    assert_eq!(app.get_scroll_offset(), 10);
    app.scroll_down(20);
    assert_eq!(app.get_scroll_offset(), 10);
    app.set_scroll_offset(0);
    app.page_down(20);
    assert_eq!(app.get_scroll_offset(), 10);
}

#[test]
fn test_toggle_help() {
    let mut app = create_test_app(true, true, 0, vec![Theme::Dark, Theme::Light]);
    assert!(!app.is_showing_help());
    assert_eq!(app.get_current_information_pane(), InformationPane::Diff);

    app.toggle_help();
    assert!(app.is_showing_help());
    assert!(app.is_pane_visible(&PaneId::Help));

    app.toggle_help();
    assert!(!app.is_showing_help());
    assert!(!app.is_pane_visible(&PaneId::Help));
}

#[test]
fn test_toggle_diff_panel() {
    let mut app = create_test_app(true, true, 0, vec![Theme::Dark, Theme::Light]);
    assert!(app.is_showing_diff_panel());
    app.toggle_diff_panel();
    assert!(!app.is_showing_diff_panel());
    app.toggle_diff_panel();
    assert!(app.is_showing_diff_panel());
}

#[test]
fn test_toggle_changed_files_pane() {
    let mut app = create_test_app(true, true, 0, vec![Theme::Dark, Theme::Light]);
    assert!(app.is_showing_changed_files_pane());
    app.toggle_changed_files_pane();
    assert!(!app.is_showing_changed_files_pane());
    app.toggle_changed_files_pane();
    assert!(app.is_showing_changed_files_pane());
}

#[test]
fn test_monitor_output_update() {
    let mut app = create_test_app(true, true, 0, vec![Theme::Dark, Theme::Light]);
    assert_eq!(app.get_monitor_output(), "");
    assert_eq!(app.get_monitor_scroll_offset(), 0);

    app.set_monitor_scroll_offset(5);

    app.update_monitor_output("test output".to_string());
    assert_eq!(app.get_monitor_output(), "test output");
    assert_eq!(app.get_monitor_scroll_offset(), 5);
}

#[test]
fn test_monitor_scroll() {
    let mut app = create_test_app(true, true, 0, vec![Theme::Dark, Theme::Light]);
    app.set_monitor_visible_height(3);

    let long_output = "Line 1\nLine 2\nLine 3\nLine 4\nLine 5";
    app.update_monitor_output(long_output.to_string());

    app.scroll_monitor_down();
    assert_eq!(app.get_monitor_scroll_offset(), 1);

    app.scroll_monitor_down();
    assert_eq!(app.get_monitor_scroll_offset(), 2);

    app.scroll_monitor_down();
    assert_eq!(app.get_monitor_scroll_offset(), 2);

    app.scroll_monitor_up();
    assert_eq!(app.get_monitor_scroll_offset(), 1);

    app.scroll_monitor_up();
    assert_eq!(app.get_monitor_scroll_offset(), 0);

    app.scroll_monitor_up();
    assert_eq!(app.get_monitor_scroll_offset(), 0);
}

#[test]
fn test_toggle_monitor_pane() {
    let mut app = create_test_app(true, true, 0, vec![Theme::Dark, Theme::Light]);

    assert!(!app.is_showing_monitor_pane());
    assert_eq!(app.get_current_file_browser_pane(), FileBrowserPane::FileTree);

    app.toggle_monitor_pane();
    assert!(app.is_showing_monitor_pane());
    assert_eq!(app.get_current_file_browser_pane(), FileBrowserPane::Monitor);

    app.toggle_monitor_pane();
    assert!(!app.is_showing_monitor_pane());
    assert_eq!(app.get_current_file_browser_pane(), FileBrowserPane::FileTree);
}

#[test]
fn test_monitor_command_configured() {
    let mut app = create_test_app(true, true, 0, vec![Theme::Dark, Theme::Light]);
    assert!(!app.get_monitor_command_configured());
    app.set_monitor_command_configured(true);
    assert!(app.get_monitor_command_configured());
    app.set_monitor_command_configured(false);
    assert!(!app.get_monitor_command_configured());
}

#[test]
fn test_monitor_timing_update() {
    let mut app = create_test_app(true, true, 0, vec![Theme::Dark, Theme::Light]);
    assert!(app.get_monitor_elapsed_time().is_none());
    assert!(!app.get_monitor_has_run());

    let duration = Duration::from_secs(65);
    app.update_monitor_timing(Some(duration), true);

    assert_eq!(app.get_monitor_elapsed_time(), Some(duration));
    assert!(app.get_monitor_has_run());
}

#[test]
fn test_format_elapsed_time() {
    let app = create_test_app(true, true, 0, vec![Theme::Dark, Theme::Light]);
    assert_eq!(app.format_elapsed_time(Duration::from_secs(45)), "45s");
    assert_eq!(app.format_elapsed_time(Duration::from_secs(125)), "2m5s");
    assert_eq!(app.format_elapsed_time(Duration::from_secs(3665)), "1h1m");
}

#[test]
fn test_format_elapsed_edges() {
    assert_eq!(grw::ui::app::format_elapsed_secs(0), "0s");
    assert_eq!(grw::ui::app::format_elapsed_secs(59), "59s");
    assert_eq!(grw::ui::app::format_elapsed_secs(60), "1m0s");
    assert_eq!(grw::ui::app::format_elapsed_secs(3599), "59m59s");
    assert_eq!(grw::ui::app::format_elapsed_secs(3600), "1h0m");
    assert_eq!(grw::ui::app::format_elapsed_secs(90061), "25h1m");
}

#[test]
fn test_diff_mode_switching() {
    let mut app = create_test_app(true, true, 0, vec![Theme::Dark, Theme::Light]);
    assert_eq!(app.get_current_information_pane(), InformationPane::Diff);

    app.set_side_by_side_diff();
    assert!(app.is_pane_visible(&PaneId::SideBySideDiff));
    assert!(!app.is_pane_visible(&PaneId::Diff));

    app.set_single_pane_diff();
    assert!(!app.is_pane_visible(&PaneId::SideBySideDiff));
    assert!(app.is_pane_visible(&PaneId::Diff));
}

#[test]
fn test_help_preserves_diff_mode() {
    let mut app = create_test_app(true, true, 0, vec![Theme::Dark, Theme::Light]);

    app.set_side_by_side_diff();
    assert!(app.is_pane_visible(&PaneId::SideBySideDiff));

    app.toggle_help();
    assert!(app.is_pane_visible(&PaneId::Help));
    assert!(!app.is_pane_visible(&PaneId::SideBySideDiff));

    app.toggle_help();
    assert!(!app.is_pane_visible(&PaneId::Help));
    assert!(app.is_pane_visible(&PaneId::SideBySideDiff));
}

#[test]
fn test_help_movement_when_diff_panel_hidden() {
    let mut app = create_test_app(true, true, 0, vec![Theme::Dark, Theme::Light]);

    assert!(app.is_showing_diff_panel());
    assert!(!app.is_showing_help());

    app.toggle_diff_panel();
    assert!(!app.is_showing_diff_panel());

    app.toggle_help();
    assert!(app.is_showing_help());
    assert_eq!(app.get_current_information_pane(), InformationPane::Help);

    app.toggle_help();
    assert!(!app.is_showing_help());
    assert_eq!(app.get_current_information_pane(), InformationPane::Diff);
}

#[test]
fn test_help_with_both_panes_visible() {
    let mut app = create_test_app(true, true, 0, vec![Theme::Dark, Theme::Light]);

    assert!(app.is_showing_diff_panel());
    assert!(!app.is_showing_help());

    app.toggle_help();
    assert!(app.is_showing_help());
    assert_eq!(app.get_current_information_pane(), InformationPane::Help);

    assert!(app.is_pane_visible(&PaneId::Help));

    assert!(!app.is_pane_visible(&PaneId::Diff));
    assert!(!app.is_pane_visible(&PaneId::SideBySideDiff));

    app.toggle_help();
    assert!(!app.is_showing_help());
    assert_eq!(app.get_current_information_pane(), InformationPane::Diff);

    assert!(app.is_pane_visible(&PaneId::Diff));
}

#[test]
fn test_theme_toggle() {
    let mut app = create_test_app(true, true, 0, vec![Theme::Dark, Theme::Light]);
    assert_eq!(*app.get_theme(), Theme::Dark);
    app.toggle_theme();
    assert_eq!(*app.get_theme(), Theme::Light);
    assert_eq!(app.get_pane_theme(), Theme::Light);
    app.toggle_theme();
    assert_eq!(*app.get_theme(), Theme::Dark);
}

#[test]
fn test_theme_cycle_of_three() {
    let custom = Theme::Custom(grw::ui::ColorPalette::light());
    let mut app = create_test_app(true, true, 1, vec![Theme::Dark, Theme::Light, custom]);
    assert_eq!(app.get_current_theme_index(), 1);
    app.toggle_theme();
    assert_eq!(app.get_current_theme_index(), 2);
    app.toggle_theme();
    assert_eq!(app.get_current_theme_index(), 0);
    app.toggle_theme();
    assert_eq!(app.get_current_theme_index(), 1);
    assert_eq!(*app.get_theme(), Theme::Light);
}

#[test]
fn test_theme_colors() {
    let dark_theme = Theme::Dark;
    assert_eq!(dark_theme.background_color(), Color::Black);
    assert_eq!(dark_theme.foreground_color(), Color::White);
    assert_eq!(dark_theme.added_color(), Color::Green);
    assert_eq!(dark_theme.removed_color(), Color::Red);

    let light_theme = Theme::Light;
    assert_eq!(light_theme.background_color(), Color::White);
    assert_eq!(light_theme.foreground_color(), Color::Black);
    assert_eq!(light_theme.added_color(), Color::Green);
    assert_eq!(light_theme.removed_color(), Color::LightRed);
}

#[test]
fn test_update_files_preserves_selection() {
    let mut app = create_test_app(true, true, 0, vec![Theme::Dark, Theme::Light]);

    let file1 = file("zebra.txt", "line 1", 2);
    let file2 = file("apple.txt", "line 1", 2);

    let initial_files = vec![file1.clone(), file2.clone()];
    app.update_files(initial_files);

    app.set_current_file_index(1);
    assert_eq!(app.get_current_file_index(), 1);
    assert_eq!(app.get_current_file().unwrap().path, "apple.txt");

    let file3 = file("aardvark.txt", "new line", 1);

    let updated_files = vec![file3.clone(), file1.clone(), file2.clone()];
    app.update_files(updated_files);

    assert_eq!(app.get_current_file_index(), 2);
    assert_eq!(app.get_current_file().unwrap().path, "apple.txt");

    let final_files = vec![file3.clone(), file1.clone()];
    app.update_files(final_files);

    assert_eq!(app.get_current_file_index(), 0);
    assert_eq!(app.get_current_file().unwrap().path, "aardvark.txt");

    let modified_file1 = FileDiff {
        path: "aardvark.txt".to_string(),
        status: Status::from_bits_truncate(2),
        line_strings: vec!["modified line".to_string()],
        additions: 2,
        deletions: 1,
    };
    let modified_files = vec![modified_file1, file1.clone()];
    app.update_files(modified_files);

    assert_eq!(app.get_current_file_index(), 0);
    assert_eq!(app.get_current_file().unwrap().path, "aardvark.txt");
}

#[test]
fn test_branch_change_detection() {
    let mut app = create_test_app(true, true, 0, vec![Theme::Dark, Theme::Light]);

    assert!(app.get_last_branch_name().is_none());

    let commit = CommitInfo {
        sha: "abc123".to_string(),
        short_sha: "abc123".to_string(),
        message: "Test commit".to_string(),
        files_changed: vec![],
    };
    app.select_commit(commit.clone());
    assert!(app.get_selected_commit().is_some());

    let branch_changed = app.detect_branch_change("main");
    assert!(!branch_changed);
    assert_eq!(app.get_last_branch_name(), Some("main"));
    assert!(app.get_selected_commit().is_some());

    let branch_changed = app.detect_branch_change("main");
    assert!(!branch_changed);
    assert!(app.get_selected_commit().is_some());

    let branch_changed = app.detect_branch_change("feature-branch");
    assert!(branch_changed);
    assert_eq!(app.get_last_branch_name(), Some("feature-branch"));
    assert!(app.get_selected_commit().is_none());

    app.select_commit(commit.clone());
    assert!(app.get_selected_commit().is_some());

    let branch_changed = app.detect_branch_change("main");
    assert!(branch_changed);
    assert_eq!(app.get_last_branch_name(), Some("main"));
    assert!(app.get_selected_commit().is_none());
}

#[test]
fn test_select_commit_refuses_empty_ids() {
    let mut app = create_test_app(true, true, 0, vec![Theme::Dark, Theme::Light]);
    app.enter_commit_picker_mode();
    let empty = CommitInfo {
        sha: String::new(),
        short_sha: "abc".to_string(),
        message: "m".to_string(),
        files_changed: vec![],
    };
    app.select_commit(empty);
    assert!(app.get_selected_commit().is_none());
    assert!(app.is_in_commit_picker_mode());
    let good = CommitInfo {
        sha: "abcdef0".to_string(),
        short_sha: "abcdef0".to_string(),
        message: "m".to_string(),
        files_changed: vec![],
    };
    app.select_commit(good);
    assert!(app.get_selected_commit().is_some());
    assert!(!app.is_in_commit_picker_mode());
    assert!(app.is_pane_visible(&PaneId::Diff));
}

#[test]
fn test_commit_picker_needs_diff_panel() {
    let mut app = create_test_app(false, true, 0, vec![Theme::Dark, Theme::Light]);
    app.enter_commit_picker_mode();
    assert!(!app.is_in_commit_picker_mode());
}

#[test]
fn test_commit_picker_round_trip_restores_side_by_side() {
    let mut app = create_test_app(true, true, 0, vec![Theme::Dark, Theme::Light]);
    app.set_side_by_side_diff();
    app.enter_commit_picker_mode();
    assert!(app.is_pane_visible(&PaneId::CommitPicker));
    assert!(app.is_pane_visible(&PaneId::CommitSummary));
    assert!(!app.is_pane_visible(&PaneId::SideBySideDiff));
    app.exit_commit_picker_mode();
    assert!(!app.is_pane_visible(&PaneId::CommitPicker));
    assert!(app.is_pane_visible(&PaneId::SideBySideDiff));
    assert!(!app.is_pane_visible(&PaneId::Diff));
}

fn leaf(name: &str, lines: usize) -> TreeNode {
    TreeNode {
        name: name.to_string(),
        path: name.to_string(),
        is_dir: false,
        children: Vec::new(),
        file_diff: Some(FileDiff {
            path: name.to_string(),
            status: Status::from_bits_truncate(2),
            line_strings: vec!["some diff line".to_string(); lines],
            additions: 10,
            deletions: 5,
        }),
    }
}

#[test]
fn test_performance_add_tree_node_recursive() {
    let mut app = create_test_app(true, true, 0, vec![Theme::Dark, Theme::Light]);

    let mut children = Vec::new();
    for i in 0..1000 {
        children.push(leaf(&format!("file_{}.txt", i), 1000));
    }

    let root = TreeNode {
        name: ".".to_string(),
        path: ".".to_string(),
        is_dir: true,
        children,
        file_diff: None,
    };

    app.update_tree(&root);
    assert_eq!(app.get_tree_nodes().len(), 1000);
}

#[test]
fn test_tree_navigation_follows_tree_order() {
    let mut app = create_test_app(true, true, 0, vec![Theme::Dark, Theme::Light]);
    app.update_files(vec![file("b.txt", "x", 256), file("a.txt", "y", 256)]);
    let dir = TreeNode {
        name: "d".to_string(),
        path: "d".to_string(),
        is_dir: true,
        children: vec![leaf("a.txt", 1), leaf("b.txt", 1)],
        file_diff: None,
    };
    let root = TreeNode { name: ".".to_string(), path: ".".to_string(), is_dir: true, children: vec![dir], file_diff: None };
    app.update_tree(&root);
    assert_eq!(app.get_tree_nodes().len(), 3);
    assert_eq!(app.get_file_indices_in_tree().clone(), vec![usize::MAX, 1, 0]);
    assert_eq!(app.get_current_file_index(), 0);
    assert_eq!(app.get_current_tree_index(), 2);
    app.set_scroll_offset(4);
    app.next_file();
    assert_eq!(app.get_current_tree_index(), 1);
    assert_eq!(app.get_current_file_index(), 1);
    assert_eq!(app.get_scroll_offset(), 0);
    app.next_file();
    assert_eq!(app.get_current_tree_index(), 2);
    app.prev_file();
    assert_eq!(app.get_current_tree_index(), 1);
    app.prev_file();
    assert_eq!(app.get_current_tree_index(), 2);
    assert_eq!(app.get_current_file_index(), 0);
}

#[test]
fn test_toggle_pane_visibility() {
    let mut app = create_test_app(true, true, 0, vec![Theme::Dark, Theme::Light]);
    assert!(app.toggle_pane_visibility(&PaneId::StatusBar).is_ok());
    assert!(!app.is_pane_visible(&PaneId::StatusBar));
    assert!(app.toggle_pane_visibility(&PaneId::StatusBar).is_ok());
    assert!(app.is_pane_visible(&PaneId::StatusBar));
}

#[test]
fn test_snapshot_files_follow_view_mode() {
    let f = |p: &str| grw::git::FileDiff {
        path: p.to_string(),
        status: grw::git::Status::from_bits_truncate(256),
        line_strings: Vec::new(),
        additions: 0,
        deletions: 0,
    };
    let repo = grw::git::GitRepo {
        path: "/r".to_string(),
        changed_files: vec![f("/r/w")],
        staged_files: vec![f("/r/s")],
        dirty_directory_files: Vec::new(),
        last_commit_files: Vec::new(),
        last_commit_id: None,
        current_view_mode: grw::git::ViewMode::Staged,
        repo_name: "r".to_string(),
        branch_name: "main".to_string(),
        commit_info: ("no commits".to_string(), "no commits".to_string()),
        total_stats: (1, 0, 0),
    };
    let files = grw::session::snapshot_files(&repo);
    assert_eq!(files.len(), 1);
    assert_eq!(files[0].path, "/r/s");
}
