use grw::pane::registry::PaneId;
use grw::git::{FileDiff, Status, TreeNode};
use grw::ui::layout::{BodyPlan, BrowserPlan, HeaderHeight, InfoPlan, LineStyle, SegmentRole};
use grw::ui::{App, Theme};

fn app(diff: bool, files: bool) -> App {
    App::new_with_config(diff, files, 0, vec![Theme::Dark, Theme::Light])
}

#[test]
fn test_screen_plan_normal_mode() {
    let a = app(true, true);
    let p = a.screen_plan(150);
    assert_eq!(p.header, HeaderHeight::OneRow);
    assert_eq!(p.body, BodyPlan::Split { browser: BrowserPlan::Tree, info: InfoPlan::Diff });
    let p = a.screen_plan(100);
    assert_eq!(p.header, HeaderHeight::UpToThreeRows);
    assert_eq!(app(false, false).screen_plan(100).body, BodyPlan::Nothing);
    assert_eq!(app(false, true).screen_plan(100).body, BodyPlan::BrowserOnly { browser: BrowserPlan::Tree });
    assert_eq!(app(true, false).screen_plan(100).body, BodyPlan::InfoOnly { info: InfoPlan::Diff });
}

#[test]
fn test_screen_plan_help_and_monitor() {
    let mut a = app(false, true);
    a.toggle_help();
    assert_eq!(a.screen_plan(100).body, BodyPlan::BrowserOnly { browser: BrowserPlan::Help });
    let mut b = app(true, true);
    b.toggle_monitor_pane();
    b.set_side_by_side_diff();
    assert_eq!(
        b.screen_plan(100).body,
        BodyPlan::Split { browser: BrowserPlan::TreeAndMonitor, info: InfoPlan::SideBySideDiff }
    );
    b.toggle_help();
    assert_eq!(
        b.screen_plan(100).body,
        BodyPlan::Split { browser: BrowserPlan::TreeAndMonitor, info: InfoPlan::Help }
    );
}

#[test]
fn test_screen_plan_commit_picker() {
    let mut a = app(true, true);
    a.enter_commit_picker_mode();
    assert_eq!(a.screen_plan(130).body, BodyPlan::CommitPicker { list_percent: 40, details_percent: 60 });
    assert_eq!(a.screen_plan(100).body, BodyPlan::CommitPicker { list_percent: 50, details_percent: 50 });
    assert_eq!(a.screen_plan(80).body, BodyPlan::CommitPicker { list_percent: 60, details_percent: 40 });
    a.toggle_help();
    assert_eq!(a.screen_plan(80).body, BodyPlan::HelpOverlay);
}

#[test]
fn test_file_tree_lines() {
    let mut a = app(true, true);
    a.update_files(vec![FileDiff {
        path: "src/a.rs".to_string(),
        status: Status::from_bits_truncate(256),
        line_strings: vec!["+x".to_string()],
        additions: 3,
        deletions: 2,
    }]);
    let file = TreeNode {
        name: "a.rs".to_string(),
        path: "src/a.rs".to_string(),
        is_dir: false,
        children: vec![],
        file_diff: Some(FileDiff {
            path: "src/a.rs".to_string(),
            status: Status::from_bits_truncate(256),
            line_strings: vec![],
            additions: 3,
            deletions: 2,
        }),
    };
    let dir = TreeNode { name: "src".to_string(), path: "src".to_string(), is_dir: true, children: vec![file], file_diff: None };
    let root = TreeNode { name: ".".to_string(), path: ".".to_string(), is_dir: true, children: vec![dir], file_diff: None };
    a.update_tree(&root);
    let lines = a.file_tree_lines();
    assert_eq!(lines.len(), 2);
    assert_eq!(lines[0].style, LineStyle::Directory);
    assert_eq!(lines[0].segments.len(), 1);
    assert_eq!(lines[0].segments[0].text, "  📁 src");
    assert_ne!(lines[1].style, LineStyle::Directory);
    let texts: Vec<&str> = lines[1].segments.iter().map(|s| s.text.as_str()).collect();
    assert_eq!(texts, vec!["-> ", "    📝 ", "a.rs", " (+3)", " (-2)"]);
    assert_eq!(lines[1].segments[0].role, SegmentRole::Cursor);
    assert_eq!(lines[1].segments[3].role, SegmentRole::Added);
    assert_eq!(lines[1].segments[4].role, SegmentRole::Removed);
}

#[test]
fn test_screen_plan_hidden_panes_are_not_drawn() {
    let mut a = app(true, true);
    let p = a.screen_plan(100);
    assert!(p.drawn.diff && p.drawn.status_bar && !p.drawn.help && !p.drawn.monitor);
    a.toggle_pane_visibility(&PaneId::Diff).unwrap();
    let p = a.screen_plan(100);
    assert_eq!(p.body, BodyPlan::Split { browser: BrowserPlan::Tree, info: InfoPlan::Diff });
    assert!(!p.drawn.diff);
}
