//! Key handling: the global key bindings of the normal mode and of the commit
//! picker mode, and the scrolling keys shared by panes.
use vstd::prelude::*;
use super::events::{KeyCode, KeyEvent, ALT, CONTROL, SHIFT};
use crate::ui::app::{spec_forward_key_to, spec_toggle_theme, App};
use crate::pane::registry::PaneId;
use crate::ui::model::{
    help_shown, nav_ready, scroll_fits, spec_exit_commit_picker_mode, spec_forward_key_to_panes,
    spec_next_file, spec_page_down, spec_page_up, spec_prev_file, spec_scroll_down,
    spec_scroll_monitor_down, spec_scroll_monitor_up, spec_scroll_to_bottom, spec_scroll_up,
    spec_set_side_by_side_diff, spec_toggle_help, spec_toggle_monitor_pane, view_wf, AppMode,
    AppView,
};

verus! {

/// What handling a key asks of the caller.
#[derive(Debug, Clone, Copy, PartialEq, Eq, Structural)]
pub enum KeyResult {
    /// The key was handled; nothing more is to be done with it.
    Handled,
    /// The key was not handled.
    NotHandled,
    /// The key was handled and the application should quit.
    Quit,
}

/// What a key does in the normal mode.
#[derive(Debug, Clone, Copy, PartialEq, Eq, Structural)]
pub enum MainAction {
    Quit,
    ScrollToBottom,
    ScrollDown,
    ScrollUp,
    PressG,
    ToggleTheme,
    NextFileAfterG,
    PrevFileAfterG,
    PageDown,
    PageUp,
    PrevFile,
    NextFile,
    ToggleHelp,
    CloseHelp,
    SideBySide,
    ToggleDiffPanel,
    ToggleChangedFiles,
    MonitorDown,
    MonitorUp,
    ToggleMonitor,
    Unbound,
}

/// The key bindings of the normal mode, in the order in which they are tried.
pub open spec fn main_mode_action(key: KeyEvent) -> MainAction {
    let m = key.modifiers;
    match key.code {
        KeyCode::Char('q') => MainAction::Quit,
        KeyCode::Char('c') if m.spec_contains(CONTROL) => MainAction::Quit,
        KeyCode::Char('G') if m.spec_contains(SHIFT) => MainAction::ScrollToBottom,
        KeyCode::Char('j') if m.spec_is_empty() => MainAction::ScrollDown,
        KeyCode::Down => MainAction::ScrollDown,
        KeyCode::Char('k') if m.spec_is_empty() => MainAction::ScrollUp,
        KeyCode::Up => MainAction::ScrollUp,
        KeyCode::Char('e') if m.spec_contains(CONTROL) => MainAction::ScrollDown,
        KeyCode::Char('y') if m.spec_contains(CONTROL) => MainAction::ScrollUp,
        KeyCode::Char('g') => MainAction::PressG,
        KeyCode::Char('t') if m.spec_contains(CONTROL) => MainAction::ToggleTheme,
        KeyCode::Char('t') => MainAction::NextFileAfterG,
        KeyCode::Char('T') => MainAction::PrevFileAfterG,
        KeyCode::PageDown => MainAction::PageDown,
        KeyCode::PageUp => MainAction::PageUp,
        KeyCode::Left => MainAction::PrevFile,
        KeyCode::Right => MainAction::NextFile,
        KeyCode::Tab => MainAction::NextFile,
        KeyCode::BackTab => MainAction::PrevFile,
        KeyCode::Char('?') => MainAction::ToggleHelp,
        KeyCode::Esc => MainAction::CloseHelp,
        KeyCode::Char('s') if m.spec_contains(CONTROL) => MainAction::SideBySide,
        KeyCode::Char('h') if m.spec_contains(CONTROL) => MainAction::ToggleDiffPanel,
        KeyCode::Char('b') if m.spec_contains(CONTROL) => MainAction::ToggleChangedFiles,
        KeyCode::Char('j') if m.spec_contains(ALT) => MainAction::MonitorDown,
        KeyCode::Char('k') if m.spec_contains(ALT) => MainAction::MonitorUp,
        KeyCode::Char('m') if m.spec_contains(CONTROL) => MainAction::ToggleMonitor,
        _ => MainAction::Unbound,
    }
}

/// The state after a key bound to `action`, for the bindings whose effect
/// does not depend on the clock.
pub open spec fn apply_main_action(v: AppView, action: MainAction) -> AppView {
    let h = v.current_diff_height;
    match action {
        MainAction::ScrollToBottom => spec_scroll_to_bottom(v, h),
        MainAction::ScrollDown => spec_scroll_down(v, h),
        MainAction::ScrollUp => spec_scroll_up(v),
        MainAction::ToggleTheme => spec_toggle_theme(v),
        MainAction::PageDown => spec_page_down(v, h),
        MainAction::PageUp => spec_page_up(v, h),
        MainAction::PrevFile => spec_prev_file(v),
        MainAction::NextFile => spec_next_file(v),
        MainAction::ToggleHelp => spec_toggle_help(v),
        MainAction::CloseHelp => if help_shown(v) { spec_toggle_help(v) } else { v },
        MainAction::SideBySide => spec_set_side_by_side_diff(v),
        MainAction::ToggleDiffPanel => AppView { show_diff_panel: !v.show_diff_panel, ..v },
        MainAction::ToggleChangedFiles => AppView { show_changed_files_pane: !v.show_changed_files_pane, ..v },
        MainAction::MonitorDown => spec_scroll_monitor_down(v),
        MainAction::MonitorUp => spec_scroll_monitor_up(v),
        MainAction::ToggleMonitor => spec_toggle_monitor_pane(v),
        _ => v,
    }
}

/// What a normal-mode key leads to. The bindings that read the clock (`g`,
/// and `t` or `T` shortly after `g`) are stated by what holds whatever the
/// clock says.
pub open spec fn main_mode_outcome(old: AppView, new: AppView, key: KeyEvent, r: KeyResult) -> bool {
    let action = main_mode_action(key);
    &&& r == match action {
        MainAction::Quit => KeyResult::Quit,
        MainAction::Unbound => KeyResult::NotHandled,
        _ => KeyResult::Handled,
    }
    &&& match action {
        MainAction::PressG => new.last_g_press is Some && (new == AppView { last_g_press: new.last_g_press, ..old }
            || (old.last_g_press is Some && new == AppView {
            last_g_press: new.last_g_press,
            scroll_offset: 0,
            ..old
        })),
        MainAction::NextFileAfterG => new == old || (old.last_g_press is Some && new == spec_next_file(old)),
        MainAction::PrevFileAfterG => new == old || (old.last_g_press is Some && new == spec_prev_file(old)),
        _ => new == apply_main_action(old, action),
    }
}

/// What a key leads to in the commit picker mode: `q` and Ctrl+C quit, `?`
/// toggles the help pane, Escape leaves the mode, and any other key goes to
/// the commit picker pane and, if not consumed there, to the commit summary
/// pane.
pub open spec fn picker_mode_outcome(old: AppView, new: AppView, key: KeyEvent, r: KeyResult) -> bool {
    match key.code {
        KeyCode::Char('q') => r == KeyResult::Quit && new == old,
        KeyCode::Char('c') if key.modifiers.spec_contains(CONTROL) => r == KeyResult::Quit && new == old,
        KeyCode::Char('?') => r == KeyResult::Handled && new == spec_toggle_help(old),
        KeyCode::Esc => r == KeyResult::Handled && new == spec_exit_commit_picker_mode(old),
        _ => r == KeyResult::Handled && {
            let (v1, h1) = spec_forward_key_to(old, PaneId::CommitPicker, key);
            new == if h1 { v1 } else { spec_forward_key_to(v1, PaneId::CommitSummary, key).0 }
        },
    }
}

/// What the application needs for `key` to be handled without fault: its
/// invariant always; outside the commit picker, a tree line when there are
/// files for the keys that move between files, room to scroll by the diff
/// height for the keys that scroll down, and room to move to the next theme
/// for the theme key.
pub open spec fn key_ready(v: AppView, key: KeyEvent) -> bool {
    &&& view_wf(v)
    &&& v.app_mode != AppMode::CommitPicker ==> match main_mode_action(key) {
        MainAction::NextFile | MainAction::PrevFile | MainAction::NextFileAfterG | MainAction::PrevFileAfterG => nav_ready(v),
        MainAction::ScrollDown | MainAction::PageDown => scroll_fits(v, v.current_diff_height),
        MainAction::ToggleTheme => v.themes.len() > 0 ==> v.current_theme_index < usize::MAX,
        _ => true,
    }
}

/// The binding a key has in the normal mode.
pub fn main_action_of(key: &KeyEvent) -> (a: MainAction)
    ensures
        a == main_mode_action(*key),
{
    let m = key.modifiers;
    match key.code {
        KeyCode::Char('q') => MainAction::Quit,
        KeyCode::Char('c') if m.contains(CONTROL) => MainAction::Quit,
        KeyCode::Char('G') if m.contains(SHIFT) => MainAction::ScrollToBottom,
        KeyCode::Char('j') if m.is_empty() => MainAction::ScrollDown,
        KeyCode::Down => MainAction::ScrollDown,
        KeyCode::Char('k') if m.is_empty() => MainAction::ScrollUp,
        KeyCode::Up => MainAction::ScrollUp,
        KeyCode::Char('e') if m.contains(CONTROL) => MainAction::ScrollDown,
        KeyCode::Char('y') if m.contains(CONTROL) => MainAction::ScrollUp,
        KeyCode::Char('g') => MainAction::PressG,
        KeyCode::Char('t') if m.contains(CONTROL) => MainAction::ToggleTheme,
        KeyCode::Char('t') => MainAction::NextFileAfterG,
        KeyCode::Char('T') => MainAction::PrevFileAfterG,
        KeyCode::PageDown => MainAction::PageDown,
        KeyCode::PageUp => MainAction::PageUp,
        KeyCode::Left => MainAction::PrevFile,
        KeyCode::Right => MainAction::NextFile,
        KeyCode::Tab => MainAction::NextFile,
        KeyCode::BackTab => MainAction::PrevFile,
        KeyCode::Char('?') => MainAction::ToggleHelp,
        KeyCode::Esc => MainAction::CloseHelp,
        KeyCode::Char('s') if m.contains(CONTROL) => MainAction::SideBySide,
        KeyCode::Char('h') if m.contains(CONTROL) => MainAction::ToggleDiffPanel,
        KeyCode::Char('b') if m.contains(CONTROL) => MainAction::ToggleChangedFiles,
        KeyCode::Char('j') if m.contains(ALT) => MainAction::MonitorDown,
        KeyCode::Char('k') if m.contains(ALT) => MainAction::MonitorUp,
        KeyCode::Char('m') if m.contains(CONTROL) => MainAction::ToggleMonitor,
        _ => MainAction::Unbound,
    }
}

/// The global key handler.
pub struct GlobalKeyHandler;

impl GlobalKeyHandler {
    /// Handles a key: in commit picker mode by the picker bindings; otherwise
    /// the panes see it first and the normal-mode bindings apply to what they
    /// leave.
    pub fn handle_global_key(app: &mut App, key: &KeyEvent) -> (r: KeyResult)
        requires
            key_ready(old(app)@, *key),
        ensures
            if old(app)@.app_mode == AppMode::CommitPicker {
                picker_mode_outcome(old(app)@, final(app)@, *key, r)
            } else {
                main_mode_outcome(old(app)@, final(app)@, *key, r)
            },
    {
        if app.is_in_commit_picker_mode() {
            return Self::handle_commit_picker_keys(app, key);
        }
        let panes_handled = app.forward_key_to_panes(*key);
        if panes_handled {
            return KeyResult::Handled;
        }
        Self::handle_main_mode_keys(app, key)
    }

    fn handle_commit_picker_keys(app: &mut App, key: &KeyEvent) -> (r: KeyResult)
        requires
            view_wf(old(app)@),
            old(app)@.app_mode == AppMode::CommitPicker,
        ensures
            picker_mode_outcome(old(app)@, final(app)@, *key, r),
    {
        match key.code {
            KeyCode::Char('q') => KeyResult::Quit,
            KeyCode::Char('c') if key.modifiers.contains(CONTROL) => KeyResult::Quit,
            KeyCode::Char('?') => {
                app.toggle_help();
                KeyResult::Handled
            },
            KeyCode::Esc => {
                app.exit_commit_picker_mode();
                KeyResult::Handled
            },
            _ => {
                let picker_handled = app.forward_key_to_commit_picker(*key);
                if !picker_handled {
                    app.forward_key_to_commit_summary(*key);
                }
                KeyResult::Handled
            },
        }
    }

    #[verifier::rlimit(60)]
    fn handle_main_mode_keys(app: &mut App, key: &KeyEvent) -> (r: KeyResult)
        requires
            key_ready(old(app)@, *key),
            old(app)@.app_mode != AppMode::CommitPicker,
        ensures
            main_mode_outcome(old(app)@, final(app)@, *key, r),
    {
        let m = key.modifiers;
        let r = match key.code {
            KeyCode::Char('q') => {
                KeyResult::Quit
            },
            KeyCode::Char('c') if m.contains(CONTROL) => {
                KeyResult::Quit
            },
            KeyCode::Char('G') if m.contains(SHIFT) => {
                let h = app.get_current_diff_height();
                app.scroll_to_bottom(h);
                KeyResult::Handled
            },
            KeyCode::Char('j') if m.is_empty() => {
                let h = app.get_current_diff_height();
                app.scroll_down(h);
                KeyResult::Handled
            },
            KeyCode::Down => {
                let h = app.get_current_diff_height();
                app.scroll_down(h);
                KeyResult::Handled
            },
            KeyCode::Char('k') if m.is_empty() => {
                app.scroll_up();
                KeyResult::Handled
            },
            KeyCode::Up => {
                app.scroll_up();
                KeyResult::Handled
            },
            KeyCode::Char('e') if m.contains(CONTROL) => {
                let h = app.get_current_diff_height();
                app.scroll_down(h);
                KeyResult::Handled
            },
            KeyCode::Char('y') if m.contains(CONTROL) => {
                app.scroll_up();
                KeyResult::Handled
            },
            KeyCode::Char('g') => {
                if app.handle_g_press() {
                    KeyResult::Handled
                } else {
                    KeyResult::Handled
                }
            },
            KeyCode::Char('t') if m.contains(CONTROL) => {
                app.toggle_theme();
                KeyResult::Handled
            },
            KeyCode::Char('t') => {
                if app.g_pressed_recently() {
                    app.next_file();
                }
                KeyResult::Handled
            },
            KeyCode::Char('T') => {
                if app.g_pressed_recently() {
                    app.prev_file();
                }
                KeyResult::Handled
            },
            KeyCode::PageDown => {
                let h = app.get_current_diff_height();
                app.page_down(h);
                KeyResult::Handled
            },
            KeyCode::PageUp => {
                let h = app.get_current_diff_height();
                app.page_up(h);
                KeyResult::Handled
            },
            KeyCode::Left => {
                app.prev_file();
                KeyResult::Handled
            },
            KeyCode::Right => {
                app.next_file();
                KeyResult::Handled
            },
            KeyCode::Tab => {
                app.next_file();
                KeyResult::Handled
            },
            KeyCode::BackTab => {
                app.prev_file();
                KeyResult::Handled
            },
            KeyCode::Char('?') => {
                app.toggle_help();
                KeyResult::Handled
            },
            KeyCode::Esc => {
                if app.is_showing_help() {
                    app.toggle_help();
                }
                KeyResult::Handled
            },
            KeyCode::Char('s') if m.contains(CONTROL) => {
                app.set_side_by_side_diff();
                KeyResult::Handled
            },
            KeyCode::Char('h') if m.contains(CONTROL) => {
                app.toggle_diff_panel();
                KeyResult::Handled
            },
            KeyCode::Char('b') if m.contains(CONTROL) => {
                app.toggle_changed_files_pane();
                KeyResult::Handled
            },
            KeyCode::Char('j') if m.contains(ALT) => {
                app.scroll_monitor_down();
                KeyResult::Handled
            },
            KeyCode::Char('k') if m.contains(ALT) => {
                app.scroll_monitor_up();
                KeyResult::Handled
            },
            KeyCode::Char('m') if m.contains(CONTROL) => {
                app.toggle_monitor_pane();
                KeyResult::Handled
            },
            _ => {
                KeyResult::NotHandled
            },
        };
        proof {
            // `app` is not written again: its last value is its final one.
            assert(has_resolved(app));
        }
        r
    }
}

/// The scroll offset after a scrolling key, or `None` for other keys:
/// `j`/Down and `k`/Up move by one, PageDown and PageUp by ten (saturating),
/// `g` goes to the top and Shift+G to twenty lines above the end.
pub open spec fn scroll_key_offset(offset: usize, key: KeyEvent, content_line_count: usize) -> Option<usize> {
    match key.code {
        KeyCode::Char('j') | KeyCode::Down => Some(
            (if offset + 1 <= usize::MAX { offset + 1 } else { usize::MAX as int }) as usize,
        ),
        KeyCode::Char('k') | KeyCode::Up => Some((if offset >= 1 { offset - 1 } else { 0 }) as usize),
        KeyCode::PageDown => Some(
            (if offset + 10 <= usize::MAX { offset + 10 } else { usize::MAX as int }) as usize,
        ),
        KeyCode::PageUp => Some((if offset >= 10 { offset - 10 } else { 0 }) as usize),
        KeyCode::Char('g') => Some(0),
        KeyCode::Char('G') if key.modifiers.spec_contains(SHIFT) => Some(
            (if content_line_count >= 20 { content_line_count - 20 } else { 0 }) as usize,
        ),
        _ => None,
    }
}

/// Scrolling keys shared by panes.
pub struct PaneKeyUtils;

impl PaneKeyUtils {
    /// Applies a scrolling key to `scroll_offset`; reports whether the key was
    /// one.
    pub fn handle_scroll_keys(scroll_offset: &mut usize, key: &KeyEvent, content_line_count: usize) -> (handled: bool)
        ensures
            match scroll_key_offset(*old(scroll_offset), *key, content_line_count) {
                Some(o) => handled && *final(scroll_offset) == o,
                None => !handled && *final(scroll_offset) == *old(scroll_offset),
            },
    {
        let current: usize = *scroll_offset;
        let (next, handled) = match key.code {
            KeyCode::Char('j') | KeyCode::Down => (current.saturating_add(1), true),
            KeyCode::Char('k') | KeyCode::Up => (current.saturating_sub(1), true),
            KeyCode::PageDown => (current.saturating_add(10), true),
            KeyCode::PageUp => (current.saturating_sub(10), true),
            KeyCode::Char('g') => (0, true),
            KeyCode::Char('G') if key.modifiers.contains(SHIFT) => {
                let visible_lines: usize = 20;
                (content_line_count.saturating_sub(visible_lines), true)
            },
            _ => (current, false),
        };
        *scroll_offset = next;
        handled
    }
}

/// `q` quits, in the normal mode and in the commit picker mode, and
/// changes nothing.
pub proof fn law_q_quits(old: AppView, new: AppView, modifiers: crate::pane::events::KeyModifiers, r: KeyResult)
    ensures
        main_mode_outcome(old, new, KeyEvent { code: KeyCode::Char('q'), modifiers }, r) ==> r == KeyResult::Quit
            && new == old,
        picker_mode_outcome(old, new, KeyEvent { code: KeyCode::Char('q'), modifiers }, r) ==> r
            == KeyResult::Quit && new == old,
{
}

/// A key that no binding names is left unhandled and changes nothing.
pub proof fn law_unbound_keys_change_nothing(old: AppView, new: AppView, key: KeyEvent, r: KeyResult)
    requires
        main_mode_action(key) == MainAction::Unbound,
    ensures
        main_mode_outcome(old, new, key, r) ==> r == KeyResult::NotHandled && new == old,
{
}

} // verus!
