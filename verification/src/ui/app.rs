//! The application state and its transitions.
use vstd::prelude::*;
use std::time::{Duration, Instant};
use crate::git::{CommitInfo, FileDiff, TreeNode};
use crate::pane::events::{AppEvent, KeyEvent};
use crate::pane::keys::MainAction;
use crate::pane::registry::{
    lemma_registry_wf, pane_visible, with_visibility, after_event, PaneId, PaneRegistry, PANE_COUNT,
};
use crate::ui::model::{
    help_shown, nav_ready, scroll_fits, spec_detect_branch_change, spec_enter_commit_picker_mode,
    spec_exit_commit_picker_mode, spec_forward_key_to_panes, spec_page_down, spec_page_up,
    spec_scroll_down, spec_scroll_to_bottom, spec_scroll_to_top, spec_scroll_up,
    spec_select_commit, spec_set_side_by_side_diff, spec_set_single_pane_diff,
    spec_toggle_help, spec_toggle_monitor_pane, view_wf, ActivePane, AppMode, AppView,
    FileBrowserPane, InformationPane, TreeDisplayNode, has_path, is_index, is_file_line, line_count,
    newline_count, keeps_time, kept_time_index, spec_update_files, spec_update_tree, synced,
    flatten_node, flatten_nodes, flatten_indices, flatten_indices_list, depth_fits, depths_fit,
    node_shown, display_of, file_index_of, string_views, forward_walk, backward_walk, line_is_file,
    spec_next_file, spec_prev_file, spec_scroll_monitor_down, spec_scroll_monitor_up, elapsed_text,
};
use crate::search::{find_first, find_from, find_last_below};
use crate::ui::theme::Theme;

verus! {

broadcast use lemma_registry_wf;

/// The application: the files on display, the tree of changed files and the
/// cursors into both, the scroll offsets, which panes are shown, the themes,
/// the monitor output and the commit picker state.
pub struct App {
    files: Vec<FileDiff>,
    current_file_index: usize,
    scroll_offset: usize,
    tree_nodes: Vec<(TreeDisplayNode, usize)>,
    current_tree_index: usize,
    file_indices_in_tree: Vec<usize>,
    pub last_g_press: Option<Instant>,
    pub current_diff_height: usize,
    side_by_side_diff: bool,
    show_diff_panel: bool,
    show_changed_files_pane: bool,
    file_change_timestamps: Vec<Instant>,
    monitor_output: String,
    monitor_scroll_offset: usize,
    show_monitor_pane: bool,
    monitor_visible_height: usize,
    monitor_command_configured: bool,
    monitor_elapsed_time: Option<Duration>,
    monitor_has_run: bool,
    current_file_browser_pane: FileBrowserPane,
    current_information_pane: InformationPane,
    themes: Vec<Theme>,
    current_theme_index: usize,
    pane_registry: PaneRegistry,
    last_active_pane: ActivePane,
    app_mode: AppMode,
    selected_commit: Option<CommitInfo>,
    last_branch_name: Option<String>,
}

impl View for App {
    type V = AppView;

    closed spec fn view(&self) -> AppView {
        AppView {
            files: self.files@,
            current_file_index: self.current_file_index,
            scroll_offset: self.scroll_offset,
            tree_nodes: self.tree_nodes@,
            current_tree_index: self.current_tree_index,
            file_indices_in_tree: self.file_indices_in_tree@,
            last_g_press: self.last_g_press,
            current_diff_height: self.current_diff_height,
            side_by_side_diff: self.side_by_side_diff,
            show_diff_panel: self.show_diff_panel,
            show_changed_files_pane: self.show_changed_files_pane,
            file_change_timestamps: self.file_change_timestamps@,
            monitor_output: self.monitor_output@,
            monitor_scroll_offset: self.monitor_scroll_offset,
            show_monitor_pane: self.show_monitor_pane,
            monitor_visible_height: self.monitor_visible_height,
            monitor_command_configured: self.monitor_command_configured,
            monitor_elapsed_time: self.monitor_elapsed_time,
            monitor_has_run: self.monitor_has_run,
            current_file_browser_pane: self.current_file_browser_pane,
            current_information_pane: self.current_information_pane,
            themes: self.themes@,
            current_theme_index: self.current_theme_index,
            panes: self.pane_registry@.panes,
            pane_theme: self.pane_registry@.theme,
            last_active_pane: self.last_active_pane,
            app_mode: self.app_mode,
            selected_commit: self.selected_commit,
            last_branch_name: match self.last_branch_name {
                Some(b) => Some(b@),
                None => None,
            },
        }
    }
}

/// The state of a new application.
pub open spec fn spec_new_app(
    show_diff_panel: bool,
    show_changed_files_pane: bool,
    initial_theme_index: usize,
    themes: Seq<Theme>,
    v: AppView,
) -> bool {
    &&& v.files.len() == 0
    &&& v.current_file_index == 0
    &&& v.scroll_offset == 0
    &&& v.tree_nodes.len() == 0
    &&& v.current_tree_index == 0
    &&& v.file_indices_in_tree.len() == 0
    &&& v.last_g_press is None
    &&& v.current_diff_height == 20
    &&& !v.side_by_side_diff
    &&& v.show_diff_panel == show_diff_panel
    &&& v.show_changed_files_pane == show_changed_files_pane
    &&& v.file_change_timestamps.len() == 0
    &&& v.monitor_output.len() == 0
    &&& v.monitor_scroll_offset == 0
    &&& !v.show_monitor_pane
    &&& v.monitor_visible_height == 10
    &&& !v.monitor_command_configured
    &&& v.monitor_elapsed_time is None
    &&& !v.monitor_has_run
    &&& v.current_file_browser_pane == FileBrowserPane::FileTree
    &&& v.current_information_pane == InformationPane::Diff
    &&& v.themes == themes
    &&& v.current_theme_index == initial_theme_index
    &&& v.panes == crate::pane::registry::default_panes()
    &&& v.pane_theme == (if initial_theme_index < themes.len() { themes[initial_theme_index as int] } else { Theme::Dark })
    &&& v.last_active_pane == ActivePane::FileTree
    &&& v.app_mode == AppMode::Normal
    &&& v.selected_commit is None
    &&& v.last_branch_name is None
}

/// How long after a press of `g` a second one counts as a double press, in
/// milliseconds.
pub const DOUBLE_PRESS_MILLIS: u128 = 500;

/// Whether a press of `g` is the second of a double press: there was an
/// earlier press, less than half a second before.
pub open spec fn spec_is_double_press(millis_since_last: Option<u128>) -> bool {
    millis_since_last matches Some(ms) && ms < DOUBLE_PRESS_MILLIS
}

/// Decides a double press of `g` from the whole milliseconds since the
/// previous press, if there was one.
pub fn is_double_press(millis_since_last: Option<u128>) -> (r: bool)
    ensures
        r == spec_is_double_press(millis_since_last),
{
    match millis_since_last {
        Some(ms) => ms < DOUBLE_PRESS_MILLIS,
        None => false,
    }
}

impl App {
    /// A new application showing nothing yet.
    pub fn new_with_config(
        show_diff_panel: bool,
        show_changed_files_pane: bool,
        initial_theme_index: usize,
        themes: Vec<Theme>,
    ) -> (app: App)
        ensures
            view_wf(app@),
            spec_new_app(show_diff_panel, show_changed_files_pane, initial_theme_index, themes@, app@),
    {
        let theme = if initial_theme_index < themes.len() {
            themes[initial_theme_index]
        } else {
            Theme::Dark
        };
        let pane_registry = PaneRegistry::new(theme);
        App {
            files: Vec::new(),
            current_file_index: 0,
            scroll_offset: 0,
            tree_nodes: Vec::new(),
            current_tree_index: 0,
            file_indices_in_tree: Vec::new(),
            last_g_press: None,
            current_diff_height: 20,
            side_by_side_diff: false,
            show_diff_panel,
            show_changed_files_pane,
            file_change_timestamps: Vec::new(),
            monitor_output: String::new(),
            monitor_scroll_offset: 0,
            show_monitor_pane: false,
            monitor_visible_height: 10,
            monitor_command_configured: false,
            monitor_elapsed_time: None,
            monitor_has_run: false,
            current_file_browser_pane: FileBrowserPane::FileTree,
            current_information_pane: InformationPane::Diff,
            themes,
            current_theme_index: initial_theme_index,
            pane_registry,
            last_active_pane: ActivePane::FileTree,
            app_mode: AppMode::Normal,
            selected_commit: None,
            last_branch_name: None,
        }
    }

    // ------------------------------------------------------------ scrolling

    pub fn scroll_down(&mut self, max_lines: usize)
        requires
            scroll_fits(old(self)@, max_lines),
        ensures
            final(self)@ == spec_scroll_down(old(self)@, max_lines),
    {
        if self.current_file_index < self.files.len() {
            let n: usize = self.files[self.current_file_index].line_strings.len();
            if self.scroll_offset + max_lines < n {
                self.scroll_offset = self.scroll_offset + 1;
            }
        }
    }

    pub fn page_down(&mut self, max_lines: usize)
        requires
            scroll_fits(old(self)@, max_lines),
        ensures
            final(self)@ == spec_page_down(old(self)@, max_lines),
    {
        if self.current_file_index < self.files.len() {
            let total_lines: usize = self.files[self.current_file_index].line_strings.len();
            if total_lines > max_lines {
                let target: usize = self.scroll_offset + max_lines;
                let limit: usize = total_lines - max_lines;
                self.scroll_offset = if target < limit { target } else { limit };
            }
        }
    }

    pub fn page_up(&mut self, max_lines: usize)
        ensures
            final(self)@ == spec_page_up(old(self)@, max_lines),
    {
        self.scroll_offset = if self.scroll_offset >= max_lines {
            self.scroll_offset - max_lines
        } else {
            0
        };
    }

    pub fn scroll_up(&mut self)
        ensures
            final(self)@ == spec_scroll_up(old(self)@),
    {
        if self.scroll_offset > 0 {
            self.scroll_offset = self.scroll_offset - 1;
        }
    }

    pub fn scroll_to_bottom(&mut self, max_lines: usize)
        ensures
            final(self)@ == spec_scroll_to_bottom(old(self)@, max_lines),
    {
        if self.current_file_index < self.files.len() {
            let total_lines: usize = self.files[self.current_file_index].line_strings.len();
            if total_lines > max_lines {
                self.scroll_offset = total_lines - max_lines;
            } else {
                self.scroll_offset = 0;
            }
        }
    }

    pub fn scroll_to_top(&mut self)
        ensures
            final(self)@ == spec_scroll_to_top(old(self)@),
    {
        self.scroll_offset = 0;
    }

    pub fn get_scroll_offset(&self) -> (r: usize)
        ensures
            r == self@.scroll_offset,
    {
        self.scroll_offset
    }

    // ------------------------------------------------------------ panes

    pub fn is_showing_help(&self) -> (r: bool)
        requires
            view_wf(self@),
        ensures
            r == help_shown(self@),
    {
        self.pane_registry.is_visible(&PaneId::Help)
    }

    pub fn set_single_pane_diff(&mut self)
        requires
            view_wf(old(self)@),
        ensures
            final(self)@ == spec_set_single_pane_diff(old(self)@),
    {
        self.side_by_side_diff = false;
        if !self.is_showing_help() {
            self.pane_registry.set_pane_visible(&PaneId::Diff, true);
            self.pane_registry.set_pane_visible(&PaneId::SideBySideDiff, false);
            self.current_information_pane = InformationPane::Diff;
        }
    }

    pub fn set_side_by_side_diff(&mut self)
        requires
            view_wf(old(self)@),
        ensures
            final(self)@ == spec_set_side_by_side_diff(old(self)@),
    {
        self.side_by_side_diff = true;
        if !self.is_showing_help() {
            self.pane_registry.set_pane_visible(&PaneId::SideBySideDiff, true);
            self.pane_registry.set_pane_visible(&PaneId::Diff, false);
            self.current_information_pane = InformationPane::SideBySideDiff;
        }
    }

    pub fn toggle_help(&mut self)
        requires
            view_wf(old(self)@),
        ensures
            final(self)@ == spec_toggle_help(old(self)@),
    {
        let help_pane_visible = self.pane_registry.is_visible(&PaneId::Help);
        if help_pane_visible {
            self.close_help();
        } else {
            self.open_help();
        }
    }

    #[verifier::rlimit(40)]
    fn close_help(&mut self)
        requires
            view_wf(old(self)@),
            help_shown(old(self)@),
        ensures
            final(self)@ == spec_toggle_help(old(self)@),
    {
        let ghost v0 = self@;
        self.pane_registry.set_pane_visible(&PaneId::Help, false);
        let ghost v1 = AppView { panes: with_visibility(v0.panes, PaneId::Help, false), ..v0 };
        assert(self@ == v1);
        assert(!help_shown(v1));
        match self.last_active_pane {
            ActivePane::FileTree => {
                self.set_single_pane_diff();
                self.current_information_pane = InformationPane::Diff;
            },
            ActivePane::Monitor => {
                self.set_single_pane_diff();
                self.current_information_pane = InformationPane::Diff;
            },
            ActivePane::Diff => {
                self.set_single_pane_diff();
                self.current_information_pane = InformationPane::Diff;
            },
            ActivePane::SideBySideDiff => {
                self.set_side_by_side_diff();
                self.current_information_pane = InformationPane::SideBySideDiff;
            },
        }
    }

    fn open_help(&mut self)
        requires
            view_wf(old(self)@),
            !help_shown(old(self)@),
        ensures
            final(self)@ == spec_toggle_help(old(self)@),
    {
        if self.pane_registry.is_visible(&PaneId::SideBySideDiff) {
            self.last_active_pane = ActivePane::SideBySideDiff;
        } else if self.pane_registry.is_visible(&PaneId::Diff) {
            self.last_active_pane = ActivePane::Diff;
        } else if self.is_showing_monitor_pane() {
            self.last_active_pane = ActivePane::Monitor;
        } else {
            self.last_active_pane = ActivePane::FileTree;
        }
        self.pane_registry.set_pane_visible(&PaneId::Help, true);
        self.pane_registry.set_pane_visible(&PaneId::Diff, false);
        self.pane_registry.set_pane_visible(&PaneId::SideBySideDiff, false);
        self.current_information_pane = InformationPane::Help;
    }

    pub fn toggle_diff_panel(&mut self)
        ensures
            final(self)@ == (AppView { show_diff_panel: !old(self)@.show_diff_panel, ..old(self)@ }),
    {
        self.show_diff_panel = !self.show_diff_panel;
    }

    pub fn is_showing_diff_panel(&self) -> (r: bool)
        ensures
            r == self@.show_diff_panel,
    {
        self.show_diff_panel
    }

    pub fn toggle_changed_files_pane(&mut self)
        ensures
            final(self)@ == (AppView {
                show_changed_files_pane: !old(self)@.show_changed_files_pane,
                ..old(self)@
            }),
    {
        self.show_changed_files_pane = !self.show_changed_files_pane;
    }

    pub fn is_showing_changed_files_pane(&self) -> (r: bool)
        ensures
            r == self@.show_changed_files_pane,
    {
        self.show_changed_files_pane
    }

    pub fn toggle_monitor_pane(&mut self)
        requires
            view_wf(old(self)@),
        ensures
            final(self)@ == spec_toggle_monitor_pane(old(self)@),
    {
        self.show_monitor_pane = !self.show_monitor_pane;
        let shown = self.show_monitor_pane;
        self.pane_registry.set_pane_visible(&PaneId::Monitor, shown);
        if self.show_monitor_pane {
            self.current_file_browser_pane = FileBrowserPane::Monitor;
        } else {
            self.current_file_browser_pane = FileBrowserPane::FileTree;
        }
    }

    pub fn is_showing_monitor_pane(&self) -> (r: bool)
        ensures
            r == self@.show_monitor_pane,
    {
        self.show_monitor_pane
    }

    /// Whether the single diff view is visible.
    pub fn is_diff_panel_visible(&self) -> (r: bool)
        requires
            view_wf(self@),
        ensures
            r == pane_visible(self@.panes, PaneId::Diff),
    {
        self.pane_registry.is_visible(&PaneId::Diff)
    }

    /// Whether the pane `id` is visible (false when no such pane is registered).
    pub fn is_pane_visible(&self, id: &PaneId) -> (r: bool)
        requires
            view_wf(self@),
        ensures
            r == pane_visible(self@.panes, *id),
    {
        self.pane_registry.is_visible(id)
    }

    pub fn get_last_active_pane(&self) -> (r: ActivePane)
        ensures
            r == self@.last_active_pane,
    {
        self.last_active_pane
    }

    pub fn get_current_information_pane(&self) -> (r: InformationPane)
        ensures
            r == self@.current_information_pane,
    {
        self.current_information_pane
    }

    pub fn get_current_file_browser_pane(&self) -> (r: FileBrowserPane)
        ensures
            r == self@.current_file_browser_pane,
    {
        self.current_file_browser_pane
    }

    /// Whether the side-by-side diff is the chosen diff view.
    pub fn is_side_by_side_diff(&self) -> (r: bool)
        ensures
            r == self@.side_by_side_diff,
    {
        self.side_by_side_diff
    }

    // ------------------------------------------------------------ monitor settings

    pub fn set_monitor_visible_height(&mut self, height: usize)
        ensures
            final(self)@ == (AppView { monitor_visible_height: height, ..old(self)@ }),
    {
        self.monitor_visible_height = height;
    }

    pub fn set_monitor_command_configured(&mut self, configured: bool)
        ensures
            final(self)@ == (AppView { monitor_command_configured: configured, ..old(self)@ }),
    {
        self.monitor_command_configured = configured;
    }

    pub fn update_monitor_timing(&mut self, elapsed: Option<Duration>, has_run: bool)
        ensures
            final(self)@ == (AppView {
                monitor_elapsed_time: elapsed,
                monitor_has_run: has_run,
                ..old(self)@
            }),
    {
        self.monitor_elapsed_time = elapsed;
        self.monitor_has_run = has_run;
    }

    pub fn get_monitor_command_configured(&self) -> (r: bool)
        ensures
            r == self@.monitor_command_configured,
    {
        self.monitor_command_configured
    }

    pub fn get_monitor_has_run(&self) -> (r: bool)
        ensures
            r == self@.monitor_has_run,
    {
        self.monitor_has_run
    }

    pub fn get_monitor_elapsed_time(&self) -> (r: Option<Duration>)
        ensures
            r == self@.monitor_elapsed_time,
    {
        self.monitor_elapsed_time
    }

    pub fn get_monitor_scroll_offset(&self) -> (r: usize)
        ensures
            r == self@.monitor_scroll_offset,
    {
        self.monitor_scroll_offset
    }

    pub fn get_monitor_output(&self) -> (r: &str)
        ensures
            r@ == self@.monitor_output,
    {
        self.monitor_output.as_str()
    }

    pub fn get_monitor_visible_height(&self) -> (r: usize)
        ensures
            r == self@.monitor_visible_height,
    {
        self.monitor_visible_height
    }

    // ------------------------------------------------------------ themes

    pub fn get_theme(&self) -> (t: &Theme)
        requires
            self@.current_theme_index < self@.themes.len(),
        ensures
            *t == self@.themes[self@.current_theme_index as int],
    {
        &self.themes[self.current_theme_index]
    }

    /// Moves to the next theme, cyclically, and hands it to the panes.
    pub fn toggle_theme(&mut self)
        requires
            view_wf(old(self)@),
            old(self)@.themes.len() > 0 ==> old(self)@.current_theme_index < usize::MAX,
        ensures
            final(self)@ == spec_toggle_theme(old(self)@),
    {
        if self.themes.len() == 0 {
            return;
        }
        self.current_theme_index = (self.current_theme_index + 1) % self.themes.len();
        let t = *self.get_theme();
        self.pane_registry.set_theme(t);
    }

    // ------------------------------------------------------------ commit picker

    pub fn is_in_commit_picker_mode(&self) -> (r: bool)
        ensures
            r == (self@.app_mode == AppMode::CommitPicker),
    {
        match self.app_mode {
            AppMode::CommitPicker => true,
            AppMode::Normal => false,
        }
    }

    pub fn enter_commit_picker_mode(&mut self)
        requires
            view_wf(old(self)@),
        ensures
            final(self)@ == spec_enter_commit_picker_mode(old(self)@),
    {
        if self.is_in_commit_picker_mode() {
            return;
        }
        if !self.show_diff_panel {
            return;
        }
        self.app_mode = AppMode::CommitPicker;
        self.pane_registry.set_pane_visible(&PaneId::CommitPicker, true);
        self.pane_registry.set_pane_visible(&PaneId::CommitSummary, true);
        self.pane_registry.set_pane_visible(&PaneId::Diff, false);
        self.pane_registry.set_pane_visible(&PaneId::SideBySideDiff, false);
        self.pane_registry.set_pane_visible(&PaneId::Help, false);
    }

    pub fn exit_commit_picker_mode(&mut self)
        requires
            view_wf(old(self)@),
        ensures
            final(self)@ == spec_exit_commit_picker_mode(old(self)@),
    {
        if !self.is_in_commit_picker_mode() {
            return;
        }
        self.app_mode = AppMode::Normal;
        self.pane_registry.set_pane_visible(&PaneId::CommitPicker, false);
        self.pane_registry.set_pane_visible(&PaneId::CommitSummary, false);
        if self.show_diff_panel {
            match self.current_information_pane {
                InformationPane::Diff => self.set_single_pane_diff(),
                InformationPane::SideBySideDiff => self.set_side_by_side_diff(),
                _ => self.set_single_pane_diff(),
            }
        }
    }

    /// Selects `commit` (one with an empty hash or short hash is refused) and
    /// leaves the commit picker.
    pub fn select_commit(&mut self, commit: CommitInfo)
        requires
            view_wf(old(self)@),
        ensures
            final(self)@ == spec_select_commit(old(self)@, commit),
    {
        if commit.sha.as_str().is_empty() {
            return;
        }
        if commit.short_sha.as_str().is_empty() {
            return;
        }
        self.selected_commit = Some(commit);
        self.exit_commit_picker_mode();
    }

    pub fn clear_selected_commit(&mut self)
        ensures
            final(self)@ == (AppView { selected_commit: None, ..old(self)@ }),
    {
        self.selected_commit = None;
    }

    pub fn get_selected_commit(&self) -> (r: Option<&CommitInfo>)
        ensures
            match r {
                Some(c) => self@.selected_commit == Some(*c),
                None => self@.selected_commit is None,
            },
    {
        match &self.selected_commit {
            Some(c) => Some(c),
            None => None,
        }
    }

    /// Records the current branch; reports a change from the recorded one and
    /// then clears the selected commit.
    pub fn detect_branch_change(&mut self, current_branch: &str) -> (changed: bool)
        ensures
            (final(self)@, changed) == spec_detect_branch_change(old(self)@, current_branch@),
    {
        let branch_changed = match &self.last_branch_name {
            Some(last_branch) => !crate::text::str_equal(last_branch.as_str(), current_branch),
            None => {
                self.last_branch_name = Some(String::from_str(current_branch));
                false
            },
        };
        if branch_changed {
            self.last_branch_name = Some(String::from_str(current_branch));
            if self.selected_commit.is_some() {
                self.clear_selected_commit();
            }
        }
        branch_changed
    }

    /// The last branch recorded.
    pub fn get_last_branch_name(&self) -> (r: Option<&str>)
        ensures
            match r {
                Some(b) => self@.last_branch_name == Some(b@),
                None => self@.last_branch_name is None,
            },
    {
        match &self.last_branch_name {
            Some(b) => Some(b.as_str()),
            None => None,
        }
    }

    // ------------------------------------------------------------ keys to panes

    /// In commit picker mode, hands the key to the commit picker pane and, if
    /// it does not consume it, to the commit summary pane; reports whether one
    /// of them consumed it.
    pub fn forward_key_to_panes(&mut self, key: KeyEvent) -> (handled: bool)
        requires
            view_wf(old(self)@),
        ensures
            (final(self)@, handled) == spec_forward_key_to_panes(old(self)@, key),
    {
        let mut handled = false;
        if self.is_in_commit_picker_mode() {
            let e = AppEvent::Key(key);
            match self.pane_registry.send_event(&PaneId::CommitPicker, &e) {
                Some(h) => { handled = handled || h; },
                None => {},
            }
            if !handled {
                match self.pane_registry.send_event(&PaneId::CommitSummary, &e) {
                    Some(h) => { handled = handled || h; },
                    None => {},
                }
            }
        }
        handled
    }
}

/// Moving to the next theme, cyclically, and handing it to the panes.
pub open spec fn spec_toggle_theme(v: AppView) -> AppView {
    if v.themes.len() == 0 {
        v
    } else {
        let i = ((v.current_theme_index + 1) % (v.themes.len() as int)) as usize;
        AppView { current_theme_index: i, pane_theme: v.themes[i as int], ..v }
    }
}

// ---------------------------------------------------------------- lookups

pub(crate) fn position_of_path(files: &Vec<FileDiff>, path: &String) -> (r: Option<usize>)
    ensures
        match find_first(files@, has_path(path@)) {
            Some(k) => r == Some(k as usize),
            None => r is None,
        },
{
    let mut i: usize = 0;
    while i < files.len()
        invariant
            i <= files@.len(),
            find_first(files@, has_path(path@)) == find_from(files@, has_path(path@), i as int),
        decreases files@.len() - i,
    {
        if files[i].path == *path {
            return Some(i);
        }
        i = i + 1;
    }
    None
}

fn last_position_of_path_below(files: &Vec<FileDiff>, path: &String, bound: usize) -> (r: Option<usize>)
    requires
        bound <= files@.len(),
    ensures
        match find_last_below(files@, has_path(path@), bound as int) {
            Some(k) => r == Some(k as usize),
            None => r is None,
        },
{
    let mut k: usize = bound;
    while k > 0
        invariant
            k <= bound <= files@.len(),
            find_last_below(files@, has_path(path@), bound as int) == find_last_below(
                files@,
                has_path(path@),
                k as int,
            ),
        decreases k,
    {
        if files[k - 1].path == *path {
            return Some(k - 1);
        }
        k = k - 1;
    }
    None
}

fn position_of_index(fit: &Vec<usize>, x: usize) -> (r: Option<usize>)
    ensures
        match find_first(fit@, is_index(x)) {
            Some(k) => r == Some(k as usize),
            None => r is None,
        },
{
    let mut i: usize = 0;
    while i < fit.len()
        invariant
            i <= fit@.len(),
            find_first(fit@, is_index(x)) == find_from(fit@, is_index(x), i as int),
        decreases fit@.len() - i,
    {
        if fit[i] == x {
            return Some(i);
        }
        i = i + 1;
    }
    None
}

fn position_of_file_line(fit: &Vec<usize>) -> (r: Option<usize>)
    ensures
        match find_first(fit@, is_file_line()) {
            Some(k) => r == Some(k as usize),
            None => r is None,
        },
{
    let mut i: usize = 0;
    while i < fit.len()
        invariant
            i <= fit@.len(),
            find_first(fit@, is_file_line()) == find_from(fit@, is_file_line(), i as int),
        decreases fit@.len() - i,
    {
        if fit[i] != usize::MAX {
            return Some(i);
        }
        i = i + 1;
    }
    None
}

fn lines_equal(a: &Vec<String>, b: &Vec<String>) -> (r: bool)
    ensures
        r == (string_views(a@) == string_views(b@)),
{
    if a.len() != b.len() {
        assert(string_views(a@).len() != string_views(b@).len());
        return false;
    }
    let mut i: usize = 0;
    while i < a.len()
        invariant
            a@.len() == b@.len(),
            i <= a@.len(),
            forall|j: int| 0 <= j < i ==> a@[j]@ == b@[j]@,
        decreases a@.len() - i,
    {
        if a[i] != b[i] {
            assert(string_views(a@)[i as int] != string_views(b@)[i as int]);
            return false;
        }
        i = i + 1;
    }
    assert(string_views(a@) =~= string_views(b@));
    true
}

/// The number of lines of `s` as `str::lines` counts them.
pub fn count_lines(s: &str) -> (r: usize)
    ensures
        r == line_count(s@),
{
    let n: usize = s.unicode_len();
    let mut breaks: usize = 0;
    let mut i: usize = 0;
    let mut last: char = ' ';
    while i < n
        invariant
            n == s@.len(),
            i <= n,
            breaks <= i,
            i > 0 && last != '\n' ==> breaks < i,
            breaks == newline_count(s@.take(i as int)),
            i > 0 ==> last == s@[i - 1],
        decreases n - i,
    {
        let c = s.get_char(i);
        assert(s@.take(i + 1).drop_last() =~= s@.take(i as int));
        if c == '\n' {
            breaks = breaks + 1;
        }
        last = c;
        i = i + 1;
    }
    assert(s@.take(n as int) =~= s@);
    if n > 0 && last != '\n' {
        breaks + 1
    } else {
        breaks
    }
}

/// The three cases of where a walk around the tree stands after `x` steps.
proof fn lemma_wrap_step(x: int, n: int)
    requires
        0 <= x < n,
    ensures
        (x + 1) % n == (if x + 1 < n { x + 1 } else { 0 }),
{
    if x + 1 < n {
        vstd::arithmetic::div_mod::lemma_small_mod((x + 1) as nat, n as nat);
    } else {
        vstd::arithmetic::div_mod::lemma_mod_self_0(n);
    }
}

/// Walks forward from tree line `start` around a tree of `n` lines and gives
/// the first line met that stands for a file.
fn find_forward_file_line(fit: &Vec<usize>, n: usize, start: usize) -> (r: Option<usize>)
    requires
        n > 0,
        start < n,
    ensures
        match find_first(forward_walk(start as int, n as int), line_is_file(fit@)) {
            Some(k) => r == Some(forward_walk(start as int, n as int)[k] as usize),
            None => r is None,
        },
        match r {
            Some(t) => t < fit@.len() && fit@[t as int] != usize::MAX,
            None => true,
        },
{
    let ghost walk = forward_walk(start as int, n as int);
    proof {
        lemma_wrap_step(start as int, n as int);
    }
    let mut next: usize = (start + 1) % n;
    let ghost mut k: int = 0;
    while next != start
        invariant
            n > 0,
            start < n,
            walk == forward_walk(start as int, n as int),
            0 <= k <= n - 1,
            next == (if start + k + 1 < n { start + k + 1 } else { start + k + 1 - n }),
            forall|j: int| 0 <= j < k ==> !line_is_file(fit@)(#[trigger] walk[j]),
        decreases n - 1 - k,
    {
        assert(k < n - 1);
        assert(walk[k] == next);
        if next < fit.len() && fit[next] != usize::MAX {
            proof {
                crate::search::lemma_find_first_is(walk, line_is_file(fit@), k);
            }
            return Some(next);
        }
        proof {
            lemma_wrap_step(next as int, n as int);
        }
        next = (next + 1) % n;
        proof {
            k = k + 1;
        }
    }
    proof {
        crate::search::lemma_find_first_none(walk, line_is_file(fit@));
    }
    None
}

/// Walks backward from tree line `start` around a tree of `n` lines and gives
/// the first line met that stands for a file.
fn find_backward_file_line(fit: &Vec<usize>, n: usize, start: usize) -> (r: Option<usize>)
    requires
        n > 0,
        start < n,
    ensures
        match find_first(backward_walk(start as int, n as int), line_is_file(fit@)) {
            Some(k) => r == Some(backward_walk(start as int, n as int)[k] as usize),
            None => r is None,
        },
        match r {
            Some(t) => t < fit@.len() && fit@[t as int] != usize::MAX,
            None => true,
        },
{
    let ghost walk = backward_walk(start as int, n as int);
    let mut prev: usize = if start == 0 { n - 1 } else { start - 1 };
    let ghost mut k: int = 0;
    while prev != start
        invariant
            n > 0,
            start < n,
            walk == backward_walk(start as int, n as int),
            0 <= k <= n - 1,
            prev == (if start >= k + 1 { start - k - 1 } else { start + n - k - 1 }),
            forall|j: int| 0 <= j < k ==> !line_is_file(fit@)(#[trigger] walk[j]),
        decreases n - 1 - k,
    {
        assert(k < n - 1);
        assert(walk[k] == prev);
        if prev < fit.len() && fit[prev] != usize::MAX {
            proof {
                crate::search::lemma_find_first_is(walk, line_is_file(fit@), k);
            }
            return Some(prev);
        }
        prev = if prev == 0 { n - 1 } else { prev - 1 };
        proof {
            k = k + 1;
        }
    }
    proof {
        crate::search::lemma_find_first_none(walk, line_is_file(fit@));
    }
    None
}

/// The flattening of a list of subtrees grows one subtree at a time.
proof fn lemma_flatten_take(cs: Seq<TreeNode>, i: int, depth: int, files: Seq<FileDiff>)
    requires
        0 <= i < cs.len(),
    ensures
        flatten_nodes(cs.take(i + 1), depth) == flatten_nodes(cs.take(i), depth) + flatten_node(cs[i], depth),
        flatten_indices_list(cs.take(i + 1), files) == flatten_indices_list(cs.take(i), files)
            + flatten_indices(cs[i], files),
{
    assert(cs.take(i + 1).drop_last() =~= cs.take(i));
    assert(cs.take(i + 1).last() == cs[i]);
}

/// Each subtree of a list fits when the list does.
proof fn lemma_depths_fit(cs: Seq<TreeNode>, depth: int, i: int)
    requires
        depths_fit(cs, depth),
        0 <= i < cs.len(),
    ensures
        depth_fits(cs[i], depth),
    decreases cs.len(),
{
    if i < cs.len() - 1 {
        assert(cs.drop_last()[i] == cs[i]);
        lemma_depths_fit(cs.drop_last(), depth, i);
    }
}

impl App {
    // ------------------------------------------------------------ files

    /// Replaces the file list. The cursor stays on the file it was on, by
    /// path; a file whose path and diff lines are unchanged keeps the time it
    /// last changed, and every other file is stamped with the current time.
    pub fn update_files(&mut self, files: Vec<FileDiff>)
        requires
            view_wf(old(self)@),
        ensures
            view_wf(final(self)@),
            final(self)@ == (AppView {
                file_change_timestamps: final(self)@.file_change_timestamps,
                ..spec_update_files(old(self)@, files@)
            }),
            final(self)@.file_change_timestamps.len() == files@.len(),
            forall|i: int|
                0 <= i < files@.len() && keeps_time(old(self)@.files, old(self)@.file_change_timestamps, #[trigger] files@[i])
                    ==> final(self)@.file_change_timestamps[i] == old(self)@.file_change_timestamps[kept_time_index(
                    old(self)@.files,
                    old(self)@.file_change_timestamps,
                    files@[i].path@,
                )->0],
    {
        let ghost v0 = self@;
        let mut old_files = files;
        std::mem::swap(&mut old_files, &mut self.files);
        let current_file_path: Option<String> = if self.current_file_index < old_files.len() {
            Some(old_files[self.current_file_index].path.clone())
        } else {
            None
        };
        let bound: usize = if old_files.len() < self.file_change_timestamps.len() {
            old_files.len()
        } else {
            self.file_change_timestamps.len()
        };
        let mut new_timestamps: Vec<Instant> = Vec::new();
        let mut i: usize = 0;
        while i < self.files.len()
            invariant
                self@ == (AppView { files: self@.files, ..v0 }),
                self.files@ == files@,
                old_files@ == v0.files,
                bound == (if v0.files.len() < v0.file_change_timestamps.len() {
                    v0.files.len() as int
                } else {
                    v0.file_change_timestamps.len() as int
                }),
                i <= files@.len(),
                new_timestamps@.len() == i,
                forall|j: int|
                    0 <= j < i && keeps_time(v0.files, v0.file_change_timestamps, #[trigger] files@[j])
                        ==> new_timestamps@[j] == v0.file_change_timestamps[kept_time_index(
                        v0.files,
                        v0.file_change_timestamps,
                        files@[j].path@,
                    )->0],
            decreases files@.len() - i,
        {
            let ghost p = self.files@[i as int].path@;
            match last_position_of_path_below(&old_files, &self.files[i].path, bound) {
                Some(j) => {
                    proof {
                        crate::search::lemma_find_last_below(v0.files, has_path(p), bound as int);
                    }
                    proof {
                        crate::search::lemma_find_from(v0.files, has_path(p), 0);
                    }
                    match position_of_path(&old_files, &self.files[i].path) {
                        Some(f) => {
                            if lines_equal(&old_files[f].line_strings, &self.files[i].line_strings) {
                                new_timestamps.push(self.file_change_timestamps[j]);
                            } else {
                                new_timestamps.push(crate::clock::instant_now());
                            }
                        },
                        None => {
                            proof {
                                crate::search::lemma_find_from(v0.files, has_path(p), 0);
                            }
                            new_timestamps.push(crate::clock::instant_now());
                        },
                    }
                },
                None => {
                    new_timestamps.push(crate::clock::instant_now());
                },
            }
            i = i + 1;
        }
        self.file_change_timestamps = new_timestamps;
        match current_file_path {
            Some(path) => {
                match position_of_path(&self.files, &path) {
                    Some(new_index) => {
                        proof {
                            crate::search::lemma_find_from(files@, has_path(path@), 0);
                        }
                        self.current_file_index = new_index;
                    },
                    None => {
                        if self.current_file_index >= self.files.len() {
                            self.current_file_index = 0;
                            self.scroll_offset = 0;
                        }
                    },
                }
            },
            None => {
                if self.current_file_index >= self.files.len() {
                    self.current_file_index = 0;
                    self.scroll_offset = 0;
                }
            },
        }
    }

    pub fn get_files(&self) -> (r: &Vec<FileDiff>)
        ensures
            r@ == self@.files,
    {
        &self.files
    }

    pub fn get_file_change_timestamps(&self) -> (r: &Vec<Instant>)
        ensures
            r@ == self@.file_change_timestamps,
    {
        &self.file_change_timestamps
    }

    pub fn get_current_file(&self) -> (r: Option<&FileDiff>)
        ensures
            match r {
                Some(f) => self@.current_file_index < self@.files.len()
                    && *f == self@.files[self@.current_file_index as int],
                None => self@.current_file_index >= self@.files.len(),
            },
    {
        if self.current_file_index < self.files.len() {
            Some(&self.files[self.current_file_index])
        } else {
            None
        }
    }

    pub fn get_current_file_index(&self) -> (r: usize)
        ensures
            r == self@.current_file_index,
    {
        self.current_file_index
    }

    /// Points the file cursor at `index`.
    pub fn set_current_file_index(&mut self, index: usize)
        requires
            index < usize::MAX,
        ensures
            final(self)@ == (AppView { current_file_index: index, ..old(self)@ }),
    {
        self.current_file_index = index;
    }

    /// Sets the diff scroll offset.
    pub fn set_scroll_offset(&mut self, offset: usize)
        ensures
            final(self)@ == (AppView { scroll_offset: offset, ..old(self)@ }),
    {
        self.scroll_offset = offset;
    }

    /// Whether the file at `file_index` changed less than three seconds ago
    /// (by the clock); never for an index without a change time.
    pub fn is_file_recently_changed(&self, file_index: usize) -> (r: bool)
        ensures
            file_index >= self@.file_change_timestamps.len() ==> !r,
    {
        if file_index < self.file_change_timestamps.len() {
            let d = crate::clock::elapsed(&self.file_change_timestamps[file_index]);
            crate::clock::as_secs(&d) < 3
        } else {
            false
        }
    }

    // ------------------------------------------------------------ tree

    /// Shows `tree`: its subtrees are flattened, in pre-order, into lines with
    /// their depths (the top level at depth 1), keeping the files and the
    /// directories with children; each line records which listed file it
    /// stands for. The tree cursor is then synced with the file cursor.
    pub fn update_tree(&mut self, tree: &TreeNode)
        requires
            view_wf(old(self)@),
            depths_fit(tree.children@, 1),
        ensures
            view_wf(final(self)@),
            final(self)@ == spec_update_tree(old(self)@, *tree),
    {
        let ghost v0 = self@;
        self.tree_nodes = Vec::new();
        self.current_tree_index = 0;
        self.file_indices_in_tree = Vec::new();
        let ghost base = self@;
        let mut i: usize = 0;
        while i < tree.children.len()
            invariant
                i <= tree.children@.len(),
                depths_fit(tree.children@, 1),
                self@ == (AppView {
                    tree_nodes: flatten_nodes(tree.children@.take(i as int), 1),
                    file_indices_in_tree: flatten_indices_list(tree.children@.take(i as int), v0.files),
                    ..base
                }),
                base == (AppView {
                    tree_nodes: Seq::empty(),
                    file_indices_in_tree: Seq::empty(),
                    current_tree_index: 0,
                    ..v0
                }),
            decreases tree.children@.len() - i,
        {
            proof {
                lemma_flatten_take(tree.children@, i as int, 1, v0.files);
                lemma_depths_fit(tree.children@, 1, i as int);
            }
            self.add_tree_node_recursive(&tree.children[i], 1);
            proof {
                assert(Seq::<(TreeDisplayNode, usize)>::empty() + flatten_nodes(tree.children@.take(i as int), 1)
                    =~= flatten_nodes(tree.children@.take(i as int), 1));
            }
            i = i + 1;
        }
        assert(tree.children@.take(tree.children@.len() as int) =~= tree.children@);
        proof {
            lemma_flatten_lengths(tree.children@, 1, v0.files);
        }
        self.sync_tree_index_with_file_index();
    }

    fn push_node_line(&mut self, node: &TreeNode, depth: usize)
        ensures
            final(self)@ == (AppView {
                tree_nodes: old(self)@.tree_nodes + (if node_shown(*node) {
                    seq![(display_of(*node), depth)]
                } else {
                    Seq::empty()
                }),
                file_indices_in_tree: old(self)@.file_indices_in_tree + (if node_shown(*node) {
                    seq![file_index_of(*node, old(self)@.files)]
                } else {
                    Seq::empty()
                }),
                ..old(self)@
            }),
    {
        let ghost v0 = self@;
        if node.file_diff.is_some() || node.children.len() > 0 {
            let display_node = TreeDisplayNode {
                name: node.name.clone(),
                path: node.path.clone(),
                is_dir: node.is_dir,
                status: match &node.file_diff {
                    Some(d) => Some(d.status),
                    None => None,
                },
                additions: match &node.file_diff {
                    Some(d) => d.additions,
                    None => 0,
                },
                deletions: match &node.file_diff {
                    Some(d) => d.deletions,
                    None => 0,
                },
            };
            self.tree_nodes.push((display_node, depth));
            if node.file_diff.is_some() {
                match position_of_path(&self.files, &node.path) {
                    Some(file_index) => self.file_indices_in_tree.push(file_index),
                    None => self.file_indices_in_tree.push(usize::MAX),
                }
            } else {
                self.file_indices_in_tree.push(usize::MAX);
            }
        }
        proof {
            assert(self@.tree_nodes =~= v0.tree_nodes + (if node_shown(*node) {
                seq![(display_of(*node), depth)]
            } else {
                Seq::empty()
            }));
            assert(self@.file_indices_in_tree =~= v0.file_indices_in_tree + (if node_shown(*node) {
                seq![file_index_of(*node, v0.files)]
            } else {
                Seq::empty()
            }));
        }
    }

    #[verifier::rlimit(60)]
    fn add_tree_node_recursive(&mut self, node: &TreeNode, depth: usize)
        requires
            depth_fits(*node, depth as int),
        ensures
            final(self)@ == (AppView {
                tree_nodes: old(self)@.tree_nodes + flatten_node(*node, depth as int),
                file_indices_in_tree: old(self)@.file_indices_in_tree + flatten_indices(*node, old(self)@.files),
                ..old(self)@
            }),
        decreases node,
    {
        let ghost v0 = self@;
        self.push_node_line(node, depth);
        let ghost base = self@;
        let mut i: usize = 0;
        while i < node.children.len()
            invariant
                i <= node.children@.len(),
                depth_fits(*node, depth as int),
                node.children@.len() > 0 ==> depth + 1 <= usize::MAX,
                self@ == (AppView {
                    tree_nodes: base.tree_nodes + flatten_nodes(node.children@.take(i as int), depth + 1),
                    file_indices_in_tree: base.file_indices_in_tree + flatten_indices_list(
                        node.children@.take(i as int),
                        v0.files,
                    ),
                    ..base
                }),
                base == (AppView {
                    tree_nodes: v0.tree_nodes + (if node_shown(*node) {
                        seq![(display_of(*node), depth)]
                    } else {
                        Seq::empty()
                    }),
                    file_indices_in_tree: v0.file_indices_in_tree + (if node_shown(*node) {
                        seq![file_index_of(*node, v0.files)]
                    } else {
                        Seq::empty()
                    }),
                    ..v0
                }),
            decreases node.children@.len() - i,
        {
            proof {
                lemma_flatten_take(node.children@, i as int, depth + 1, v0.files);
                lemma_depths_fit(node.children@, depth + 1, i as int);
            }
            self.add_tree_node_recursive(&node.children[i], depth + 1);
            proof {
                assert(base.tree_nodes + flatten_nodes(node.children@.take(i + 1), depth + 1) =~= base.tree_nodes
                    + flatten_nodes(node.children@.take(i as int), depth + 1) + flatten_node(node.children@[i as int], depth + 1));
                assert(base.file_indices_in_tree + flatten_indices_list(node.children@.take(i + 1), v0.files)
                    =~= base.file_indices_in_tree + flatten_indices_list(node.children@.take(i as int), v0.files)
                    + flatten_indices(node.children@[i as int], v0.files));
            }
            i = i + 1;
        }
        assert(node.children@.take(node.children@.len() as int) =~= node.children@);
        assert(v0.tree_nodes + flatten_node(*node, depth as int) =~= base.tree_nodes + flatten_nodes(node.children@, depth + 1));
        assert(v0.file_indices_in_tree + flatten_indices(*node, v0.files) =~= base.file_indices_in_tree
            + flatten_indices_list(node.children@, v0.files));
    }

    fn sync_tree_index_with_file_index(&mut self)
        requires
            old(self)@.file_indices_in_tree.len() == old(self)@.tree_nodes.len(),
        ensures
            final(self)@ == synced(old(self)@),
            view_wf(old(self)@) ==> view_wf(final(self)@),
    {
        proof {
            crate::search::lemma_find_from(self@.file_indices_in_tree, is_index(self@.current_file_index), 0);
            crate::search::lemma_find_from(self@.file_indices_in_tree, is_file_line(), 0);
        }
        match position_of_index(&self.file_indices_in_tree, self.current_file_index) {
            Some(tree_index) => {
                self.current_tree_index = tree_index;
            },
            None => {
                if self.file_indices_in_tree.len() > 0 {
                    match position_of_file_line(&self.file_indices_in_tree) {
                        Some(t) => {
                            self.current_file_index = self.file_indices_in_tree[t];
                            self.current_tree_index = t;
                        },
                        None => {},
                    }
                }
            },
        }
    }

    pub fn get_tree_nodes(&self) -> (r: &Vec<(TreeDisplayNode, usize)>)
        ensures
            r@ == self@.tree_nodes,
    {
        &self.tree_nodes
    }

    pub fn get_current_tree_index(&self) -> (r: usize)
        ensures
            r == self@.current_tree_index,
    {
        self.current_tree_index
    }

    pub fn get_file_indices_in_tree(&self) -> (r: &Vec<usize>)
        ensures
            r@ == self@.file_indices_in_tree,
    {
        &self.file_indices_in_tree
    }
}

/// The flattened lines and their file indices come in equal numbers.
proof fn lemma_flatten_lengths(cs: Seq<TreeNode>, depth: int, files: Seq<FileDiff>)
    ensures
        flatten_nodes(cs, depth).len() == flatten_indices_list(cs, files).len(),
    decreases cs, 0int,
{
    if cs.len() > 0 {
        lemma_flatten_lengths(cs.drop_last(), depth, files);
        lemma_flatten_length(cs.last(), depth, files);
    }
}

proof fn lemma_flatten_length(n: TreeNode, depth: int, files: Seq<FileDiff>)
    ensures
        flatten_node(n, depth).len() == flatten_indices(n, files).len(),
    decreases n, 1int,
{
    lemma_flatten_lengths(n.children@, depth + 1, files);
}

impl App {
    // ------------------------------------------------------------ navigation

    /// Moves to the next file: the next tree line, cyclically, that stands for
    /// a file of the list; when no other line does, the next file of the list.
    /// The diff is scrolled to the top.
    #[verifier::rlimit(80)]
    #[verifier::spinoff_prover]
    pub fn next_file(&mut self)
        requires
            view_wf(old(self)@),
            nav_ready(old(self)@),
        ensures
            view_wf(final(self)@),
            final(self)@ == spec_next_file(old(self)@),
    {
        if self.files.len() > 0 {
            let ghost v0 = self@;
            let ghost walk = forward_walk(v0.current_tree_index as int, v0.tree_nodes.len() as int);
            let n: usize = self.tree_nodes.len();
            match find_forward_file_line(&self.file_indices_in_tree, n, self.current_tree_index) {
                Some(t) => {
                    self.current_file_index = self.file_indices_in_tree[t];
                    self.current_tree_index = t;
                    self.scroll_offset = 0;
                    proof {
                        crate::search::lemma_find_from(walk, line_is_file(v0.file_indices_in_tree), 0);
                        let k = find_first(walk, line_is_file(v0.file_indices_in_tree))->0;
                        assert(self@ == (AppView {
                            current_file_index: v0.file_indices_in_tree[walk[k]],
                            current_tree_index: walk[k] as usize,
                            scroll_offset: 0,
                            ..v0
                        }));
                    }
                },
                None => {
                    let fallback: usize = (self.current_file_index + 1) % self.files.len();
                    self.current_file_index = fallback;
                    let ghost v1 = AppView { current_file_index: fallback, ..v0 };
                    assert(self@ == v1);
                    self.sync_tree_index_with_file_index();
                    self.scroll_offset = 0;
                    assert(self@ == (AppView { scroll_offset: 0, ..synced(v1) }));
                },
            }
        }
    }

    /// Moves to the previous file: the previous tree line, cyclically, that
    /// stands for a file of the list; when no other line does, the previous
    /// file of the list. The diff is scrolled to the top.
    #[verifier::rlimit(80)]
    #[verifier::spinoff_prover]
    pub fn prev_file(&mut self)
        requires
            view_wf(old(self)@),
            nav_ready(old(self)@),
        ensures
            view_wf(final(self)@),
            final(self)@ == spec_prev_file(old(self)@),
    {
        if self.files.len() > 0 {
            let ghost v0 = self@;
            let ghost walk = backward_walk(v0.current_tree_index as int, v0.tree_nodes.len() as int);
            let n: usize = self.tree_nodes.len();
            match find_backward_file_line(&self.file_indices_in_tree, n, self.current_tree_index) {
                Some(t) => {
                    self.current_file_index = self.file_indices_in_tree[t];
                    self.current_tree_index = t;
                    self.scroll_offset = 0;
                    proof {
                        crate::search::lemma_find_from(walk, line_is_file(v0.file_indices_in_tree), 0);
                        let k = find_first(walk, line_is_file(v0.file_indices_in_tree))->0;
                        assert(self@ == (AppView {
                            current_file_index: v0.file_indices_in_tree[walk[k]],
                            current_tree_index: walk[k] as usize,
                            scroll_offset: 0,
                            ..v0
                        }));
                    }
                },
                None => {
                    let fallback: usize = if self.current_file_index == 0 {
                        self.files.len() - 1
                    } else {
                        self.current_file_index - 1
                    };
                    self.current_file_index = fallback;
                    let ghost v1 = AppView { current_file_index: fallback, ..v0 };
                    assert(self@ == v1);
                    self.sync_tree_index_with_file_index();
                    self.scroll_offset = 0;
                    assert(self@ == (AppView { scroll_offset: 0, ..synced(v1) }));
                },
            }
        }
    }

    // ------------------------------------------------------------ g key

    /// Records a press of `g` at the current time; a second press within
    /// half a second of the previous one scrolls the diff to the top and is
    /// reported.
    pub fn handle_g_press(&mut self) -> (double: bool)
        ensures
            final(self)@.last_g_press is Some,
            double ==> old(self)@.last_g_press is Some,
            old(self)@.last_g_press is None ==> !double,
            final(self)@ == (AppView {
                last_g_press: final(self)@.last_g_press,
                scroll_offset: if double { 0 } else { old(self)@.scroll_offset },
                ..old(self)@
            }),
    {
        let now = crate::clock::instant_now();
        let since_last = match &self.last_g_press {
            Some(last_time) => {
                let d = crate::clock::duration_since(&now, last_time);
                Some(crate::clock::as_millis(&d))
            },
            None => None,
        };
        self.last_g_press = Some(now);
        if is_double_press(since_last) {
            self.scroll_to_top();
            true
        } else {
            false
        }
    }

    // ------------------------------------------------------------ monitor output

    /// Replaces the monitor output and hands it to the monitor pane; the
    /// scroll position is kept.
    pub fn update_monitor_output(&mut self, output: String)
        requires
            view_wf(old(self)@),
        ensures
            final(self)@ == (AppView {
                monitor_output: output@,
                panes: after_event(old(self)@.panes, PaneId::Monitor, AppEvent::DataUpdated(output)),
                ..old(self)@
            }),
    {
        self.monitor_output = output.clone();
        let e = AppEvent::DataUpdated(output);
        let _ = self.pane_registry.send_event(&PaneId::Monitor, &e);
    }

    /// Scrolls the monitor output down one line, as long as lines remain below
    /// the visible part.
    pub fn scroll_monitor_down(&mut self)
        ensures
            final(self)@ == spec_scroll_monitor_down(old(self)@),
    {
        let lines: usize = count_lines(self.monitor_output.as_str());
        if lines > 0 {
            let max_scroll: usize = if lines >= self.monitor_visible_height {
                lines - self.monitor_visible_height
            } else {
                0
            };
            if self.monitor_scroll_offset < max_scroll {
                self.monitor_scroll_offset = self.monitor_scroll_offset + 1;
            }
        }
    }

    pub fn scroll_monitor_up(&mut self)
        ensures
            final(self)@ == spec_scroll_monitor_up(old(self)@),
    {
        if self.monitor_scroll_offset > 0 {
            self.monitor_scroll_offset = self.monitor_scroll_offset - 1;
        }
    }

    /// Sets the monitor scroll offset.
    pub fn set_monitor_scroll_offset(&mut self, offset: usize)
        ensures
            final(self)@ == (AppView { monitor_scroll_offset: offset, ..old(self)@ }),
    {
        self.monitor_scroll_offset = offset;
    }

    /// How long ago the monitor command ran, written as `45s`, `2m5s` or `1h1m`.
    pub fn format_elapsed_time(&self, elapsed: Duration) -> (r: String)
        ensures
            r@ == elapsed_text(crate::clock::whole_secs(elapsed) as nat),
    {
        let secs: u64 = crate::clock::as_secs(&elapsed);
        format_elapsed_secs(secs)
    }

    // ------------------------------------------------------------ pane visibility

    /// Shows the pane `pane_id` if hidden and hides it if shown; a pane that
    /// is not registered is reported.
    pub fn toggle_pane_visibility(&mut self, pane_id: &PaneId) -> (r: Result<(), String>)
        requires
            view_wf(old(self)@),
        ensures
            match old(self)@.panes[crate::pane::registry::spec_pane_index(*pane_id)] {
                Some(p) => r is Ok && final(self)@ == (AppView {
                    panes: with_visibility(old(self)@.panes, *pane_id, !p.visible),
                    ..old(self)@
                }),
                None => r is Err && r->Err_0@ == pane_not_found_message(*pane_id)
                    && final(self)@ == old(self)@,
            },
    {
        let is_visible = match self.pane_registry.get_pane(pane_id) {
            Some(pane) => pane.visible(),
            None => {
                let mut m = String::from_str("Pane ");
                m.append(pane_name(pane_id));
                m.append(" not found in registry");
                return Err(m);
            },
        };
        self.pane_registry.set_pane_visible(pane_id, !is_visible);
        Ok(())
    }
}

/// The name under which a pane id is printed.
pub open spec fn spec_pane_name(id: PaneId) -> Seq<char> {
    match id {
        PaneId::FileTree => "FileTree"@,
        PaneId::Monitor => "Monitor"@,
        PaneId::Diff => "Diff"@,
        PaneId::SideBySideDiff => "SideBySideDiff"@,
        PaneId::Help => "Help"@,
        PaneId::StatusBar => "StatusBar"@,
        PaneId::CommitPicker => "CommitPicker"@,
        PaneId::CommitSummary => "CommitSummary"@,
    }
}

pub open spec fn pane_not_found_message(id: PaneId) -> Seq<char> {
    "Pane "@ + spec_pane_name(id) + " not found in registry"@
}

/// The name under which a pane id is printed.
pub fn pane_name(id: &PaneId) -> (s: &'static str)
    ensures
        s@ == spec_pane_name(*id),
{
    match id {
        PaneId::FileTree => "FileTree",
        PaneId::Monitor => "Monitor",
        PaneId::Diff => "Diff",
        PaneId::SideBySideDiff => "SideBySideDiff",
        PaneId::Help => "Help",
        PaneId::StatusBar => "StatusBar",
        PaneId::CommitPicker => "CommitPicker",
        PaneId::CommitSummary => "CommitSummary",
    }
}

/// An elapsed time in seconds written as `45s`, `2m5s` or `1h1m`.
pub fn format_elapsed_secs(secs: u64) -> (r: String)
    ensures
        r@ == elapsed_text(secs as nat),
{
    let mut out = String::new();
    if secs < 60 {
        crate::text::push_decimal(&mut out, secs);
        out.append("s");
    } else if secs < 3600 {
        crate::text::push_decimal(&mut out, secs / 60);
        out.append("m");
        crate::text::push_decimal(&mut out, secs % 60);
        out.append("s");
    } else {
        crate::text::push_decimal(&mut out, secs / 3600);
        out.append("h");
        crate::text::push_decimal(&mut out, (secs % 3600) / 60);
        out.append("m");
    }
    out
}

impl App {
    /// Hands the key to the commit picker pane; reports whether it consumed it.
    pub fn forward_key_to_commit_picker(&mut self, key: KeyEvent) -> (handled: bool)
        requires
            view_wf(old(self)@),
        ensures
            (final(self)@, handled) == spec_forward_key_to(old(self)@, PaneId::CommitPicker, key),
    {
        let e = AppEvent::Key(key);
        match self.pane_registry.send_event(&PaneId::CommitPicker, &e) {
            Some(h) => h,
            None => false,
        }
    }

    /// Hands the key to the commit summary pane; reports whether it consumed it.
    pub fn forward_key_to_commit_summary(&mut self, key: KeyEvent) -> (handled: bool)
        requires
            view_wf(old(self)@),
        ensures
            (final(self)@, handled) == spec_forward_key_to(old(self)@, PaneId::CommitSummary, key),
    {
        let e = AppEvent::Key(key);
        match self.pane_registry.send_event(&PaneId::CommitSummary, &e) {
            Some(h) => h,
            None => false,
        }
    }

    /// Whether `g` was pressed within the last half second, by the clock.
    pub fn g_pressed_recently(&self) -> (r: bool)
        ensures
            r ==> self@.last_g_press is Some,
    {
        let since_last = match &self.last_g_press {
            Some(last_time) => {
                let now = crate::clock::instant_now();
                let d = crate::clock::duration_since(&now, last_time);
                Some(crate::clock::as_millis(&d))
            },
            None => None,
        };
        is_double_press(since_last)
    }

    /// The height of the diff area, in lines.
    pub fn get_current_diff_height(&self) -> (r: usize)
        ensures
            r == self@.current_diff_height,
    {
        self.current_diff_height
    }

    /// The index of the theme in use.
    pub fn get_current_theme_index(&self) -> (r: usize)
        ensures
            r == self@.current_theme_index,
    {
        self.current_theme_index
    }

    /// The theme the panes are drawn with.
    pub fn get_pane_theme(&self) -> (t: Theme)
        ensures
            t == self@.pane_theme,
    {
        self.pane_registry.theme()
    }

    /// Whether the application is ready for `key`: its invariant holds and,
    /// outside the commit picker, what the key's binding needs (a tree line
    /// when there are files, room to scroll by the diff height, room to move
    /// to the next theme).
    pub fn ready_for_keys(&self, key: &KeyEvent) -> (r: bool)
        ensures
            r == crate::pane::keys::key_ready(self@, *key),
    {
        let tree_len = self.tree_nodes.len();
        let themes_len = self.themes.len();
        let wf = self.file_indices_in_tree.len() == tree_len
            && (tree_len != 0 || self.current_tree_index == 0)
            && (tree_len == 0 || self.current_tree_index < tree_len)
            && self.current_file_index < usize::MAX
            && self.pane_registry.pane_slots() == PANE_COUNT
            && self.pane_registry.all_registered();
        if !wf {
            return false;
        }
        if self.is_in_commit_picker_mode() {
            return true;
        }
        match crate::pane::keys::main_action_of(key) {
            MainAction::NextFile | MainAction::PrevFile | MainAction::NextFileAfterG | MainAction::PrevFileAfterG => {
                self.files.len() == 0 || tree_len > 0
            },
            MainAction::ScrollDown | MainAction::PageDown => {
                self.current_file_index >= self.files.len() || self.scroll_offset <= usize::MAX
                    - self.current_diff_height
            },
            MainAction::ToggleTheme => themes_len == 0 || self.current_theme_index < usize::MAX,
            _ => true,
        }
    }
}

/// The state after handing `key` to the pane `id`, and whether it consumed it.
pub open spec fn spec_forward_key_to(v: AppView, id: PaneId, key: KeyEvent) -> (AppView, bool) {
    let e = AppEvent::Key(key);
    (
        AppView { panes: after_event(v.panes, id, e), ..v },
        match v.panes[crate::pane::registry::spec_pane_index(id)] {
            Some(p) => crate::pane::registry::pane_consumes(p, e),
            None => false,
        },
    )
}

} // verus!
