//! The mathematical model of the application state and of each of its
//! transitions. The executable application in `app.rs` is proved to follow it.
use vstd::prelude::*;
use std::time::{Duration, Instant};
use crate::git::{CommitInfo, FileDiff, Status, TreeNode};
use crate::pane::registry::{pane_visible, with_visibility, after_event, PaneId, PaneState, PANE_COUNT};
use crate::pane::events::{AppEvent, KeyEvent};
use crate::search::{find_first, find_last_below};
use crate::ui::theme::Theme;

verus! {

/// Whether the application is in its normal mode or picking a commit.
#[derive(Debug, Clone, Copy, PartialEq, Eq, Structural)]
pub enum AppMode {
    Normal,
    CommitPicker,
}

/// What the left side of the screen shows.
#[derive(Debug, Clone, Copy, PartialEq, Eq, Structural)]
pub enum FileBrowserPane {
    FileTree,
    Monitor,
}

/// What the right side of the screen shows.
#[derive(Debug, Clone, Copy, PartialEq, Eq, Structural)]
pub enum InformationPane {
    Diff,
    SideBySideDiff,
    Help,
}

/// The pane that was in use when the help pane was opened.
#[derive(Debug, Clone, Copy, PartialEq, Eq, Structural)]
pub enum ActivePane {
    FileTree,
    Monitor,
    Diff,
    SideBySideDiff,
}

impl Default for ActivePane {
    fn default() -> (p: ActivePane)
        ensures
            p == ActivePane::FileTree,
    {
        ActivePane::FileTree
    }
}

/// One line of the flattened file tree.
#[derive(Debug, Clone)]
pub struct TreeDisplayNode {
    pub name: String,
    pub path: String,
    pub is_dir: bool,
    pub status: Option<Status>,
    pub additions: usize,
    pub deletions: usize,
}

/// The abstract state of the application.
pub struct AppView {
    pub files: Seq<FileDiff>,
    pub current_file_index: usize,
    pub scroll_offset: usize,
    pub tree_nodes: Seq<(TreeDisplayNode, usize)>,
    pub current_tree_index: usize,
    pub file_indices_in_tree: Seq<usize>,
    pub last_g_press: Option<Instant>,
    pub current_diff_height: usize,
    pub side_by_side_diff: bool,
    pub show_diff_panel: bool,
    pub show_changed_files_pane: bool,
    pub file_change_timestamps: Seq<Instant>,
    pub monitor_output: Seq<char>,
    pub monitor_scroll_offset: usize,
    pub show_monitor_pane: bool,
    pub monitor_visible_height: usize,
    pub monitor_command_configured: bool,
    pub monitor_elapsed_time: Option<Duration>,
    pub monitor_has_run: bool,
    pub current_file_browser_pane: FileBrowserPane,
    pub current_information_pane: InformationPane,
    pub themes: Seq<Theme>,
    pub current_theme_index: usize,
    pub panes: Seq<Option<PaneState>>,
    pub pane_theme: Theme,
    pub last_active_pane: ActivePane,
    pub app_mode: AppMode,
    pub selected_commit: Option<CommitInfo>,
    pub last_branch_name: Option<Seq<char>>,
}

/// The invariant of the application state: one file index per tree line, the
/// tree cursor on a line (or at 0 when there is none), the file cursor below
/// the largest index, one registry slot per pane with a pane registered in
/// each, and a theme list that an index can address.
pub open spec fn view_wf(v: AppView) -> bool {
    &&& v.file_indices_in_tree.len() == v.tree_nodes.len()
    &&& (v.tree_nodes.len() == 0 ==> v.current_tree_index == 0)
    &&& (v.tree_nodes.len() > 0 ==> v.current_tree_index < v.tree_nodes.len())
    &&& v.current_file_index < usize::MAX
    &&& v.panes.len() == PANE_COUNT
    &&& forall|i: int| 0 <= i < PANE_COUNT ==> #[trigger] v.panes[i] is Some
    &&& v.themes.len() <= usize::MAX
}

// ---------------------------------------------------------------- lookups

/// Matches a file diff by path.
pub open spec fn has_path(p: Seq<char>) -> spec_fn(FileDiff) -> bool {
    |f: FileDiff| f.path@ == p
}

/// Matches a tree line that stands for a file of the list.
pub open spec fn is_file_line() -> spec_fn(usize) -> bool {
    |x: usize| x != usize::MAX
}

/// Matches a given file index.
pub open spec fn is_index(i: usize) -> spec_fn(usize) -> bool {
    |x: usize| x == i
}

/// A list of strings, as character sequences.
pub open spec fn string_views(v: Seq<String>) -> Seq<Seq<char>> {
    v.map_values(|s: String| s@)
}

/// The diff lines of a file, as character sequences.
pub open spec fn lines_of(f: FileDiff) -> Seq<Seq<char>> {
    string_views(f.line_strings@)
}

// ---------------------------------------------------------------- the tree

/// Whether a tree node gets a line: it is a file or has children.
pub open spec fn node_shown(n: TreeNode) -> bool {
    n.file_diff is Some || n.children@.len() > 0
}

/// The line shown for a tree node.
pub open spec fn display_of(n: TreeNode) -> TreeDisplayNode {
    TreeDisplayNode {
        name: n.name,
        path: n.path,
        is_dir: n.is_dir,
        status: match n.file_diff {
            Some(d) => Some(d.status),
            None => None,
        },
        additions: match n.file_diff {
            Some(d) => d.additions,
            None => 0,
        },
        deletions: match n.file_diff {
            Some(d) => d.deletions,
            None => 0,
        },
    }
}

/// The index in `files` of the file a tree node stands for, or the marker.
pub open spec fn file_index_of(n: TreeNode, files: Seq<FileDiff>) -> usize {
    if n.file_diff is Some {
        match find_first(files, has_path(n.path@)) {
            Some(i) => i as usize,
            None => usize::MAX,
        }
    } else {
        usize::MAX
    }
}

/// The lines of a subtree, in pre-order, with their depth.
pub open spec fn flatten_node(n: TreeNode, depth: int) -> Seq<(TreeDisplayNode, usize)>
    decreases n, 1int,
{
    (if node_shown(n) {
        seq![(display_of(n), depth as usize)]
    } else {
        Seq::empty()
    }) + flatten_nodes(n.children@, depth + 1)
}

/// The lines of a list of subtrees.
pub open spec fn flatten_nodes(cs: Seq<TreeNode>, depth: int) -> Seq<(TreeDisplayNode, usize)>
    decreases cs, 0int,
{
    if cs.len() == 0 {
        Seq::empty()
    } else {
        flatten_nodes(cs.drop_last(), depth) + flatten_node(cs.last(), depth)
    }
}

/// The file indices of the lines of a subtree.
pub open spec fn flatten_indices(n: TreeNode, files: Seq<FileDiff>) -> Seq<usize>
    decreases n, 1int,
{
    (if node_shown(n) {
        seq![file_index_of(n, files)]
    } else {
        Seq::empty()
    }) + flatten_indices_list(n.children@, files)
}

/// The file indices of the lines of a list of subtrees.
pub open spec fn flatten_indices_list(cs: Seq<TreeNode>, files: Seq<FileDiff>) -> Seq<usize>
    decreases cs, 0int,
{
    if cs.len() == 0 {
        Seq::empty()
    } else {
        flatten_indices_list(cs.drop_last(), files) + flatten_indices(cs.last(), files)
    }
}

/// The depths reached below a node at `depth` fit in a `usize`.
pub open spec fn depth_fits(n: TreeNode, depth: int) -> bool
    decreases n, 1int,
{
    n.children@.len() > 0 ==> depth + 1 <= usize::MAX && depths_fit(n.children@, depth + 1)
}

/// The depths reached below a list of nodes at `depth` fit in a `usize`.
pub open spec fn depths_fit(cs: Seq<TreeNode>, depth: int) -> bool
    decreases cs, 0int,
{
    cs.len() > 0 ==> depths_fit(cs.drop_last(), depth) && depth_fits(cs.last(), depth)
}

/// Puts the tree cursor on the line of the current file; when no line stands
/// for it, moves both cursors to the first line that stands for a file.
pub open spec fn synced(v: AppView) -> AppView {
    match find_first(v.file_indices_in_tree, is_index(v.current_file_index)) {
        Some(t) => AppView { current_tree_index: t as usize, ..v },
        None => if v.file_indices_in_tree.len() > 0 {
            match find_first(v.file_indices_in_tree, is_file_line()) {
                Some(t) => AppView {
                    current_file_index: v.file_indices_in_tree[t],
                    current_tree_index: t as usize,
                    ..v
                },
                None => v,
            }
        } else {
            v
        },
    }
}

/// The state after showing `tree`.
pub open spec fn spec_update_tree(v: AppView, tree: TreeNode) -> AppView {
    synced(
        AppView {
            tree_nodes: flatten_nodes(tree.children@, 1),
            file_indices_in_tree: flatten_indices_list(tree.children@, v.files),
            current_tree_index: 0,
            ..v
        },
    )
}

// ---------------------------------------------------------------- files

/// The file cursor and scroll offset after the file list is replaced: the
/// cursor follows the current file's path when it is still listed;
/// otherwise it goes back to the top when it no longer points into the list.
pub open spec fn spec_update_files(v: AppView, files: Seq<FileDiff>) -> AppView {
    let cfi = v.current_file_index;
    let moved = if cfi >= files.len() {
        AppView { files, current_file_index: 0, scroll_offset: 0, ..v }
    } else {
        AppView { files, ..v }
    };
    if cfi < v.files.len() {
        match find_first(files, has_path(v.files[cfi as int].path@)) {
            Some(k) => AppView { files, current_file_index: k as usize, ..v },
            None => moved,
        }
    } else {
        moved
    }
}

/// Where an old change time of a file with path `p` is kept: the last old
/// file with that path among those that had a time.
pub open spec fn kept_time_index(old_files: Seq<FileDiff>, old_times: Seq<Instant>, p: Seq<char>) -> Option<int> {
    let bound = if old_files.len() < old_times.len() { old_files.len() as int } else { old_times.len() as int };
    find_last_below(old_files, has_path(p), bound)
}

/// Whether the change time of `new_file` is carried over from before: some
/// old file with its path had a time, and the first old file with its path
/// had the same diff lines.
pub open spec fn keeps_time(old_files: Seq<FileDiff>, old_times: Seq<Instant>, new_file: FileDiff) -> bool {
    kept_time_index(old_files, old_times, new_file.path@) is Some
        && lines_of(old_files[find_first(old_files, has_path(new_file.path@))->0]) == lines_of(new_file)
}

// ---------------------------------------------------------------- scrolling

pub open spec fn current_line_count(v: AppView) -> int {
    v.files[v.current_file_index as int].line_strings@.len() as int
}

pub open spec fn spec_scroll_down(v: AppView, max_lines: usize) -> AppView {
    if v.current_file_index < v.files.len() && v.scroll_offset + max_lines < current_line_count(v) {
        AppView { scroll_offset: (v.scroll_offset + 1) as usize, ..v }
    } else {
        v
    }
}

pub open spec fn spec_page_down(v: AppView, max_lines: usize) -> AppView {
    if v.current_file_index < v.files.len() && current_line_count(v) > max_lines {
        let total = current_line_count(v);
        let target = v.scroll_offset + max_lines;
        AppView {
            scroll_offset: (if target < total - max_lines { target } else { total - max_lines }) as usize,
            ..v
        }
    } else {
        v
    }
}

pub open spec fn spec_page_up(v: AppView, max_lines: usize) -> AppView {
    AppView {
        scroll_offset: (if v.scroll_offset >= max_lines { v.scroll_offset - max_lines } else { 0 }) as usize,
        ..v
    }
}

pub open spec fn spec_scroll_up(v: AppView) -> AppView {
    if v.scroll_offset > 0 {
        AppView { scroll_offset: (v.scroll_offset - 1) as usize, ..v }
    } else {
        v
    }
}

pub open spec fn spec_scroll_to_bottom(v: AppView, max_lines: usize) -> AppView {
    if v.current_file_index < v.files.len() {
        let total = current_line_count(v);
        AppView { scroll_offset: (if total > max_lines { total - max_lines } else { 0 }) as usize, ..v }
    } else {
        v
    }
}

pub open spec fn spec_scroll_to_top(v: AppView) -> AppView {
    AppView { scroll_offset: 0, ..v }
}

/// Scrolling a file's diff cannot overflow.
pub open spec fn scroll_fits(v: AppView, max_lines: usize) -> bool {
    v.current_file_index < v.files.len() ==> v.scroll_offset + max_lines <= usize::MAX
}

// ---------------------------------------------------------------- panes

pub open spec fn help_shown(v: AppView) -> bool {
    pane_visible(v.panes, PaneId::Help)
}

pub open spec fn spec_set_single_pane_diff(v: AppView) -> AppView {
    if help_shown(v) {
        AppView { side_by_side_diff: false, ..v }
    } else {
        AppView {
            side_by_side_diff: false,
            panes: with_visibility(with_visibility(v.panes, PaneId::Diff, true), PaneId::SideBySideDiff, false),
            current_information_pane: InformationPane::Diff,
            ..v
        }
    }
}

pub open spec fn spec_set_side_by_side_diff(v: AppView) -> AppView {
    if help_shown(v) {
        AppView { side_by_side_diff: true, ..v }
    } else {
        AppView {
            side_by_side_diff: true,
            panes: with_visibility(with_visibility(v.panes, PaneId::SideBySideDiff, true), PaneId::Diff, false),
            current_information_pane: InformationPane::SideBySideDiff,
            ..v
        }
    }
}

/// The pane in use, as seen when the help pane opens.
pub open spec fn active_pane_of(v: AppView) -> ActivePane {
    if pane_visible(v.panes, PaneId::SideBySideDiff) {
        ActivePane::SideBySideDiff
    } else if pane_visible(v.panes, PaneId::Diff) {
        ActivePane::Diff
    } else if v.show_monitor_pane {
        ActivePane::Monitor
    } else {
        ActivePane::FileTree
    }
}

/// Opening the help pane hides the diff views and remembers the pane in use;
/// closing it brings back the side-by-side view if that was in use, and the
/// single diff view otherwise.
pub open spec fn spec_toggle_help(v: AppView) -> AppView {
    if help_shown(v) {
        let hidden = AppView { panes: with_visibility(v.panes, PaneId::Help, false), ..v };
        match v.last_active_pane {
            ActivePane::SideBySideDiff => AppView {
                current_information_pane: InformationPane::SideBySideDiff,
                ..spec_set_side_by_side_diff(hidden)
            },
            _ => AppView {
                current_information_pane: InformationPane::Diff,
                ..spec_set_single_pane_diff(hidden)
            },
        }
    } else {
        AppView {
            last_active_pane: active_pane_of(v),
            panes: with_visibility(
                with_visibility(with_visibility(v.panes, PaneId::Help, true), PaneId::Diff, false),
                PaneId::SideBySideDiff,
                false,
            ),
            current_information_pane: InformationPane::Help,
            ..v
        }
    }
}

pub open spec fn spec_toggle_monitor_pane(v: AppView) -> AppView {
    let shown = !v.show_monitor_pane;
    AppView {
        show_monitor_pane: shown,
        panes: with_visibility(v.panes, PaneId::Monitor, shown),
        current_file_browser_pane: if shown { FileBrowserPane::Monitor } else { FileBrowserPane::FileTree },
        ..v
    }
}

// ---------------------------------------------------------------- monitor

/// The number of line breaks in a text.
pub open spec fn newline_count(s: Seq<char>) -> nat
    decreases s.len(),
{
    if s.len() == 0 {
        0
    } else {
        newline_count(s.drop_last()) + (if s.last() == '\n' { 1nat } else { 0nat })
    }
}

/// The number of lines of a text as `str::lines` counts them: the line
/// breaks, plus one for a last line without a break.
pub open spec fn line_count(s: Seq<char>) -> nat {
    newline_count(s) + (if s.len() > 0 && s.last() != '\n' { 1nat } else { 0nat })
}

pub open spec fn spec_scroll_monitor_down(v: AppView) -> AppView {
    let lines = line_count(v.monitor_output);
    let max_scroll = if lines >= v.monitor_visible_height { lines - v.monitor_visible_height } else { 0 };
    if lines > 0 && v.monitor_scroll_offset < max_scroll {
        AppView { monitor_scroll_offset: (v.monitor_scroll_offset + 1) as usize, ..v }
    } else {
        v
    }
}

pub open spec fn spec_scroll_monitor_up(v: AppView) -> AppView {
    if v.monitor_scroll_offset > 0 {
        AppView { monitor_scroll_offset: (v.monitor_scroll_offset - 1) as usize, ..v }
    } else {
        v
    }
}

// ---------------------------------------------------------------- navigation

/// The tree lines met when walking forward from `start` around the tree.
pub open spec fn forward_walk(start: int, n: int) -> Seq<int> {
    Seq::new((n - 1) as nat, |j: int| if start + j + 1 < n { start + j + 1 } else { start + j + 1 - n })
}

/// The tree lines met when walking backward from `start` around the tree.
pub open spec fn backward_walk(start: int, n: int) -> Seq<int> {
    Seq::new((n - 1) as nat, |j: int| if start >= j + 1 { start - j - 1 } else { start + n - j - 1 })
}

/// Matches a tree line that stands for a file.
pub open spec fn line_is_file(fit: Seq<usize>) -> spec_fn(int) -> bool {
    |t: int| 0 <= t < fit.len() && fit[t] != usize::MAX
}

/// Moving to another file: the first tree line met on the walk that stands
/// for a file; when there is none, the next file of the list in `fallback`
/// order with the tree cursor synced. The diff is scrolled to the top.
pub open spec fn spec_move_file(v: AppView, walk: Seq<int>, fallback: usize) -> AppView {
    if v.files.len() == 0 {
        v
    } else {
        match find_first(walk, line_is_file(v.file_indices_in_tree)) {
            Some(k) => AppView {
                current_file_index: v.file_indices_in_tree[walk[k]],
                current_tree_index: walk[k] as usize,
                scroll_offset: 0,
                ..v
            },
            None => AppView { scroll_offset: 0, ..synced(AppView { current_file_index: fallback, ..v }) },
        }
    }
}

pub open spec fn spec_next_file(v: AppView) -> AppView {
    spec_move_file(
        v,
        forward_walk(v.current_tree_index as int, v.tree_nodes.len() as int),
        ((v.current_file_index + 1) % (v.files.len() as int)) as usize,
    )
}

pub open spec fn spec_prev_file(v: AppView) -> AppView {
    spec_move_file(
        v,
        backward_walk(v.current_tree_index as int, v.tree_nodes.len() as int),
        (if v.current_file_index == 0 { v.files.len() - 1 } else { v.current_file_index - 1 }) as usize,
    )
}

/// Moving between files needs a tree line when there are files.
pub open spec fn nav_ready(v: AppView) -> bool {
    v.files.len() > 0 ==> v.tree_nodes.len() > 0
}

// ---------------------------------------------------------------- commits

pub open spec fn spec_enter_commit_picker_mode(v: AppView) -> AppView {
    if v.app_mode == AppMode::CommitPicker || !v.show_diff_panel {
        v
    } else {
        AppView {
            app_mode: AppMode::CommitPicker,
            panes: with_visibility(
                with_visibility(
                    with_visibility(
                        with_visibility(
                            with_visibility(v.panes, PaneId::CommitPicker, true),
                            PaneId::CommitSummary,
                            true,
                        ),
                        PaneId::Diff,
                        false,
                    ),
                    PaneId::SideBySideDiff,
                    false,
                ),
                PaneId::Help,
                false,
            ),
            ..v
        }
    }
}

pub open spec fn spec_exit_commit_picker_mode(v: AppView) -> AppView {
    if v.app_mode != AppMode::CommitPicker {
        v
    } else {
        let w = AppView {
            app_mode: AppMode::Normal,
            panes: with_visibility(
                with_visibility(v.panes, PaneId::CommitPicker, false),
                PaneId::CommitSummary,
                false,
            ),
            ..v
        };
        if v.show_diff_panel {
            match v.current_information_pane {
                InformationPane::SideBySideDiff => spec_set_side_by_side_diff(w),
                _ => spec_set_single_pane_diff(w),
            }
        } else {
            w
        }
    }
}

pub open spec fn spec_select_commit(v: AppView, c: CommitInfo) -> AppView {
    if c.sha@.len() == 0 || c.short_sha@.len() == 0 {
        v
    } else {
        spec_exit_commit_picker_mode(AppView { selected_commit: Some(c), ..v })
    }
}

/// The branch is recorded; a change from a recorded branch clears the
/// selected commit and is reported.
pub open spec fn spec_detect_branch_change(v: AppView, branch: Seq<char>) -> (AppView, bool) {
    match v.last_branch_name {
        None => (AppView { last_branch_name: Some(branch), ..v }, false),
        Some(last) => if last != branch {
            (AppView { last_branch_name: Some(branch), selected_commit: None, ..v }, true)
        } else {
            (v, false)
        },
    }
}

// ---------------------------------------------------------------- keys to panes

/// Keys go to the commit picker pane in commit picker mode, then to the
/// commit summary pane if the picker did not consume them.
pub open spec fn spec_forward_key_to_panes(v: AppView, key: KeyEvent) -> (AppView, bool) {
    if v.app_mode == AppMode::CommitPicker {
        let e = AppEvent::Key(key);
        let p1 = after_event(v.panes, PaneId::CommitPicker, e);
        let h1 = match v.panes[crate::pane::registry::spec_pane_index(PaneId::CommitPicker)] {
            Some(p) => crate::pane::registry::pane_consumes(p, e),
            None => false,
        };
        if h1 {
            (AppView { panes: p1, ..v }, true)
        } else {
            let p2 = after_event(p1, PaneId::CommitSummary, e);
            let h2 = match p1[crate::pane::registry::spec_pane_index(PaneId::CommitSummary)] {
                Some(p) => crate::pane::registry::pane_consumes(p, e),
                None => false,
            };
            (AppView { panes: p2, ..v }, h2)
        }
    } else {
        (v, false)
    }
}

// ---------------------------------------------------------------- time texts

/// How an elapsed time in seconds is written: seconds under a minute,
/// minutes and seconds under an hour, hours and minutes beyond.
pub open spec fn elapsed_text(secs: nat) -> Seq<char> {
    if secs < 60 {
        crate::text::decimal(secs) + "s"@
    } else if secs < 3600 {
        crate::text::decimal(secs / 60) + "m"@ + crate::text::decimal(secs % 60) + "s"@
    } else {
        crate::text::decimal(secs / 3600) + "h"@ + crate::text::decimal((secs % 3600) / 60) + "m"@
    }
}

} // verus!
