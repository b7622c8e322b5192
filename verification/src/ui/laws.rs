//! What holds of the application's transitions taken together.
use vstd::prelude::*;
use crate::git::{CommitInfo, FileDiff};
use crate::pane::registry::{pane_visible, spec_pane_index, PaneId, PaneState};
use crate::search::{find_first, lemma_find_first_is, lemma_find_first_none, lemma_find_from};
use crate::ui::app::spec_toggle_theme;
use crate::ui::model::{
    line_count, spec_scroll_monitor_down, spec_scroll_monitor_up,
    active_pane_of, has_path, help_shown, spec_detect_branch_change, spec_enter_commit_picker_mode,
    spec_exit_commit_picker_mode, spec_scroll_down, spec_scroll_up, spec_select_commit,
    spec_toggle_help, spec_toggle_monitor_pane, spec_update_files, view_wf, ActivePane, AppMode,
    backward_walk, forward_walk, line_is_file, spec_next_file, spec_page_down, spec_page_up, spec_prev_file,
    spec_scroll_to_bottom,
    AppView, FileBrowserPane, InformationPane,
};

verus! {

/// Exactly one of the two diff views is shown, and the flags that say which
/// one agree with the registry.
pub open spec fn one_diff_view(v: AppView) -> bool {
    let sbs = pane_visible(v.panes, PaneId::SideBySideDiff);
    &&& pane_visible(v.panes, PaneId::Diff) != sbs
    &&& v.side_by_side_diff == sbs
    &&& v.current_information_pane == (if sbs {
        InformationPane::SideBySideDiff
    } else {
        InformationPane::Diff
    })
}

/// Opening the help pane and closing it again brings back the diff view that
/// was shown, single or side by side; only the memory of the pane in use
/// remains.
pub proof fn law_help_round_trip(v: AppView)
    requires
        view_wf(v),
        !help_shown(v),
        one_diff_view(v),
    ensures
        spec_toggle_help(spec_toggle_help(v)) == (AppView { last_active_pane: active_pane_of(v), ..v }),
{
    let w = spec_toggle_help(spec_toggle_help(v));
    let d = spec_pane_index(PaneId::Diff);
    let s = spec_pane_index(PaneId::SideBySideDiff);
    let h = spec_pane_index(PaneId::Help);
    assert(w.panes =~= v.panes) by {
        assert forall|i: int| 0 <= i < v.panes.len() implies w.panes[i] == v.panes[i] by {
            if i == d || i == s || i == h {
                let p = v.panes[i]->Some_0;
                assert(w.panes[i] == Some(PaneState { visible: p.visible, ..p }));
            }
        }
    }
}

/// Hiding and showing the diff panel again leaves the application as it was.
pub proof fn law_diff_panel_toggle_twice(v: AppView)
    ensures
        ({
            let once = AppView { show_diff_panel: !v.show_diff_panel, ..v };
            AppView { show_diff_panel: !once.show_diff_panel, ..once }
        }) == v,
{
}

/// Hiding and showing the changed-files pane again leaves the application as
/// it was.
pub proof fn law_changed_files_toggle_twice(v: AppView)
    ensures
        ({
            let once = AppView { show_changed_files_pane: !v.show_changed_files_pane, ..v };
            AppView { show_changed_files_pane: !once.show_changed_files_pane, ..once }
        }) == v,
{
}

/// Toggling the monitor pane twice leaves the application as it was, when the
/// left side showed the monitor exactly when the monitor pane was shown.
pub proof fn law_monitor_toggle_twice(v: AppView)
    requires
        view_wf(v),
        pane_visible(v.panes, PaneId::Monitor) == v.show_monitor_pane,
        v.current_file_browser_pane == (if v.show_monitor_pane {
            FileBrowserPane::Monitor
        } else {
            FileBrowserPane::FileTree
        }),
    ensures
        spec_toggle_monitor_pane(spec_toggle_monitor_pane(v)) == v,
{
    let w = spec_toggle_monitor_pane(spec_toggle_monitor_pane(v));
    let m = spec_pane_index(PaneId::Monitor);
    assert(w.panes =~= v.panes) by {
        assert forall|i: int| 0 <= i < v.panes.len() implies w.panes[i] == v.panes[i] by {
            if i == m {
                let p = v.panes[i]->Some_0;
                assert(w.panes[i] == Some(PaneState { visible: p.visible, ..p }));
            }
        }
    }
}

/// The state after moving to the next theme `k` times.
pub open spec fn toggle_theme_times(v: AppView, k: nat) -> AppView
    decreases k,
{
    if k == 0 {
        v
    } else {
        spec_toggle_theme(toggle_theme_times(v, (k - 1) as nat))
    }
}

proof fn lemma_toggle_theme_times(v: AppView, k: nat)
    requires
        0 < v.themes.len() <= usize::MAX,
        v.current_theme_index < v.themes.len(),
    ensures
        toggle_theme_times(v, k).themes == v.themes,
        toggle_theme_times(v, k).current_theme_index == (v.current_theme_index + k) % (v.themes.len() as int),
        k > 0 ==> toggle_theme_times(v, k).pane_theme == v.themes[(v.current_theme_index + k) % (v.themes.len() as int)],
    decreases k,
{
    let n = v.themes.len() as int;
    if k == 0 {
        vstd::arithmetic::div_mod::lemma_small_mod(v.current_theme_index as nat, n as nat);
    } else {
        lemma_toggle_theme_times(v, (k - 1) as nat);
        let i = v.current_theme_index + k - 1;
        vstd::arithmetic::div_mod::lemma_add_mod_noop_right(1, i, n);
        vstd::arithmetic::div_mod::lemma_mod_bound(i, n);
    }
}

/// Moving to the next theme as many times as there are themes comes back to
/// the theme started from, which the panes are then drawn with.
pub proof fn law_theme_cycle(v: AppView)
    requires
        view_wf(v),
        0 < v.themes.len(),
        v.current_theme_index < v.themes.len(),
    ensures
        toggle_theme_times(v, v.themes.len()).current_theme_index == v.current_theme_index,
        toggle_theme_times(v, v.themes.len()).pane_theme == v.themes[v.current_theme_index as int],
{
    let n = v.themes.len() as int;
    lemma_toggle_theme_times(v, v.themes.len());
    vstd::arithmetic::div_mod::lemma_add_mod_noop(v.current_theme_index as int, n, n);
    vstd::arithmetic::div_mod::lemma_mod_self_0(n);
    vstd::arithmetic::div_mod::lemma_small_mod(v.current_theme_index as nat, n as nat);
}

/// Entering the commit picker and leaving it again brings back the normal
/// view as it was, when the diff panel is shown, the help pane is hidden and
/// the picker panes are hidden.
pub proof fn law_commit_picker_round_trip(v: AppView)
    requires
        view_wf(v),
        v.app_mode == AppMode::Normal,
        v.show_diff_panel,
        !help_shown(v),
        !pane_visible(v.panes, PaneId::CommitPicker),
        !pane_visible(v.panes, PaneId::CommitSummary),
        one_diff_view(v),
    ensures
        spec_exit_commit_picker_mode(spec_enter_commit_picker_mode(v)) == v,
{
    let w = spec_exit_commit_picker_mode(spec_enter_commit_picker_mode(v));
    assert(w.panes =~= v.panes) by {
        assert forall|i: int| 0 <= i < v.panes.len() implies w.panes[i] == v.panes[i] by {
            if v.panes[i] is Some {
                let p = v.panes[i]->Some_0;
                if i == spec_pane_index(PaneId::Diff) || i == spec_pane_index(PaneId::SideBySideDiff)
                    || i == spec_pane_index(PaneId::Help) || i == spec_pane_index(PaneId::CommitPicker)
                    || i == spec_pane_index(PaneId::CommitSummary) {
                    assert(w.panes[i] == Some(PaneState { visible: p.visible, ..p }));
                }
            }
        }
    }
}

/// Selecting a commit with a hash and a short hash records it and always ends
/// in the normal mode.
pub proof fn law_select_commit_leaves_picker(v: AppView, c: CommitInfo)
    requires
        c.sha@.len() > 0,
        c.short_sha@.len() > 0,
    ensures
        spec_select_commit(v, c).selected_commit == Some(c),
        spec_select_commit(v, c).app_mode == AppMode::Normal,
{
}

/// Reporting the same branch twice reports no change the second time and
/// changes nothing; a change of branch always clears the selected commit.
pub proof fn law_branch_detection(v: AppView, branch: Seq<char>)
    ensures
        spec_detect_branch_change(spec_detect_branch_change(v, branch).0, branch) == (
            spec_detect_branch_change(v, branch).0,
            false,
        ),
        spec_detect_branch_change(v, branch).1 ==> spec_detect_branch_change(v, branch).0.selected_commit is None,
        spec_detect_branch_change(v, branch).0.last_branch_name == Some(branch),
{
}

/// Replacing the file list keeps the file under the cursor: when its path is
/// still listed, the cursor points to the first file with that path.
pub proof fn law_update_files_keeps_selection(v: AppView, files: Seq<FileDiff>, k: int)
    requires
        v.current_file_index < v.files.len(),
        0 <= k < files.len() <= usize::MAX,
        files[k].path@ == v.files[v.current_file_index as int].path@,
    ensures
        spec_update_files(v, files).current_file_index < files.len(),
        files[spec_update_files(v, files).current_file_index as int].path@
            == v.files[v.current_file_index as int].path@,
{
    let p = v.files[v.current_file_index as int].path@;
    lemma_find_from(files, has_path(p), 0);
    assert(has_path(p)(files[k]));
    let j = find_first(files, has_path(p))->Some_0;
    assert(has_path(p)(files[j]));
}

/// Scrolling up undoes a step down.
pub proof fn law_scroll_up_undoes_scroll_down(v: AppView, max_lines: usize)
    requires
        v.scroll_offset < usize::MAX,
        spec_scroll_down(v, max_lines) != v,
    ensures
        spec_scroll_up(spec_scroll_down(v, max_lines)) == v,
{
}

/// Scrolling the monitor output down never goes past the last screenful,
/// and scrolling up undoes a step down.
pub proof fn law_monitor_scroll_bounded(v: AppView)
    requires
        v.monitor_scroll_offset < usize::MAX,
    ensures
        ({
            let lines = line_count(v.monitor_output);
            let max_scroll = if lines >= v.monitor_visible_height { lines - v.monitor_visible_height } else { 0 };
            v.monitor_scroll_offset <= max_scroll ==> spec_scroll_monitor_down(v).monitor_scroll_offset
                <= max_scroll
        }),
        spec_scroll_monitor_down(v) != v ==> spec_scroll_monitor_up(spec_scroll_monitor_down(v)) == v,
{
}

/// Moving to the next file goes to the following tree line when that line
/// stands for a file, wrapping from the last line to the first, and shows
/// the file of that line from its top.
pub proof fn law_next_file_steps_forward(v: AppView)
    requires
        view_wf(v),
        v.files.len() > 0,
        2 <= v.tree_nodes.len() <= usize::MAX,
    ensures
        ({
            let n = v.tree_nodes.len() as int;
            let t = if v.current_tree_index + 1 < n { v.current_tree_index + 1 } else { 0 };
            v.file_indices_in_tree[t] != usize::MAX ==> {
                &&& spec_next_file(v).current_tree_index == t
                &&& spec_next_file(v).current_file_index == v.file_indices_in_tree[t]
                &&& spec_next_file(v).scroll_offset == 0
            }
        }),
{
    let n = v.tree_nodes.len() as int;
    let t = if v.current_tree_index + 1 < n { v.current_tree_index + 1 } else { 0 };
    let walk = forward_walk(v.current_tree_index as int, n);
    if v.file_indices_in_tree[t] != usize::MAX {
        assert(walk[0] == t);
        assert(line_is_file(v.file_indices_in_tree)(walk[0]));
        lemma_find_first_is(walk, line_is_file(v.file_indices_in_tree), 0);
    }
}

/// Moving to the previous file goes to the preceding tree line when that
/// line stands for a file, wrapping from the first line to the last, and
/// shows the file of that line from its top.
pub proof fn law_prev_file_steps_backward(v: AppView)
    requires
        view_wf(v),
        v.files.len() > 0,
        2 <= v.tree_nodes.len() <= usize::MAX,
    ensures
        ({
            let n = v.tree_nodes.len() as int;
            let t = if v.current_tree_index > 0 { v.current_tree_index - 1 } else { n - 1 };
            v.file_indices_in_tree[t] != usize::MAX ==> {
                &&& spec_prev_file(v).current_tree_index == t
                &&& spec_prev_file(v).current_file_index == v.file_indices_in_tree[t]
                &&& spec_prev_file(v).scroll_offset == 0
            }
        }),
{
    let n = v.tree_nodes.len() as int;
    let t = if v.current_tree_index > 0 { v.current_tree_index - 1 } else { n - 1 };
    let walk = backward_walk(v.current_tree_index as int, n);
    if v.file_indices_in_tree[t] != usize::MAX {
        assert(walk[0] == t);
        assert(line_is_file(v.file_indices_in_tree)(walk[0]));
        lemma_find_first_is(walk, line_is_file(v.file_indices_in_tree), 0);
    }
}

/// From a file's own tree line, moving to the next file and back to the
/// previous one returns to the same line and file, whenever another tree
/// line stands for a file.
pub proof fn law_prev_file_undoes_next_file(v: AppView, other: int)
    requires
        view_wf(v),
        v.files.len() > 0,
        2 <= v.tree_nodes.len() <= usize::MAX,
        v.file_indices_in_tree[v.current_tree_index as int] != usize::MAX,
        v.file_indices_in_tree[v.current_tree_index as int] == v.current_file_index,
        0 <= other < v.tree_nodes.len(),
        other != v.current_tree_index,
        v.file_indices_in_tree[other] != usize::MAX,
    ensures
        spec_prev_file(spec_next_file(v)).current_tree_index == v.current_tree_index,
        spec_prev_file(spec_next_file(v)).current_file_index == v.current_file_index,
{
    let n = v.tree_nodes.len() as int;
    let c = v.current_tree_index as int;
    let fit = v.file_indices_in_tree;
    let p = line_is_file(fit);
    let w = forward_walk(c, n);
    lemma_find_from(w, p, 0);
    let j0 = if other > c { other - c - 1 } else { other - c - 1 + n };
    assert(w[j0] == other);
    if find_first(w, p) is None {
        assert(!p(w[j0]));
    }
    let k = find_first(w, p)->Some_0;
    let t = w[k];
    let v1 = spec_next_file(v);
    assert(v1.current_tree_index == t);
    assert(v1.file_indices_in_tree == fit);
    assert(v1.tree_nodes.len() == n);
    let b = backward_walk(t, n);
    assert forall|j: int| 0 <= j < k implies !p(#[trigger] b[j]) by {
        assert(b[j] == w[k - 1 - j]);
        assert(!p(w[k - 1 - j]));
    }
    assert(b[k] == c);
    assert(p(b[k]));
    lemma_find_first_is(b, p, k);
}

/// A page down moves the diff by at most one page and never past the last
/// page; within the diff it moves by exactly one page, and a page up then
/// comes back. Without a diff longer than a page it changes nothing.
pub proof fn law_page_down_moves_one_page(v: AppView, max_lines: usize)
    requires
        v.scroll_offset + max_lines <= usize::MAX,
    ensures
        ({
            let after = spec_page_down(v, max_lines);
            if v.current_file_index < v.files.len()
                && v.files[v.current_file_index as int].line_strings@.len() > max_lines {
                let total = v.files[v.current_file_index as int].line_strings@.len() as int;
                &&& after.scroll_offset <= v.scroll_offset + max_lines
                &&& after.scroll_offset <= total - max_lines
                &&& v.scroll_offset + max_lines <= total - max_lines ==> after.scroll_offset == v.scroll_offset
                    + max_lines
                &&& v.scroll_offset + max_lines <= total - max_lines ==> spec_page_up(after, max_lines).scroll_offset
                    == v.scroll_offset
                &&& after == (AppView { scroll_offset: after.scroll_offset, ..v })
            } else {
                after == v
            }
        }),
{
}

/// Scrolling down moves the diff by one line while a page more remains
/// below, and otherwise not at all; scrolling up moves back by one line and
/// stops at the top.
pub proof fn law_scroll_steps_by_one_line(v: AppView, max_lines: usize)
    requires
        v.scroll_offset < usize::MAX,
    ensures
        ({
            let down = spec_scroll_down(v, max_lines);
            &&& down == (AppView { scroll_offset: down.scroll_offset, ..v })
            &&& (v.current_file_index < v.files.len() && v.scroll_offset + max_lines
                < v.files[v.current_file_index as int].line_strings@.len()) ==> down.scroll_offset == v.scroll_offset
                + 1
            &&& !(v.current_file_index < v.files.len() && v.scroll_offset + max_lines
                < v.files[v.current_file_index as int].line_strings@.len()) ==> down == v
        }),
        spec_scroll_up(v).scroll_offset == if v.scroll_offset > 0 { v.scroll_offset - 1 } else { 0 },
{
}

/// Going to the bottom shows the last page of the current file's diff (its
/// top when the diff fits in a page); a page up moves back by a page and
/// stops at the top.
pub proof fn law_bottom_shows_last_page(v: AppView, max_lines: usize)
    requires
        v.current_file_index < v.files.len(),
        v.files[v.current_file_index as int].line_strings@.len() <= usize::MAX,
    ensures
        ({
            let total = v.files[v.current_file_index as int].line_strings@.len() as int;
            let b = spec_scroll_to_bottom(v, max_lines);
            &&& b == (AppView { scroll_offset: b.scroll_offset, ..v })
            &&& b.scroll_offset + max_lines >= total
            &&& total > max_lines ==> b.scroll_offset + max_lines == total
            &&& total <= max_lines ==> b.scroll_offset == 0
        }),
        spec_page_up(v, max_lines).scroll_offset == if v.scroll_offset >= max_lines {
            v.scroll_offset - max_lines
        } else {
            0
        },
{
}

} // verus!
