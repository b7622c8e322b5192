//! What the screen shows, decided before anything is drawn: which areas the
//! screen is split into and what goes in each, and the text and styles of the
//! lines of the changed-file tree.
use vstd::prelude::*;
use crate::git::types::{Status, WT_DELETED, WT_MODIFIED, WT_NEW};
use crate::pane::registry::{pane_visible, PaneId};
use crate::search::find_first;
use crate::text::{decimal, push_decimal};
use crate::ui::app::App;
use crate::ui::model::{has_path, help_shown, view_wf, AppMode, AppView, FileBrowserPane, TreeDisplayNode};

verus! {

/// How many rows the header may take.
#[derive(Debug, Clone, Copy, PartialEq, Eq, Structural)]
pub enum HeaderHeight {
    /// One row, on screens wider than 120 columns.
    OneRow,
    /// Up to three rows, on narrower screens.
    UpToThreeRows,
}

/// What the left side shows.
#[derive(Debug, Clone, Copy, PartialEq, Eq, Structural)]
pub enum BrowserPlan {
    /// The help pane, over the whole side.
    Help,
    /// The file tree.
    Tree,
    /// The file tree over the monitor pane, half each.
    TreeAndMonitor,
}

/// What the right side shows.
#[derive(Debug, Clone, Copy, PartialEq, Eq, Structural)]
pub enum InfoPlan {
    Help,
    SideBySideDiff,
    Diff,
}

/// What the area below the header shows.
#[derive(Debug, Clone, Copy, PartialEq, Eq, Structural)]
pub enum BodyPlan {
    /// Commit picker mode with the help pane open: help over everything.
    HelpOverlay,
    /// Commit picker mode: the commit list and the commit details side by
    /// side, with these percentages of the width.
    CommitPicker { list_percent: u16, details_percent: u16 },
    /// The file browser on 30% of the width and the information pane on 70%.
    Split { browser: BrowserPlan, info: InfoPlan },
    /// Only the file browser.
    BrowserOnly { browser: BrowserPlan },
    /// Only the information pane.
    InfoOnly { info: InfoPlan },
    /// Both hidden: an empty block titled "Nothing to show".
    Nothing,
}

/// Which of the registered panes that the plan places are drawn: a pane is
/// drawn in its area only while it is visible, and its area is otherwise
/// left empty. The file tree is not a registered pane and is always drawn.
#[derive(Debug, Clone, Copy, PartialEq, Eq, Structural)]
pub struct PanesDrawn {
    pub status_bar: bool,
    pub monitor: bool,
    pub diff: bool,
    pub side_by_side_diff: bool,
    pub help: bool,
    pub commit_picker: bool,
    pub commit_summary: bool,
}

/// The plan of the whole screen: the status bar in the header, the body,
/// and which placed panes are drawn.
#[derive(Debug, Clone, Copy, PartialEq, Eq, Structural)]
pub struct ScreenPlan {
    pub header: HeaderHeight,
    pub body: BodyPlan,
    pub drawn: PanesDrawn,
}

pub open spec fn spec_panes_drawn(v: AppView) -> PanesDrawn {
    PanesDrawn {
        status_bar: pane_visible(v.panes, PaneId::StatusBar),
        monitor: pane_visible(v.panes, PaneId::Monitor),
        diff: pane_visible(v.panes, PaneId::Diff),
        side_by_side_diff: pane_visible(v.panes, PaneId::SideBySideDiff),
        help: pane_visible(v.panes, PaneId::Help),
        commit_picker: pane_visible(v.panes, PaneId::CommitPicker),
        commit_summary: pane_visible(v.panes, PaneId::CommitSummary),
    }
}

pub open spec fn spec_browser_plan(v: AppView) -> BrowserPlan {
    if help_shown(v) && !v.show_diff_panel {
        BrowserPlan::Help
    } else {
        match v.current_file_browser_pane {
            FileBrowserPane::FileTree => if v.show_monitor_pane {
                BrowserPlan::TreeAndMonitor
            } else {
                BrowserPlan::Tree
            },
            FileBrowserPane::Monitor => BrowserPlan::TreeAndMonitor,
        }
    }
}

pub open spec fn spec_info_plan(v: AppView) -> InfoPlan {
    if pane_visible(v.panes, PaneId::Help) {
        InfoPlan::Help
    } else if v.side_by_side_diff {
        InfoPlan::SideBySideDiff
    } else {
        InfoPlan::Diff
    }
}

/// The plan of a screen `width` columns wide.
pub open spec fn spec_screen_plan(v: AppView, width: u16) -> ScreenPlan {
    ScreenPlan {
        header: if width > 120 {
            HeaderHeight::OneRow
        } else {
            HeaderHeight::UpToThreeRows
        },
        body: if v.app_mode == AppMode::CommitPicker {
            if pane_visible(v.panes, PaneId::Help) {
                BodyPlan::HelpOverlay
            } else if width > 120 {
                BodyPlan::CommitPicker { list_percent: 40, details_percent: 60 }
            } else if width > 80 {
                BodyPlan::CommitPicker { list_percent: 50, details_percent: 50 }
            } else {
                BodyPlan::CommitPicker { list_percent: 60, details_percent: 40 }
            }
        } else if v.show_changed_files_pane && v.show_diff_panel {
            BodyPlan::Split { browser: spec_browser_plan(v), info: spec_info_plan(v) }
        } else if v.show_changed_files_pane {
            BodyPlan::BrowserOnly { browser: spec_browser_plan(v) }
        } else if v.show_diff_panel {
            BodyPlan::InfoOnly { info: spec_info_plan(v) }
        } else {
            BodyPlan::Nothing
        },
        drawn: spec_panes_drawn(v),
    }
}

// ---------------------------------------------------------------- tree lines

/// How a piece of a tree line is drawn.
#[derive(Debug, Clone, Copy, PartialEq, Eq, Structural)]
pub enum SegmentRole {
    /// In the line's style.
    Plain,
    /// The cursor arrow: secondary colour, bold.
    Cursor,
    /// Added lines: the added colour, bold.
    Added,
    /// Removed lines: the removed colour, bold.
    Removed,
}

/// How a whole tree line is drawn.
#[derive(Debug, Clone, Copy, PartialEq, Eq, Structural)]
pub enum LineStyle {
    /// A directory: directory colour, bold.
    Directory,
    /// A file: foreground colour.
    Normal,
    /// A recently changed file: foreground on the highlight colour, bold.
    Highlight,
}

pub struct Segment {
    pub text: String,
    pub role: SegmentRole,
}

pub struct TreeLine {
    pub segments: Vec<Segment>,
    pub style: LineStyle,
}

pub open spec fn segments_view(s: Seq<Segment>) -> Seq<(Seq<char>, SegmentRole)> {
    s.map_values(|g: Segment| (g.text@, g.role))
}

/// Two spaces per level of depth.
pub open spec fn indent(depth: nat) -> Seq<char>
    decreases depth,
{
    if depth == 0 {
        Seq::empty()
    } else {
        indent((depth - 1) as nat) + "  "@
    }
}

/// The icon of a file by its working-tree status.
pub open spec fn status_icon(status: Option<Status>) -> Seq<char> {
    match status {
        Some(s) => if s.has(WT_NEW) {
            "📄 "@
        } else if s.has(WT_MODIFIED) {
            "📝 "@
        } else if s.has(WT_DELETED) {
            "🗑️  "@
        } else {
            "📄 "@
        },
        None => "📄 "@,
    }
}

/// The pieces of the line of a tree node at `depth`: a directory shows its
/// icon and name; a file shows the cursor arrow (or room for it), its icon,
/// its name, and its added and removed line counts when not zero.
pub open spec fn spec_tree_segments(node: TreeDisplayNode, depth: nat, selected: bool) -> Seq<
    (Seq<char>, SegmentRole),
> {
    if node.is_dir {
        seq![(indent(depth) + "📁 "@ + node.name@, SegmentRole::Plain)]
    } else {
        seq![
            if selected {
                ("-> "@, SegmentRole::Cursor)
            } else {
                ("   "@, SegmentRole::Plain)
            },
            (indent(depth) + status_icon(node.status), SegmentRole::Plain),
            (node.name@, SegmentRole::Plain),
        ] + (if node.additions > 0 {
            seq![(" (+"@ + decimal(node.additions as nat) + ")"@, SegmentRole::Added)]
        } else {
            Seq::empty()
        }) + (if node.deletions > 0 {
            seq![(" (-"@ + decimal(node.deletions as nat) + ")"@, SegmentRole::Removed)]
        } else {
            Seq::empty()
        })
    }
}

fn push_segment(v: &mut Vec<Segment>, text: String, role: SegmentRole)
    ensures
        segments_view(final(v)@) == segments_view(old(v)@).push((text@, role)),
{
    let ghost t = text@;
    v.push(Segment { text, role });
    proof {
        assert(segments_view(final(v)@) =~= segments_view(old(v)@).push((t, role)));
    }
}

fn indent_text(depth: usize) -> (s: String)
    ensures
        s@ == indent(depth as nat),
{
    let mut s = String::new();
    let mut i: usize = 0;
    while i < depth
        invariant
            i <= depth,
            s@ == indent(i as nat),
        decreases depth - i,
    {
        s.append("  ");
        i = i + 1;
    }
    s
}

fn status_icon_text(status: &Option<Status>) -> (s: &'static str)
    ensures
        s@ == status_icon(*status),
{
    match status {
        Some(st) => if st.is_wt_new() {
            "📄 "
        } else if st.is_wt_modified() {
            "📝 "
        } else if st.is_wt_deleted() {
            "🗑️  "
        } else {
            "📄 "
        },
        None => "📄 ",
    }
}

/// The pieces of the line of a tree node.
pub fn tree_segments(node: &TreeDisplayNode, depth: usize, selected: bool) -> (r: Vec<Segment>)
    ensures
        segments_view(r@) == spec_tree_segments(*node, depth as nat, selected),
{
    let mut v: Vec<Segment> = Vec::new();
    if node.is_dir {
        let mut t = indent_text(depth);
        t.append("📁 ");
        t.append(node.name.as_str());
        push_segment(&mut v, t, SegmentRole::Plain);
        proof {
            assert(segments_view(v@) =~= spec_tree_segments(*node, depth as nat, selected));
        }
        return v;
    }
    if selected {
        push_segment(&mut v, String::from_str("-> "), SegmentRole::Cursor);
    } else {
        push_segment(&mut v, String::from_str("   "), SegmentRole::Plain);
    }
    let mut t = indent_text(depth);
    t.append(status_icon_text(&node.status));
    push_segment(&mut v, t, SegmentRole::Plain);
    push_segment(&mut v, node.name.clone(), SegmentRole::Plain);
    let ghost base = segments_view(v@);
    if node.additions > 0 {
        let mut a = String::from_str(" (+");
        push_decimal(&mut a, node.additions as u64);
        a.append(")");
        push_segment(&mut v, a, SegmentRole::Added);
    }
    let ghost with_added = segments_view(v@);
    if node.deletions > 0 {
        let mut d = String::from_str(" (-");
        push_decimal(&mut d, node.deletions as u64);
        d.append(")");
        push_segment(&mut v, d, SegmentRole::Removed);
    }
    proof {
        let added = if node.additions > 0 {
            seq![(" (+"@ + decimal(node.additions as nat) + ")"@, SegmentRole::Added)]
        } else {
            Seq::empty()
        };
        let removed = if node.deletions > 0 {
            seq![(" (-"@ + decimal(node.deletions as nat) + ")"@, SegmentRole::Removed)]
        } else {
            Seq::empty()
        };
        assert(with_added =~= base + added);
        assert(segments_view(v@) =~= with_added + removed);
        assert(segments_view(v@) =~= spec_tree_segments(*node, depth as nat, selected));
    }
    v
}

/// Whether the file of a tree line may be highlighted as recently changed:
/// it is a file of the list, with a change time.
pub open spec fn may_highlight(v: AppView, node: TreeDisplayNode) -> bool {
    match find_first(v.files, has_path(node.path@)) {
        Some(k) => k < v.file_change_timestamps.len(),
        None => false,
    }
}

impl App {
    /// The plan of a screen `width` columns wide.
    pub fn screen_plan(&self, width: u16) -> (p: ScreenPlan)
        requires
            view_wf(self@),
        ensures
            p == spec_screen_plan(self@, width),
    {
        let header = if width > 120 {
            HeaderHeight::OneRow
        } else {
            HeaderHeight::UpToThreeRows
        };
        let help_visible = self.is_pane_visible(&PaneId::Help);
        let body = if self.is_in_commit_picker_mode() {
            if help_visible {
                BodyPlan::HelpOverlay
            } else if width > 120 {
                BodyPlan::CommitPicker { list_percent: 40, details_percent: 60 }
            } else if width > 80 {
                BodyPlan::CommitPicker { list_percent: 50, details_percent: 50 }
            } else {
                BodyPlan::CommitPicker { list_percent: 60, details_percent: 40 }
            }
        } else {
            let browser_visible = self.is_showing_changed_files_pane();
            let info_visible = self.is_showing_diff_panel();
            if browser_visible && info_visible {
                BodyPlan::Split { browser: self.browser_plan(), info: self.info_plan() }
            } else if browser_visible {
                BodyPlan::BrowserOnly { browser: self.browser_plan() }
            } else if info_visible {
                BodyPlan::InfoOnly { info: self.info_plan() }
            } else {
                BodyPlan::Nothing
            }
        };
        let drawn = PanesDrawn {
            status_bar: self.is_pane_visible(&PaneId::StatusBar),
            monitor: self.is_pane_visible(&PaneId::Monitor),
            diff: self.is_pane_visible(&PaneId::Diff),
            side_by_side_diff: self.is_pane_visible(&PaneId::SideBySideDiff),
            help: help_visible,
            commit_picker: self.is_pane_visible(&PaneId::CommitPicker),
            commit_summary: self.is_pane_visible(&PaneId::CommitSummary),
        };
        ScreenPlan { header, body, drawn }
    }

    fn browser_plan(&self) -> (p: BrowserPlan)
        requires
            view_wf(self@),
        ensures
            p == spec_browser_plan(self@),
    {
        if self.is_showing_help() && !self.is_showing_diff_panel() {
            BrowserPlan::Help
        } else {
            match self.get_current_file_browser_pane() {
                FileBrowserPane::FileTree => if self.is_showing_monitor_pane() {
                    BrowserPlan::TreeAndMonitor
                } else {
                    BrowserPlan::Tree
                },
                FileBrowserPane::Monitor => BrowserPlan::TreeAndMonitor,
            }
        }
    }

    fn info_plan(&self) -> (p: InfoPlan)
        requires
            view_wf(self@),
        ensures
            p == spec_info_plan(self@),
    {
        if self.is_pane_visible(&PaneId::Help) {
            InfoPlan::Help
        } else if self.is_side_by_side_diff() {
            InfoPlan::SideBySideDiff
        } else {
            InfoPlan::Diff
        }
    }

    /// The lines of the file tree: the pieces of each line as
    /// `spec_tree_segments` gives them, the cursor on the current tree line;
    /// directories in the directory style, files highlighted when recently
    /// changed (which reads the clock) and normal otherwise.
    pub fn file_tree_lines(&self) -> (r: Vec<TreeLine>)
        ensures
            r@.len() == self@.tree_nodes.len(),
            forall|i: int|
                0 <= i < r@.len() ==> segments_view(#[trigger] r@[i].segments@) == spec_tree_segments(
                    self@.tree_nodes[i].0,
                    self@.tree_nodes[i].1 as nat,
                    i == self@.current_tree_index,
                ),
            forall|i: int|
                0 <= i < r@.len() ==> (#[trigger] r@[i].style == LineStyle::Directory) == self@.tree_nodes[i].0.is_dir,
            forall|i: int|
                0 <= i < r@.len() && #[trigger] r@[i].style == LineStyle::Highlight ==> may_highlight(
                    self@,
                    self@.tree_nodes[i].0,
                ),
    {
        let nodes = self.get_tree_nodes();
        let current = self.get_current_tree_index();
        let files = self.get_files();
        let times = self.get_file_change_timestamps();
        let mut lines: Vec<TreeLine> = Vec::new();
        let mut i: usize = 0;
        while i < nodes.len()
            invariant
                i <= nodes@.len(),
                nodes@ == self@.tree_nodes,
                current == self@.current_tree_index,
                files@ == self@.files,
                times@ == self@.file_change_timestamps,
                lines@.len() == i,
                forall|j: int|
                    0 <= j < i ==> segments_view(#[trigger] lines@[j].segments@) == spec_tree_segments(
                        self@.tree_nodes[j].0,
                        self@.tree_nodes[j].1 as nat,
                        j == self@.current_tree_index,
                    ),
                forall|j: int|
                    0 <= j < i ==> (#[trigger] lines@[j].style == LineStyle::Directory)
                        == self@.tree_nodes[j].0.is_dir,
                forall|j: int|
                    0 <= j < i && #[trigger] lines@[j].style == LineStyle::Highlight ==> may_highlight(
                        self@,
                        self@.tree_nodes[j].0,
                    ),
            decreases nodes@.len() - i,
        {
            let node = &nodes[i].0;
            let depth = nodes[i].1;
            let segments = tree_segments(node, depth, i == current);
            let mut style = LineStyle::Normal;
            if node.is_dir {
                style = LineStyle::Directory;
            } else {
                let pos = crate::ui::app::position_of_path(files, &node.path);
                // Reading the length tells the prover that it fits in a usize.
                let _file_count: usize = files.len();
                proof {
                    crate::search::lemma_find_from(files@, has_path(node.path@), 0);
                }
                if let Some(k) = pos {
                    if k < times.len() && self.is_file_recently_changed(k) {
                        assert(node.path@ == self@.tree_nodes[i as int].0.path@);
                        assert(find_first(self@.files, has_path(self@.tree_nodes[i as int].0.path@)) == Some(k as int));
                        style = LineStyle::Highlight;
                    }
                }
            }
            assert(style == LineStyle::Highlight ==> may_highlight(self@, self@.tree_nodes[i as int].0));
            lines.push(TreeLine { segments, style });
            assert(lines@[i as int].style == style);
            i = i + 1;
        }
        lines
    }
}

} // verus!
