//! What the main loop decides: which keys it handles before the panes see
//! them, how the commit history for the picker is loaded and how its errors
//! are worded, and when a repository snapshot replaces the files on display.
use vstd::prelude::*;
use crate::git::types::{CommitInfo, GitRepo, ViewMode};
use crate::git::worker::GitWorker;
use crate::pane::events::{KeyCode, KeyEvent, CONTROL};
use crate::pane::keys::{key_ready, main_mode_outcome, picker_mode_outcome, GlobalKeyHandler, KeyResult};
use crate::shared_state::SharedStateManager;
use crate::text::contains_seq;
use crate::ui::app::App;
use crate::ui::model::{
    spec_detect_branch_change, spec_enter_commit_picker_mode, spec_toggle_monitor_pane, view_wf,
    AppMode, AppView,
};

verus! {

/// What the main loop does after a key.
#[derive(Debug, Clone, Copy, PartialEq, Eq, Structural)]
pub enum LoopAction {
    /// Go on.
    Continue,
    /// The commit picker was opened: load the commit history into it.
    LoadCommitHistory,
    /// The commit picker could not be opened, for want of a repository
    /// snapshot: its list records `no_repository_message`.
    NoRepository,
    /// Quit.
    Quit,
}

/// The keys the main loop handles itself: Ctrl+P opens the commit picker
/// when the diff panel is shown, the picker is not open and there is a
/// repository snapshot to load the history from, Ctrl+O toggles
/// the monitor pane, Ctrl+W goes back to the working directory; every other
/// key goes to the global key handler.
pub open spec fn is_ctrl(key: KeyEvent, c: char) -> bool {
    key.code == KeyCode::Char(c) && key.modifiers.spec_contains(CONTROL)
}

/// What the global key handler does with a key.
pub open spec fn global_outcome(old: AppView, new: AppView, key: KeyEvent, r: KeyResult) -> bool {
    if old.app_mode == AppMode::CommitPicker {
        picker_mode_outcome(old, new, key, r)
    } else {
        main_mode_outcome(old, new, key, r)
    }
}

impl App {
    /// Handles a key at the top of the main loop; `has_repository` tells
    /// whether the shared state holds a repository snapshot, without which
    /// the commit picker is not opened.
    pub fn handle_key_event(&mut self, key: KeyEvent, has_repository: bool) -> (action: LoopAction)
        requires
            key_ready(old(self)@, key),
        ensures
            is_ctrl(key, 'p') ==> {
                let wanted = old(self)@.show_diff_panel && old(self)@.app_mode != AppMode::CommitPicker;
                let opens = wanted && has_repository;
                &&& final(self)@ == (if opens { spec_enter_commit_picker_mode(old(self)@) } else { old(self)@ })
                &&& action == (if opens {
                    LoopAction::LoadCommitHistory
                } else if wanted {
                    LoopAction::NoRepository
                } else {
                    LoopAction::Continue
                })
            },
            !is_ctrl(key, 'p') && is_ctrl(key, 'o') ==> final(self)@ == spec_toggle_monitor_pane(old(self)@)
                && action == LoopAction::Continue,
            !is_ctrl(key, 'p') && !is_ctrl(key, 'o') && is_ctrl(key, 'w') ==> final(self)@ == (AppView {
                selected_commit: None,
                ..old(self)@
            }) && action == LoopAction::Continue,
            !is_ctrl(key, 'p') && !is_ctrl(key, 'o') && !is_ctrl(key, 'w') ==> if action == LoopAction::Quit {
                global_outcome(old(self)@, final(self)@, key, KeyResult::Quit)
            } else {
                action == LoopAction::Continue && (global_outcome(old(self)@, final(self)@, key, KeyResult::Handled)
                    || global_outcome(old(self)@, final(self)@, key, KeyResult::NotHandled))
            },
    {
        let ctrl = key.modifiers.contains(CONTROL);
        match key.code {
            KeyCode::Char('p') if ctrl => {
                if self.is_showing_diff_panel() && !self.is_in_commit_picker_mode() {
                    if has_repository {
                        self.enter_commit_picker_mode();
                        LoopAction::LoadCommitHistory
                    } else {
                        LoopAction::NoRepository
                    }
                } else {
                    LoopAction::Continue
                }
            },
            KeyCode::Char('o') if ctrl => {
                self.toggle_monitor_pane();
                LoopAction::Continue
            },
            KeyCode::Char('w') if ctrl => {
                self.clear_selected_commit();
                LoopAction::Continue
            },
            _ => match GlobalKeyHandler::handle_global_key(self, &key) {
                KeyResult::Quit => LoopAction::Quit,
                KeyResult::Handled => LoopAction::Continue,
                KeyResult::NotHandled => LoopAction::Continue,
            },
        }
    }
}

/// How a failure to load the commit history is told to the user.
pub open spec fn spec_history_error_message(e: Seq<char>) -> Seq<char> {
    if contains_seq(e, "not a git repository"@) {
        "This directory is not a Git repository"@
    } else if contains_seq(e, "no commits"@) || contains_seq(e, "HEAD"@) {
        "No commits found in this repository"@
    } else if contains_seq(e, "permission"@) {
        "Permission denied accessing Git repository"@
    } else {
        "Git error: "@ + e
    }
}

pub fn history_error_message(e: &str) -> (m: String)
    ensures
        m@ == spec_history_error_message(e@),
{
    if crate::text::contains_str(e, "not a git repository") {
        String::from_str("This directory is not a Git repository")
    } else if crate::text::contains_str(e, "no commits") || crate::text::contains_str(e, "HEAD") {
        String::from_str("No commits found in this repository")
    } else if crate::text::contains_str(e, "permission") {
        String::from_str("Permission denied accessing Git repository")
    } else {
        let mut m = String::from_str("Git error: ");
        m.append(e);
        m
    }
}

/// The message when there is no snapshot to take the repository from.
pub open spec fn no_repository_message() -> Seq<char> {
    "No Git repository available"@
}

/// The error the commit picker records when there is no repository.
pub fn no_repository_error() -> (m: String)
    ensures
        m@ == no_repository_message(),
{
    String::from_str("No Git repository available")
}

/// How a failure to open the repository of the snapshot is told.
pub open spec fn open_error_message(e: Seq<char>) -> Seq<char> {
    "Failed to access Git repository: "@ + e
}

/// No other failure is worded as a missing repository.
proof fn lemma_only_missing_repository_says_so(e: Seq<char>)
    ensures
        open_error_message(e) != no_repository_message(),
        spec_history_error_message(e) != no_repository_message(),
{
    reveal_strlit("No Git repository available");
    reveal_strlit("Failed to access Git repository: ");
    reveal_strlit("This directory is not a Git repository");
    reveal_strlit("No commits found in this repository");
    reveal_strlit("Permission denied accessing Git repository");
    reveal_strlit("Git error: ");
    assert(open_error_message(e)[0] != no_repository_message()[0]);
    if contains_seq(e, "not a git repository"@) {
        assert(spec_history_error_message(e)[0] != no_repository_message()[0]);
    } else if contains_seq(e, "no commits"@) || contains_seq(e, "HEAD"@) {
        assert(spec_history_error_message(e)[3] != no_repository_message()[3]);
    } else if contains_seq(e, "permission"@) {
        assert(spec_history_error_message(e)[0] != no_repository_message()[0]);
    } else {
        assert(spec_history_error_message(e)[0] != no_repository_message()[0]);
    }
}

/// Loads up to `limit` commits for the commit picker from the repository of
/// the current snapshot. Without a snapshot, and only then, the error says
/// that there is no repository; a repository that cannot be opened is told
/// with `open_error_message`, a failing history with
/// `spec_history_error_message`. The commits are those the walk over the
/// repository's history gives, as `history_of` says.
pub fn load_commit_history(shared: &mut SharedStateManager, limit: usize) -> (r: Result<Vec<CommitInfo>, String>)
    ensures
        (r matches Err(m) && m@ == no_repository_message()) <==> !old(shared).git_state()@.repos.contains_key(
            crate::shared_state::current_key(),
        ),
        r matches Err(m) ==> m@ == no_repository_message() || (exists|e: Seq<char>|
            m@ == #[trigger] open_error_message(e)) || (exists|e: Seq<char>|
            m@ == #[trigger] spec_history_error_message(e)),
        r matches Ok(v) ==> v@.len() <= limit && exists|steps: Seq<crate::git::worker::WalkStep>|
            crate::git::worker::commits_facts(v@) == #[trigger] crate::git::worker::history_of(
                limit as nat,
                steps,
            ).commits,
{
    let repo = match shared.git_state().get_repo() {
        Some(g) => g,
        None => return Err(no_repository_error()),
    };
    match GitWorker::new(repo.path.as_str()) {
        Err(e) => {
            let mut m = String::from_str("Failed to access Git repository: ");
            m.append(e.as_str());
            proof {
                lemma_only_missing_repository_says_so(e@);
                assert(m@ == open_error_message(e@));
            }
            Err(m)
        },
        Ok(worker) => match worker.get_commit_history(shared.git_state_mut(), limit) {
            Ok(commits) => Ok(commits),
            Err(e) => {
                let m = history_error_message(e.as_str());
                proof {
                    lemma_only_missing_repository_says_so(e@);
                }
                Err(m)
            },
        },
    }
}

/// The files a snapshot shows in its view mode.
pub open spec fn snapshot_display_files(repo: GitRepo) -> Seq<crate::git::types::FileDiff> {
    match repo.current_view_mode {
        ViewMode::WorkingTree => repo.changed_files@,
        ViewMode::Staged => repo.staged_files@,
        ViewMode::DirtyDirectory => repo.dirty_directory_files@,
        ViewMode::LastCommit => repo.last_commit_files@,
    }
}

/// A copy of the files a snapshot shows in its view mode.
pub fn snapshot_files(repo: &GitRepo) -> (r: Vec<crate::git::types::FileDiff>)
    ensures
        crate::git::types::same_file_diffs(r@, snapshot_display_files(*repo)),
{
    match repo.current_view_mode {
        ViewMode::WorkingTree => crate::git::types::copy_file_diffs(&repo.changed_files),
        ViewMode::Staged => crate::git::types::copy_file_diffs(&repo.staged_files),
        ViewMode::DirtyDirectory => crate::git::types::copy_file_diffs(&repo.dirty_directory_files),
        ViewMode::LastCommit => crate::git::types::copy_file_diffs(&repo.last_commit_files),
    }
}

/// Whether the files of a snapshot in `mode` are put on display: not while a
/// commit is selected, and in the last-commit mode only when the last commit
/// has files.
pub open spec fn spec_shows_snapshot_files(mode: ViewMode, has_selected_commit: bool, last_commit_files_empty: bool) -> bool {
    !has_selected_commit && (mode != ViewMode::LastCommit || !last_commit_files_empty)
}

impl App {
    /// Takes in a new snapshot: the branch is checked (a change clears the
    /// selected commit), then reports whether the snapshot's files are to be
    /// put on display.
    pub fn take_snapshot(&mut self, repo: &GitRepo) -> (shows: bool)
        ensures
            final(self)@ == spec_detect_branch_change(old(self)@, repo.branch_name@).0,
            shows == spec_shows_snapshot_files(
                repo.current_view_mode,
                final(self)@.selected_commit is Some,
                repo.last_commit_files@.len() == 0,
            ),
    {
        self.detect_branch_change(repo.branch_name.as_str());
        let has_selected = self.get_selected_commit().is_some();
        match repo.current_view_mode {
            ViewMode::LastCommit => !has_selected && repo.last_commit_files.len() > 0,
            _ => !has_selected,
        }
    }
}

} // verus!
