//! The commit list of the commit picker: the commits loaded for it, or the
//! error that stopped the loading, and the cursor that the keys move.
use vstd::prelude::*;
use crate::git::CommitInfo;
use crate::pane::events::KeyCode;

verus! {

/// The commit list shown in the commit picker.
pub struct PickerList {
    pub commits: Vec<CommitInfo>,
    pub cursor: usize,
    pub error: Option<String>,
}

/// What a key did to the commit list.
#[derive(Debug, Clone, Copy, PartialEq, Eq, Structural)]
pub enum PickerOutcome {
    /// The key is not one of the list's.
    NotHandled,
    /// The key was taken; the cursor may have moved.
    Handled,
    /// Enter chose the commit at this index.
    Chosen(usize),
}

/// The cursor after a key, and what the key did: Down or `j` moves to the
/// next commit if there is one, Up or `k` to the previous one (staying at the
/// first), Enter chooses the commit under the cursor when it has an id and a
/// short id; other keys are not the list's.
pub open spec fn spec_picker_key(commits: Seq<CommitInfo>, cursor: usize, code: KeyCode) -> (usize, PickerOutcome) {
    match code {
        KeyCode::Down | KeyCode::Char('j') => (
            if cursor + 1 < commits.len() { (cursor + 1) as usize } else { cursor },
            PickerOutcome::Handled,
        ),
        KeyCode::Up | KeyCode::Char('k') => (
            if cursor > 0 { (cursor - 1) as usize } else { 0 },
            PickerOutcome::Handled,
        ),
        KeyCode::Enter => (
            cursor,
            if cursor < commits.len() && commits[cursor as int].sha@.len() > 0
                && commits[cursor as int].short_sha@.len() > 0 {
                PickerOutcome::Chosen(cursor)
            } else {
                PickerOutcome::Handled
            },
        ),
        _ => (cursor, PickerOutcome::NotHandled),
    }
}

impl PickerList {
    /// An empty list, before anything was loaded.
    pub fn empty() -> (p: PickerList)
        ensures
            p.commits@.len() == 0,
            p.cursor == 0,
            p.error is None,
    {
        PickerList { commits: Vec::new(), cursor: 0, error: None }
    }

    /// The list after loading: the commits with the cursor on the first, or
    /// the error that stopped the loading and no commits.
    pub fn loaded(result: Result<Vec<CommitInfo>, String>) -> (p: PickerList)
        ensures
            p.cursor == 0,
            match result {
                Ok(v) => p.commits@ == v@ && p.error is None,
                Err(e) => p.commits@.len() == 0 && p.error == Some(e),
            },
    {
        match result {
            Ok(commits) => PickerList { commits, cursor: 0, error: None },
            Err(e) => PickerList { commits: Vec::new(), cursor: 0, error: Some(e) },
        }
    }

    /// Applies a key to the list, as `spec_picker_key` says; the commits and
    /// the error stay.
    pub fn handle_key(&mut self, code: KeyCode) -> (r: PickerOutcome)
        ensures
            (final(self).cursor, r) == spec_picker_key(old(self).commits@, old(self).cursor, code),
            final(self).commits@ == old(self).commits@,
            final(self).error == old(self).error,
    {
        let len = self.commits.len();
        match code {
            KeyCode::Down | KeyCode::Char('j') => {
                if self.cursor < len && self.cursor + 1 < len {
                    self.cursor = self.cursor + 1;
                }
                PickerOutcome::Handled
            },
            KeyCode::Up | KeyCode::Char('k') => {
                if self.cursor > 0 {
                    self.cursor = self.cursor - 1;
                }
                PickerOutcome::Handled
            },
            KeyCode::Enter => {
                if self.cursor < self.commits.len() {
                    let c = &self.commits[self.cursor];
                    if c.sha.unicode_len() > 0 && c.short_sha.unicode_len() > 0 {
                        return PickerOutcome::Chosen(self.cursor);
                    }
                }
                PickerOutcome::Handled
            },
            _ => PickerOutcome::NotHandled,
        }
    }
}

} // verus!
