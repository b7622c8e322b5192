//! The git worker: it watches one repository, tracks its HEAD, sorts what
//! `git status` reports into the lists the user interface shows, decides the
//! view mode, loads the commit history with the changes of each commit, and
//! publishes snapshots and errors to the shared state.
use vstd::prelude::*;
use super::repo::{
    commit_id, commit_parent, commit_parent_count, commit_summary, commit_tree, diff_delta_count,
    diff_get_delta, delta_kind, is_commit_id, is_hex_digit, delta_new_path, delta_old_path, diff_trees, error_text, file_name_of, find_commit, join_path, joined_path,
    oid_text, open_repository, parse_oid, patch_from_diff, patch_line_stats, path_file_name,
    peel_to_commit, reference_shorthand, repo_head, repo_revwalk, revwalk_next, revwalk_push_head,
    revwalk_sort_by_time, zero_oid, DeltaKind,
};
use super::types::{
    copy_file_diffs, copy_opt_text, same_commit, same_file_diffs, CommitFileChange, CommitInfo,
    FileChangeStatus, FileDiff, GitRepo, Status, ViewMode, ALL_STATUS_BITS, INDEX_DELETED,
    INDEX_MODIFIED, INDEX_NEW, INDEX_RENAMED, INDEX_TYPECHANGE, WT_DELETED, WT_MODIFIED, WT_NEW,
};
use crate::shared_state::{current_key, GitSharedState, GitSharedStateView};
use crate::text::{contains_seq, contains_str, has_prefix, starts_with, starts_with_char};

verus! {

// ---------------------------------------------------------------- small rules

/// The first seven characters of a commit id, or all of them when it is
/// shorter.
pub open spec fn short_id(sha: Seq<char>) -> Seq<char> {
    if sha.len() < 7 {
        sha
    } else {
        sha.subrange(0, 7)
    }
}

/// The short form of a commit id: its first seven characters.
pub fn short_sha(sha: &str) -> (r: String)
    ensures
        r@ == short_id(sha@),
{
    let n: usize = sha.unicode_len();
    let k: usize = if n < 7 { n } else { 7 };
    String::from_str(sha.substring_char(0, k))
}

/// How the change of a file in a commit is shown, or `None` for the kinds
/// that are skipped (ignored and untracked files). Copies, type changes and
/// the remaining kinds count as modifications.
pub open spec fn spec_change_status(kind: DeltaKind) -> Option<FileChangeStatus> {
    match kind {
        DeltaKind::Added => Some(FileChangeStatus::Added),
        DeltaKind::Deleted => Some(FileChangeStatus::Deleted),
        DeltaKind::Modified => Some(FileChangeStatus::Modified),
        DeltaKind::Renamed => Some(FileChangeStatus::Renamed),
        DeltaKind::Ignored => None,
        DeltaKind::Untracked => None,
        _ => Some(FileChangeStatus::Modified),
    }
}

pub fn change_status(kind: DeltaKind) -> (r: Option<FileChangeStatus>)
    ensures
        r == spec_change_status(kind),
{
    match kind {
        DeltaKind::Added => Some(FileChangeStatus::Added),
        DeltaKind::Deleted => Some(FileChangeStatus::Deleted),
        DeltaKind::Modified => Some(FileChangeStatus::Modified),
        DeltaKind::Renamed => Some(FileChangeStatus::Renamed),
        DeltaKind::Copied => Some(FileChangeStatus::Modified),
        DeltaKind::Ignored => None,
        DeltaKind::Untracked => None,
        DeltaKind::Typechange => Some(FileChangeStatus::Modified),
        DeltaKind::Unmodified => Some(FileChangeStatus::Modified),
        DeltaKind::Unreadable => Some(FileChangeStatus::Modified),
        DeltaKind::Conflicted => Some(FileChangeStatus::Modified),
    }
}

/// A diff line that adds a line: it starts with `+` but not with `+++`.
pub open spec fn is_added_line(l: Seq<char>) -> bool {
    l.len() > 0 && l[0] == '+' && !has_prefix(l, "+++"@)
}

/// A diff line that removes a line: it starts with `-` but not with `---`.
pub open spec fn is_removed_line(l: Seq<char>) -> bool {
    l.len() > 0 && l[0] == '-' && !has_prefix(l, "---"@)
}

/// The numbers of added and removed lines among the first `n` diff lines.
pub open spec fn line_changes(lines: Seq<String>, n: int) -> (nat, nat)
    decreases n,
{
    if n <= 0 {
        (0, 0)
    } else {
        let (a, d) = line_changes(lines, n - 1);
        let l = lines[n - 1]@;
        if is_added_line(l) {
            (a + 1, d)
        } else if is_removed_line(l) {
            (a, d + 1)
        } else {
            (a, d)
        }
    }
}

proof fn lemma_line_changes_bound(lines: Seq<String>, n: int)
    requires
        0 <= n,
    ensures
        line_changes(lines, n).0 + line_changes(lines, n).1 <= n,
    decreases n,
{
    if n > 0 {
        lemma_line_changes_bound(lines, n - 1);
    }
}

/// Counts the added and removed lines of a diff, leaving out the `+++` and
/// `---` file headers.
pub fn count_line_changes(lines: &Vec<String>) -> (r: (usize, usize))
    ensures
        r.0 == line_changes(lines@, lines@.len() as int).0,
        r.1 == line_changes(lines@, lines@.len() as int).1,
{
    let mut additions: usize = 0;
    let mut deletions: usize = 0;
    let mut i: usize = 0;
    while i < lines.len()
        invariant
            i <= lines@.len(),
            additions == line_changes(lines@, i as int).0,
            deletions == line_changes(lines@, i as int).1,
        decreases lines@.len() - i,
    {
        proof {
            lemma_line_changes_bound(lines@, i as int);
        }
        let line = lines[i].as_str();
        if starts_with_char(line, '+') && !starts_with(line, "+++") {
            additions = additions + 1;
        } else if starts_with_char(line, '-') && !starts_with(line, "---") {
            deletions = deletions + 1;
        }
        i = i + 1;
    }
    (additions, deletions)
}

/// The entry for a file of the last commit: its diff lines with their counts,
/// under the status bits 4 (the index flag for a deleted file).
pub fn last_commit_file_diff(path: String, lines: Vec<String>) -> (f: FileDiff)
    ensures
        f.path == path,
        f.status.bits == INDEX_DELETED,
        f.line_strings@ == lines@,
        f.additions == line_changes(lines@, lines@.len() as int).0,
        f.deletions == line_changes(lines@, lines@.len() as int).1,
{
    let (additions, deletions) = count_line_changes(&lines);
    let status = Status::from_bits_truncate(4);
    assert(4u32 & ALL_STATUS_BITS == 4u32) by (bit_vector);
    FileDiff { path, status, line_strings: lines, additions, deletions }
}

/// An entry for a file of the last commit as this library reads it: the
/// status bits 4, and no diff lines, so no added or removed lines.
pub open spec fn is_last_commit_entry(f: FileDiff) -> bool {
    &&& f.status.bits == INDEX_DELETED
    &&& f.line_strings@.len() == 0
    &&& f.additions == 0
    &&& f.deletions == 0
}

/// The paths listed for the last commit: for each delta with a path before
/// and after the change, the path after it joined to `repo_path`.
pub open spec fn last_commit_paths(repo_path: Seq<char>, pairs: Seq<(Option<String>, Option<String>)>) -> Seq<
    Seq<char>,
>
    decreases pairs.len(),
{
    if pairs.len() == 0 {
        Seq::empty()
    } else {
        let prev = last_commit_paths(repo_path, pairs.drop_last());
        match pairs.last() {
            (Some(_), Some(n)) => prev.push(joined_path(repo_path, n@)),
            _ => prev,
        }
    }
}

/// The entries for the files of the last commit, from the paths of its
/// deltas (before and after the change), in order, as `last_commit_paths`
/// says.
pub fn last_commit_entries(repo_path: &str, pairs: &Vec<(Option<String>, Option<String>)>) -> (r: Vec<FileDiff>)
    ensures
        r@.map_values(|f: FileDiff| f.path@) == last_commit_paths(repo_path@, pairs@),
        forall|i: int| 0 <= i < r@.len() ==> is_last_commit_entry(#[trigger] r@[i]),
{
    let mut r: Vec<FileDiff> = Vec::new();
    let mut i: usize = 0;
    proof {
        assert(pairs@.take(0) =~= Seq::<(Option<String>, Option<String>)>::empty());
        assert(r@.map_values(|f: FileDiff| f.path@) =~= Seq::<Seq<char>>::empty());
    }
    while i < pairs.len()
        invariant
            i <= pairs@.len(),
            r@.map_values(|f: FileDiff| f.path@) == last_commit_paths(repo_path@, pairs@.take(i as int)),
            forall|j: int| 0 <= j < r@.len() ==> is_last_commit_entry(#[trigger] r@[j]),
        decreases pairs.len() - i,
    {
        let ghost before = r@;
        proof {
            assert(pairs@.take(i + 1).drop_last() =~= pairs@.take(i as int));
            assert(pairs@.take(i + 1).last() == pairs@[i as int]);
        }
        let (old_path, new_path) = &pairs[i];
        if old_path.is_some() {
            if let Some(n) = new_path {
                let f = last_commit_file_diff(join_path(repo_path, n.as_str()), Vec::new());
                r.push(f);
                proof {
                    assert(r@.map_values(|f: FileDiff| f.path@) =~= before.map_values(|f: FileDiff| f.path@).push(
                        r@.last().path@,
                    ));
                    assert(line_changes(Seq::<String>::empty(), 0) == (0nat, 0nat));
                }
            }
        }
        i = i + 1;
    }
    proof {
        assert(pairs@.take(i as int) =~= pairs@);
    }
    r
}

/// Which lists a status entry goes to: the working-tree list for new,
/// modified or deleted files in the working tree; the staged list for new,
/// modified, deleted, renamed or retyped files in the index; the dirty
/// directory list when the file is in a dirty directory.
pub struct Placement {
    pub working_tree: bool,
    pub staged: bool,
    pub dirty_directory: bool,
}

pub open spec fn spec_placement(status: Status, in_dirty_directory: bool) -> Placement {
    Placement {
        working_tree: status.has(WT_NEW) || status.has(WT_MODIFIED) || status.has(WT_DELETED),
        staged: status.has(INDEX_NEW) || status.has(INDEX_MODIFIED) || status.has(INDEX_DELETED)
            || status.has(INDEX_RENAMED) || status.has(INDEX_TYPECHANGE),
        dirty_directory: in_dirty_directory,
    }
}

pub fn placement(status: &Status, in_dirty_directory: bool) -> (p: Placement)
    ensures
        p == spec_placement(*status, in_dirty_directory),
{
    Placement {
        working_tree: status.is_wt_new() || status.is_wt_modified() || status.is_wt_deleted(),
        staged: status.is_index_new() || status.is_index_modified() || status.is_index_deleted()
            || status.is_index_renamed() || status.is_index_typechange(),
        dirty_directory: in_dirty_directory,
    }
}

/// One entry of `git status`: the file's path in the repository, its status
/// bits, and whether it lies in a dirty directory.
pub struct StatusEntry {
    pub path: String,
    pub bits: u32,
    pub in_dirty_directory: bool,
}

/// The three lists that one reading of `git status` is sorted into.
pub struct StatusLists {
    pub changed: Vec<FileDiff>,
    pub staged: Vec<FileDiff>,
    pub dirty: Vec<FileDiff>,
}

/// A listed file as plain values: its path and status bits.
pub open spec fn listed_facts(s: Seq<FileDiff>) -> Seq<(Seq<char>, u32)> {
    s.map_values(|f: FileDiff| (f.path@, f.status.bits))
}

/// The three lists, as paths and status bits, after the entries `es` in
/// order: an entry goes to each list that `spec_placement` names, under its
/// path joined to `repo_path`; in the working-tree and staged lists with its
/// own status, in the dirty-directory list with the status bits 2.
pub open spec fn status_lists(repo_path: Seq<char>, es: Seq<StatusEntry>) -> (
    Seq<(Seq<char>, u32)>,
    Seq<(Seq<char>, u32)>,
    Seq<(Seq<char>, u32)>,
)
    decreases es.len(),
{
    if es.len() == 0 {
        (Seq::empty(), Seq::empty(), Seq::empty())
    } else {
        let (c, s, d) = status_lists(repo_path, es.drop_last());
        let e = es.last();
        let p = spec_placement(Status { bits: e.bits & ALL_STATUS_BITS }, e.in_dirty_directory);
        let path = joined_path(repo_path, e.path@);
        (
            if p.working_tree { c.push((path, e.bits & ALL_STATUS_BITS)) } else { c },
            if p.staged { s.push((path, e.bits & ALL_STATUS_BITS)) } else { s },
            if p.dirty_directory { d.push((path, INDEX_MODIFIED)) } else { d },
        )
    }
}

/// A listed file without its diff read: no lines, no counts.
pub open spec fn no_diff(f: FileDiff) -> bool {
    f.line_strings@.len() == 0 && f.additions == 0 && f.deletions == 0
}

fn status_file(repo_path: &str, path: &str, bits: u32) -> (f: FileDiff)
    ensures
        f.path@ == joined_path(repo_path@, path@),
        f.status.bits == bits & ALL_STATUS_BITS,
        no_diff(f),
{
    FileDiff {
        path: join_path(repo_path, path),
        status: Status::from_bits_truncate(bits),
        line_strings: Vec::new(),
        additions: 0,
        deletions: 0,
    }
}

/// Sorts the entries of one reading of `git status` into the working-tree,
/// staged and dirty-directory lists, as `status_lists` says; the diffs of the
/// files are not read here.
pub fn sort_status_entries(repo_path: &str, entries: &Vec<StatusEntry>) -> (r: StatusLists)
    ensures
        (listed_facts(r.changed@), listed_facts(r.staged@), listed_facts(r.dirty@)) == status_lists(
            repo_path@,
            entries@,
        ),
        forall|i: int| 0 <= i < r.changed@.len() ==> no_diff(#[trigger] r.changed@[i]),
        forall|i: int| 0 <= i < r.staged@.len() ==> no_diff(#[trigger] r.staged@[i]),
        forall|i: int| 0 <= i < r.dirty@.len() ==> no_diff(#[trigger] r.dirty@[i]),
{
    let mut changed: Vec<FileDiff> = Vec::new();
    let mut staged: Vec<FileDiff> = Vec::new();
    let mut dirty: Vec<FileDiff> = Vec::new();
    let mut i: usize = 0;
    proof {
        assert(entries@.take(0) =~= Seq::<StatusEntry>::empty());
        assert(listed_facts(changed@) =~= Seq::empty());
        assert(listed_facts(staged@) =~= Seq::empty());
        assert(listed_facts(dirty@) =~= Seq::empty());
    }
    while i < entries.len()
        invariant
            i <= entries@.len(),
            (listed_facts(changed@), listed_facts(staged@), listed_facts(dirty@)) == status_lists(
                repo_path@,
                entries@.take(i as int),
            ),
            forall|j: int| 0 <= j < changed@.len() ==> no_diff(#[trigger] changed@[j]),
            forall|j: int| 0 <= j < staged@.len() ==> no_diff(#[trigger] staged@[j]),
            forall|j: int| 0 <= j < dirty@.len() ==> no_diff(#[trigger] dirty@[j]),
        decreases entries.len() - i,
    {
        proof {
            assert(entries@.take(i + 1).drop_last() =~= entries@.take(i as int));
            assert(entries@.take(i + 1).last() == entries@[i as int]);
        }
        let e = &entries[i];
        let status = Status::from_bits_truncate(e.bits);
        let place = placement(&status, e.in_dirty_directory);
        let ghost c0 = changed@;
        let ghost s0 = staged@;
        let ghost d0 = dirty@;
        if place.working_tree {
            changed.push(status_file(repo_path, e.path.as_str(), e.bits));
            proof {
                assert(listed_facts(changed@) =~= listed_facts(c0).push((changed@.last().path@, changed@.last().status.bits)));
            }
        }
        if place.staged {
            staged.push(status_file(repo_path, e.path.as_str(), e.bits));
            proof {
                assert(listed_facts(staged@) =~= listed_facts(s0).push((staged@.last().path@, staged@.last().status.bits)));
            }
        }
        if place.dirty_directory {
            dirty.push(status_file(repo_path, e.path.as_str(), 2));
            proof {
                assert(2u32 & ALL_STATUS_BITS == 2u32) by (bit_vector);
                assert(listed_facts(dirty@) =~= listed_facts(d0).push((dirty@.last().path@, dirty@.last().status.bits)));
            }
        }
        i = i + 1;
    }
    proof {
        assert(entries@.take(i as int) =~= entries@);
    }
    StatusLists { changed, staged, dirty }
}

/// The list a diff is made for.
#[derive(Debug, Clone, Copy, PartialEq, Eq, Structural)]
pub enum DiffType {
    WorkingTree,
    Staged,
    DirtyDirectory,
}

/// Where the text of a diff is read from.
#[derive(Debug, Clone, Copy, PartialEq, Eq, Structural)]
pub enum DiffSource {
    /// The working tree against the index.
    WorkingTree,
    /// The index against HEAD.
    Staged,
}

/// Which diff is read for a file: for the working-tree list only when the
/// file is new, modified or deleted in the working tree; the staged diff for
/// the staged list; the working-tree diff for the dirty-directory list.
pub open spec fn spec_diff_source(status: Status, diff_type: DiffType) -> Option<DiffSource> {
    match diff_type {
        DiffType::WorkingTree => if status.has(WT_NEW) || status.has(WT_MODIFIED) || status.has(WT_DELETED) {
            Some(DiffSource::WorkingTree)
        } else {
            None
        },
        DiffType::Staged => Some(DiffSource::Staged),
        DiffType::DirtyDirectory => Some(DiffSource::WorkingTree),
    }
}

pub fn diff_source(status: &Status, diff_type: DiffType) -> (r: Option<DiffSource>)
    ensures
        r == spec_diff_source(*status, diff_type),
{
    match diff_type {
        DiffType::WorkingTree => if status.is_wt_new() || status.is_wt_modified() || status.is_wt_deleted() {
            Some(DiffSource::WorkingTree)
        } else {
            None
        },
        DiffType::Staged => Some(DiffSource::Staged),
        DiffType::DirtyDirectory => Some(DiffSource::WorkingTree),
    }
}

/// The entry for a file of a list: its path and status, with the lines and
/// counts of the diff that `diff_source` names when one is read and could be
/// had (`read`), and none otherwise.
pub fn generate_diff(
    path: String,
    status: Status,
    diff_type: DiffType,
    read: Option<(Vec<String>, usize, usize)>,
) -> (f: FileDiff)
    ensures
        f.path == path,
        f.status == status,
        match (spec_diff_source(status, diff_type), read) {
            (Some(_), Some((lines, a, d))) => f.line_strings@ == lines@ && f.additions == a && f.deletions == d,
            _ => no_diff(f),
        },
{
    let wanted = diff_source(&status, diff_type).is_some();
    match read {
        Some((lines, additions, deletions)) if wanted => FileDiff {
            path,
            status,
            line_strings: lines,
            additions,
            deletions,
        },
        _ => FileDiff { path, status, line_strings: Vec::new(), additions: 0, deletions: 0 },
    }
}

/// The view mode: working-tree changes first, then a dirty directory, then
/// staged changes, and the last commit when there is nothing else.
pub open spec fn spec_view_mode(has_changed: bool, has_dirty: bool, has_staged: bool) -> ViewMode {
    if has_changed {
        ViewMode::WorkingTree
    } else if has_dirty {
        ViewMode::DirtyDirectory
    } else if has_staged {
        ViewMode::Staged
    } else {
        ViewMode::LastCommit
    }
}

pub fn view_mode_by_priority(has_changed: bool, has_dirty: bool, has_staged: bool) -> (m: ViewMode)
    ensures
        m == spec_view_mode(has_changed, has_dirty, has_staged),
{
    if has_changed {
        ViewMode::WorkingTree
    } else if has_dirty {
        ViewMode::DirtyDirectory
    } else if has_staged {
        ViewMode::Staged
    } else {
        ViewMode::LastCommit
    }
}

/// An error that may go away when tried again: one that speaks of a lock, of
/// being busy, or of something temporary.
pub open spec fn spec_is_transient(msg: Seq<char>) -> bool {
    contains_seq(msg, "lock"@) || contains_seq(msg, "busy"@) || contains_seq(msg, "temporary"@)
}

pub fn is_transient_error(msg: &str) -> (r: bool)
    ensures
        r == spec_is_transient(msg@),
{
    contains_str(msg, "lock") || contains_str(msg, "busy") || contains_str(msg, "temporary")
}

/// The number of attempts at a status update.
pub const UPDATE_ATTEMPTS: u32 = 3;

/// What to do after a failed status update attempt.
#[derive(Debug, Clone, Copy, PartialEq, Eq, Structural)]
pub enum RetryStep {
    /// Wait this many milliseconds and try again.
    RetryAfterMillis(u64),
    /// Stop and report the error.
    GiveUp,
}

/// A transient error before the last attempt is tried again after a pause
/// of a tenth of a second per attempt made; anything else ends the update.
pub open spec fn spec_retry_step(attempt: u32, msg: Seq<char>) -> RetryStep {
    if spec_is_transient(msg) && attempt < UPDATE_ATTEMPTS {
        RetryStep::RetryAfterMillis((100 * attempt) as u64)
    } else {
        RetryStep::GiveUp
    }
}

pub fn retry_step(attempt: u32, msg: &str) -> (s: RetryStep)
    requires
        1 <= attempt,
    ensures
        s == spec_retry_step(attempt, msg@),
{
    if is_transient_error(msg) && attempt < UPDATE_ATTEMPTS {
        let wait: u64 = 100 * (attempt as u64);
        RetryStep::RetryAfterMillis(wait)
    } else {
        RetryStep::GiveUp
    }
}

/// The label of the current branch: its short name, or `detached`.
pub fn branch_label(shorthand: Option<String>) -> (r: String)
    ensures
        r@ == match shorthand {
            Some(s) => s@,
            None => "detached"@,
        },
{
    match shorthand {
        Some(s) => s,
        None => String::from_str("detached"),
    }
}

/// What is shown of the last commit: its short id and summary; `unknown`
/// when it cannot be found; `no commits` when there is none.
pub open spec fn spec_commit_label(commit_id: Option<Seq<char>>, found: Option<Option<Seq<char>>>) -> (
    Seq<char>,
    Seq<char>,
) {
    match commit_id {
        None => ("no commits"@, "no commits"@),
        Some(id) => match found {
            None => ("unknown"@, "unknown commit"@),
            Some(summary) => (
                short_id(id),
                match summary {
                    Some(s) => s,
                    None => "no summary"@,
                },
            ),
        },
    }
}

pub fn commit_label(commit_id: Option<&str>, found: Option<Option<String>>) -> (r: (String, String))
    ensures
        (r.0@, r.1@) == spec_commit_label(
            match commit_id {
                Some(id) => Some(id@),
                None => None,
            },
            match found {
                Some(s) => Some(
                    match s {
                        Some(t) => Some(t@),
                        None => None,
                    },
                ),
                None => None,
            },
        ),
{
    match commit_id {
        None => (String::from_str("no commits"), String::from_str("no commits")),
        Some(id) => match found {
            None => (String::from_str("unknown"), String::from_str("unknown commit")),
            Some(summary) => {
                let text = match summary {
                    Some(s) => s,
                    None => String::from_str("no summary"),
                };
                (short_sha(id), text)
            },
        },
    }
}

/// The sums of the added and of the removed lines of the first `n` files.
pub open spec fn sum_changes(files: Seq<FileDiff>, n: int) -> (int, int)
    decreases n,
{
    if n <= 0 {
        (0, 0)
    } else {
        let (a, d) = sum_changes(files, n - 1);
        (a + files[n - 1].additions, d + files[n - 1].deletions)
    }
}

proof fn lemma_sum_changes_monotone(files: Seq<FileDiff>, i: int, n: int)
    requires
        0 <= i <= n,
    ensures
        0 <= sum_changes(files, i).0 <= sum_changes(files, n).0,
        0 <= sum_changes(files, i).1 <= sum_changes(files, n).1,
    decreases n - i,
{
    if i < n {
        lemma_sum_changes_monotone(files, i, n - 1);
    }
    if n > 0 {
        lemma_sum_changes_nonneg(files, n - 1);
    }
}

proof fn lemma_sum_changes_nonneg(files: Seq<FileDiff>, n: int)
    ensures
        0 <= sum_changes(files, n).0,
        0 <= sum_changes(files, n).1,
    decreases n,
{
    if n > 0 {
        lemma_sum_changes_nonneg(files, n - 1);
    }
}

/// The totals of a file list fit in a `usize`.
pub open spec fn totals_fit(files: Seq<FileDiff>) -> bool {
    sum_changes(files, files.len() as int).0 <= usize::MAX && sum_changes(files, files.len() as int).1
        <= usize::MAX
}

/// The number of files and the total added and removed lines.
pub fn file_totals(files: &Vec<FileDiff>) -> (r: (usize, usize, usize))
    requires
        totals_fit(files@),
    ensures
        r.0 == files@.len(),
        r.1 == sum_changes(files@, files@.len() as int).0,
        r.2 == sum_changes(files@, files@.len() as int).1,
{
    let mut additions: usize = 0;
    let mut deletions: usize = 0;
    let mut i: usize = 0;
    while i < files.len()
        invariant
            i <= files@.len(),
            totals_fit(files@),
            additions == sum_changes(files@, i as int).0,
            deletions == sum_changes(files@, i as int).1,
        decreases files@.len() - i,
    {
        proof {
            lemma_sum_changes_monotone(files@, i + 1, files@.len() as int);
        }
        additions = additions + files[i].additions;
        deletions = deletions + files[i].deletions;
        i = i + 1;
    }
    (files.len(), additions, deletions)
}

/// Whether the totals of a file list fit in a `usize`.
pub fn totals_fit_of(files: &Vec<FileDiff>) -> (r: bool)
    ensures
        r == totals_fit(files@),
{
    let mut additions: usize = 0;
    let mut deletions: usize = 0;
    let mut i: usize = 0;
    while i < files.len()
        invariant
            i <= files@.len(),
            additions == sum_changes(files@, i as int).0,
            deletions == sum_changes(files@, i as int).1,
        decreases files@.len() - i,
    {
        proof {
            lemma_sum_changes_monotone(files@, i + 1, files@.len() as int);
        }
        if additions > usize::MAX - files[i].additions || deletions > usize::MAX - files[i].deletions {
            return false;
        }
        additions = additions + files[i].additions;
        deletions = deletions + files[i].deletions;
        i = i + 1;
    }
    true
}

// ---------------------------------------------------------------- the worker

/// What the worker knows of the repository.
pub struct GitWorkerView {
    pub path: Seq<char>,
    pub changed_files: Seq<FileDiff>,
    pub staged_files: Seq<FileDiff>,
    pub dirty_directory_files: Seq<FileDiff>,
    pub last_commit_files: Seq<FileDiff>,
    pub last_commit_id: Option<Seq<char>>,
    pub current_view_mode: ViewMode,
    pub last_head_commit_id: Option<Seq<char>>,
}

/// The git worker of one repository.
pub struct GitWorker {
    repo: git2::Repository,
    path: String,
    changed_files: Vec<FileDiff>,
    staged_files: Vec<FileDiff>,
    dirty_directory_files: Vec<FileDiff>,
    last_commit_files: Vec<FileDiff>,
    last_commit_id: Option<String>,
    current_view_mode: ViewMode,
    last_head_commit_id: Option<String>,
}

pub open spec fn opt_view(o: Option<String>) -> Option<Seq<char>> {
    match o {
        Some(s) => Some(s@),
        None => None,
    }
}

impl View for GitWorker {
    type V = GitWorkerView;

    closed spec fn view(&self) -> GitWorkerView {
        GitWorkerView {
            path: self.path@,
            changed_files: self.changed_files@,
            staged_files: self.staged_files@,
            dirty_directory_files: self.dirty_directory_files@,
            last_commit_files: self.last_commit_files@,
            last_commit_id: opt_view(self.last_commit_id),
            current_view_mode: self.current_view_mode,
            last_head_commit_id: opt_view(self.last_head_commit_id),
        }
    }
}

/// The state after HEAD is read as `current`, and whether that is a change:
/// a new HEAD commit is recorded as the last commit too and drops the files
/// of the last commit; the first HEAD seen is recorded and counts as a
/// change; a HEAD that disappears clears both and the files.
pub open spec fn spec_head_change(v: GitWorkerView, current: Option<Seq<char>>) -> (GitWorkerView, bool) {
    match current {
        Some(cur) => match v.last_head_commit_id {
            Some(last) => if cur != last {
                (
                    GitWorkerView {
                        last_head_commit_id: Some(cur),
                        last_commit_id: Some(cur),
                        last_commit_files: Seq::empty(),
                        ..v
                    },
                    true,
                )
            } else {
                (v, false)
            },
            None => (GitWorkerView { last_head_commit_id: Some(cur), last_commit_id: Some(cur), ..v }, true),
        },
        None => match v.last_head_commit_id {
            Some(_) => (
                GitWorkerView {
                    last_head_commit_id: None,
                    last_commit_id: None,
                    last_commit_files: Seq::empty(),
                    ..v
                },
                true,
            ),
            None => (v, false),
        },
    }
}

/// The state after a status scan found the three lists: the view mode by
/// priority and the lists replaced.
pub open spec fn spec_after_scan(
    v: GitWorkerView,
    changed: Seq<FileDiff>,
    staged: Seq<FileDiff>,
    dirty: Seq<FileDiff>,
) -> GitWorkerView {
    GitWorkerView {
        current_view_mode: spec_view_mode(changed.len() > 0, dirty.len() > 0, staged.len() > 0),
        changed_files: changed,
        staged_files: staged,
        dirty_directory_files: dirty,
        ..v
    }
}

/// The files shown in a view mode.
pub open spec fn display_files(v: GitWorkerView) -> Seq<FileDiff> {
    match v.current_view_mode {
        ViewMode::WorkingTree => v.changed_files,
        ViewMode::Staged => v.staged_files,
        ViewMode::DirtyDirectory => v.dirty_directory_files,
        ViewMode::LastCommit => v.last_commit_files,
    }
}

/// The id of the commit HEAD points to, as forty hexadecimal digits, or
/// `None` when there is none.
fn head_commit_text(repo: &git2::Repository) -> (r: Option<String>)
    ensures
        r matches Some(id) ==> is_commit_id(id@),
{
    match repo_head(repo) {
        Ok(head) => match peel_to_commit(&head) {
            Ok(commit) => {
                let id = commit_id(&commit);
                Some(oid_text(&id))
            },
            Err(_) => None,
        },
        Err(_) => None,
    }
}

/// A snapshot holds what the worker knows: its path, lists, last commit and
/// view mode, the repository's directory name (or `unknown`, never empty), the label of
/// the last commit as `get_last_commit_info` gives it, and the number of
/// files shown with their added and removed lines. The branch is read from
/// the repository and not stated.
pub open spec fn snapshot_of(v: GitWorkerView, g: GitRepo) -> bool {
    &&& g.path@ == v.path
    &&& same_file_diffs(g.changed_files@, v.changed_files)
    &&& same_file_diffs(g.staged_files@, v.staged_files)
    &&& same_file_diffs(g.dirty_directory_files@, v.dirty_directory_files)
    &&& same_file_diffs(g.last_commit_files@, v.last_commit_files)
    &&& opt_view(g.last_commit_id) == v.last_commit_id
    &&& g.current_view_mode == v.current_view_mode
    &&& g.repo_name@ == match path_file_name(v.path) {
        Some(n) => n,
        None => "unknown"@,
    }
    &&& g.repo_name@.len() > 0
    &&& v.last_commit_id is None ==> g.commit_info.0@ == "no commits"@ && g.commit_info.1@ == "no commits"@
    &&& v.last_commit_id matches Some(id) ==> (g.commit_info.0@ == short_id(id) || (g.commit_info.0@
        == "unknown"@ && g.commit_info.1@ == "unknown commit"@))
    &&& g.total_stats.0 == display_files(v).len()
    &&& g.total_stats.1 == sum_changes(display_files(v), display_files(v).len() as int).0
    &&& g.total_stats.2 == sum_changes(display_files(v), display_files(v).len() as int).1
}

/// The key under which status errors are recorded in the shared state.
pub open spec fn status_error_key() -> Seq<char> {
    "git_status"@
}

impl GitWorker {
    /// Opens the repository at `path`; the commit HEAD points to, if any, is
    /// both the last commit and the last HEAD seen.
    pub fn new(path: &str) -> (r: Result<GitWorker, String>)
        ensures
            r matches Ok(w) ==> {
                &&& w@.path == path@
                &&& w@.changed_files.len() == 0
                &&& w@.staged_files.len() == 0
                &&& w@.dirty_directory_files.len() == 0
                &&& w@.last_commit_files.len() == 0
                &&& w@.last_commit_id == w@.last_head_commit_id
                &&& (w@.last_head_commit_id matches Some(id) ==> is_commit_id(id))
                &&& w@.current_view_mode == ViewMode::WorkingTree
            },
    {
        match open_repository(path) {
            Err(e) => Err(error_text(&e)),
            Ok(repo) => {
                let last_commit_id = head_commit_text(&repo);
                let last_head_commit_id = copy_opt_text(&last_commit_id);
                Ok(GitWorker {
                    repo,
                    path: String::from_str(path),
                    changed_files: Vec::new(),
                    staged_files: Vec::new(),
                    dirty_directory_files: Vec::new(),
                    last_commit_files: Vec::new(),
                    last_commit_id,
                    current_view_mode: ViewMode::WorkingTree,
                    last_head_commit_id,
                })
            },
        }
    }

    /// Applies a reading of HEAD; reports whether it changed.
    pub fn apply_head_change(&mut self, current: Option<String>) -> (changed: bool)
        ensures
            (final(self)@, changed) == spec_head_change(old(self)@, opt_view(current)),
    {
        match current {
            Some(cur) => {
                let differs = match &self.last_head_commit_id {
                    Some(last) => !crate::text::str_equal(cur.as_str(), last.as_str()),
                    None => {
                        self.last_commit_id = Some(cur.clone());
                        self.last_head_commit_id = Some(cur);
                        return true;
                    },
                };
                if differs {
                    self.last_commit_id = Some(cur.clone());
                    self.last_head_commit_id = Some(cur);
                    self.last_commit_files = Vec::new();
                    true
                } else {
                    false
                }
            },
            None => {
                if self.last_head_commit_id.is_some() {
                    self.last_head_commit_id = None;
                    self.last_commit_id = None;
                    self.last_commit_files = Vec::new();
                    true
                } else {
                    false
                }
            },
        }
    }

    /// Reads HEAD and applies it: what is read is what is then recorded as
    /// the last HEAD seen, a commit id or nothing.
    pub fn detect_head_change(&mut self) -> (changed: bool)
        ensures
            (final(self)@, changed) == spec_head_change(old(self)@, final(self)@.last_head_commit_id),
            final(self)@.last_head_commit_id matches Some(id) ==> is_commit_id(id),
    {
        let current = head_commit_text(&self.repo);
        let ghost cur = opt_view(current);
        let changed = self.apply_head_change(current);
        proof {
            assert(final(self)@.last_head_commit_id == cur) by {
                assert(has_resolved(self));
            }
        }
        changed
    }

    /// Takes the result of a status scan: the three lists and the view mode by
    /// priority. Reports whether the files of the last commit are to be
    /// loaded again: when HEAD changed or they are missing, and there is a
    /// last commit.
    pub fn finish_update(
        &mut self,
        changed: Vec<FileDiff>,
        staged: Vec<FileDiff>,
        dirty: Vec<FileDiff>,
        head_changed: bool,
    ) -> (refresh: bool)
        ensures
            final(self)@ == spec_after_scan(old(self)@, changed@, staged@, dirty@),
            refresh == ((head_changed || old(self)@.last_commit_files.len() == 0)
                && old(self)@.last_commit_id is Some),
    {
        self.current_view_mode = view_mode_by_priority(
            changed.len() > 0,
            dirty.len() > 0,
            staged.len() > 0,
        );
        let refresh = (head_changed || self.last_commit_files.len() == 0) && self.last_commit_id.is_some();
        self.changed_files = changed;
        self.staged_files = staged;
        self.dirty_directory_files = dirty;
        refresh
    }

    /// Replaces the files of the last commit.
    pub fn set_last_commit_files(&mut self, files: Vec<FileDiff>)
        ensures
            final(self)@ == (GitWorkerView { last_commit_files: files@, ..old(self)@ }),
    {
        self.last_commit_files = files;
    }

    /// The repository's directory name, or `unknown`.
    pub fn get_repo_name(&self) -> (r: String)
        ensures
            r@ == match path_file_name(self@.path) {
                Some(n) => n,
                None => "unknown"@,
            },
            r@.len() > 0,
    {
        proof {
            reveal_strlit("unknown");
        }
        match file_name_of(self.path.as_str()) {
            Some(n) => n,
            None => String::from_str("unknown"),
        }
    }

    /// The short name of the current branch, or `detached`.
    pub fn get_current_branch(&self) -> (r: String) {
        match repo_head(&self.repo) {
            Ok(head) => branch_label(reference_shorthand(&head)),
            Err(_) => branch_label(None),
        }
    }

    /// The short id and summary of the last commit, as `commit_label` states
    /// for what the repository gives back.
    pub fn get_last_commit_info(&self) -> (r: (String, String))
        ensures
            self@.last_commit_id is None ==> r.0@ == "no commits"@ && r.1@ == "no commits"@,
            self@.last_commit_id matches Some(id) ==> (r.0@ == short_id(id) || (r.0@ == "unknown"@
                && r.1@ == "unknown commit"@)),
    {
        match &self.last_commit_id {
            None => commit_label(None, None),
            Some(id) => {
                let oid = match parse_oid(id.as_str()) {
                    Ok(o) => o,
                    Err(_) => zero_oid(),
                };
                let found = match find_commit(&self.repo, oid) {
                    Ok(c) => Some(commit_summary(&c)),
                    Err(_) => None,
                };
                commit_label(Some(id.as_str()), found)
            },
        }
    }

    /// Reads the files of the last commit from the repository: the entries
    /// that `last_commit_entries` makes of the paths of the deltas between
    /// the commit and its first parent; none without a last commit, or when
    /// the commit, its tree, its parent or the diff cannot be read. The diff
    /// text of each file is not read here.
    pub fn load_last_commit_files(&self) -> (r: Vec<FileDiff>)
        ensures
            self@.last_commit_id is None ==> r@.len() == 0,
            exists|pairs: Seq<(Option<String>, Option<String>)>|
                #[trigger] last_commit_paths(self@.path, pairs) == r@.map_values(|f: FileDiff| f.path@)
                && forall|i: int| 0 <= i < r@.len() ==> is_last_commit_entry(#[trigger] r@[i]),
    {
        let mut pairs: Vec<(Option<String>, Option<String>)> = Vec::new();
        if let Some(id) = &self.last_commit_id {
            let oid = match parse_oid(id.as_str()) {
                Ok(o) => o,
                Err(_) => zero_oid(),
            };
            if let Ok(commit) = find_commit(&self.repo, oid) {
                if let Ok(tree) = commit_tree(&commit) {
                    if let Ok(parent) = commit_parent(&commit, 0) {
                        if let Ok(parent_tree) = commit_tree(&parent) {
                            if let Ok(diff) = diff_trees(&self.repo, Some(&parent_tree), &tree) {
                                let count: usize = diff_delta_count(&diff);
                                let mut i: usize = 0;
                                while i < count
                                    invariant
                                        i <= count,
                                    decreases count - i,
                                {
                                    if let Some(delta) = diff_get_delta(&diff, i) {
                                        pairs.push((delta_old_path(&delta), delta_new_path(&delta)));
                                    }
                                    i = i + 1;
                                }
                            }
                        }
                    }
                }
            }
        }
        let r = last_commit_entries(self.path.as_str(), &pairs);
        proof {
            assert(self.path@ == self@.path);
            assert(last_commit_paths(self@.path, pairs@) == r@.map_values(|f: FileDiff| f.path@));
            if self@.last_commit_id is None {
                assert(pairs@ =~= Seq::<(Option<String>, Option<String>)>::empty());
                assert(r@.map_values(|f: FileDiff| f.path@).len() == r@.len());
            }
        }
        r
    }

    /// The number of files shown and their added and removed lines.
    pub fn get_total_stats(&self) -> (r: (usize, usize, usize))
        requires
            totals_fit(display_files(self@)),
        ensures
            r.0 == display_files(self@).len(),
            r.1 == sum_changes(display_files(self@), display_files(self@).len() as int).0,
            r.2 == sum_changes(display_files(self@), display_files(self@).len() as int).1,
    {
        match self.current_view_mode {
            ViewMode::WorkingTree => file_totals(&self.changed_files),
            ViewMode::Staged => file_totals(&self.staged_files),
            ViewMode::DirtyDirectory => file_totals(&self.dirty_directory_files),
            ViewMode::LastCommit => file_totals(&self.last_commit_files),
        }
    }

    /// A snapshot of what the worker knows, with the repository name, the
    /// branch, the last commit's label and the totals of the files shown.
    pub fn create_git_repo_snapshot(&self) -> (g: GitRepo)
        requires
            totals_fit(display_files(self@)),
        ensures
            snapshot_of(self@, g),
    {
        GitRepo {
            path: self.path.clone(),
            changed_files: copy_file_diffs(&self.changed_files),
            staged_files: copy_file_diffs(&self.staged_files),
            dirty_directory_files: copy_file_diffs(&self.dirty_directory_files),
            last_commit_files: copy_file_diffs(&self.last_commit_files),
            last_commit_id: copy_opt_text(&self.last_commit_id),
            current_view_mode: self.current_view_mode,
            repo_name: self.get_repo_name(),
            branch_name: self.get_current_branch(),
            commit_info: self.get_last_commit_info(),
            total_stats: self.get_total_stats(),
        }
    }

    /// Whether the totals of the files shown fit in a `usize`, as a snapshot
    /// needs.
    pub fn totals_fit_now(&self) -> (r: bool)
        ensures
            r == totals_fit(display_files(self@)),
    {
        match self.current_view_mode {
            ViewMode::WorkingTree => totals_fit_of(&self.changed_files),
            ViewMode::Staged => totals_fit_of(&self.staged_files),
            ViewMode::DirtyDirectory => totals_fit_of(&self.dirty_directory_files),
            ViewMode::LastCommit => totals_fit_of(&self.last_commit_files),
        }
    }

    /// After a successful status update: the status error is cleared and the
    /// snapshot published.
    pub fn publish_success(&self, shared: &mut GitSharedState)
        requires
            totals_fit(display_files(self@)),
        ensures
            final(shared)@.errors == old(shared)@.errors.remove(status_error_key()),
            final(shared)@.repos.dom() == old(shared)@.repos.dom().insert(current_key()),
            forall|k: Seq<char>|
                k != current_key() && #[trigger] old(shared)@.repos.contains_key(k) ==> final(shared)@.repos[k]
                    == old(shared)@.repos[k],
            snapshot_of(self@, final(shared)@.repos[current_key()]),
            final(shared)@.commits == old(shared)@.commits,
            final(shared)@.file_diffs == old(shared)@.file_diffs,
            final(shared)@.view_mode == old(shared)@.view_mode,
    {
        shared.clear_error("git_status");
        let snapshot = self.create_git_repo_snapshot();
        shared.update_repo(snapshot);
    }

    /// After a failed status update: the error is recorded.
    pub fn publish_failure(shared: &mut GitSharedState, message: String)
        ensures
            final(shared)@ == (GitSharedStateView {
                errors: old(shared)@.errors.insert(status_error_key(), message@),
                ..old(shared)@
            }),
    {
        shared.set_error(String::from_str("git_status"), message);
    }
}

// ---------------------------------------------------------------- history

/// Errors tolerated while walking the history before it stops.
pub const MAX_HISTORY_ERRORS: usize = 5;

/// Errors tolerated while listing the files of a commit before it stops.
pub const MAX_FILE_ERRORS: usize = 10;

/// Every cached commit is kept under its own id, with the short id that the
/// id gives.
pub open spec fn commits_keyed(commits: Map<Seq<char>, CommitInfo>) -> bool {
    forall|k: Seq<char>|
        #[trigger] commits.contains_key(k) ==> commits[k].sha@ == k && commits[k].short_sha@ == short_id(k)
}

/// The message given for a commit id that is empty.
pub open spec fn empty_sha_message() -> Seq<char> {
    "Empty commit SHA"@
}

/// What is read of one file delta of a commit's diff: its kind, the paths of
/// the file after and before the change, and the numbers of added and
/// removed lines when they could be had from the delta's patch.
#[derive(Debug, Clone)]
pub struct DeltaInfo {
    pub kind: DeltaKind,
    pub new_path: Option<String>,
    pub old_path: Option<String>,
    pub stats: Option<(usize, usize)>,
}

/// The path a delta is listed under: the path after the change, else the one
/// before.
pub open spec fn delta_path(d: DeltaInfo) -> Option<Seq<char>> {
    match d.new_path {
        Some(p) => Some(p@),
        None => opt_view(d.old_path),
    }
}

/// A listed file change as plain values: path, status, added and removed
/// lines.
pub open spec fn change_facts(c: CommitFileChange) -> (Seq<char>, FileChangeStatus, usize, usize) {
    (c.path@, c.status, c.additions, c.deletions)
}

pub open spec fn changes_facts(s: Seq<CommitFileChange>) -> Seq<(Seq<char>, FileChangeStatus, usize, usize)> {
    s.map_values(|c: CommitFileChange| change_facts(c))
}

/// Where the listing of a commit's files stands: the changes listed so far,
/// the errors met, and whether it has stopped.
pub struct FileListing {
    pub changes: Seq<(Seq<char>, FileChangeStatus, usize, usize)>,
    pub errors: nat,
    pub stopped: bool,
}

/// One delta taken into the listing. Ignored and untracked files are
/// skipped. A delta with no path is an error; one whose line counts could not
/// be had is an error too and is listed with zero counts. At the tenth error
/// the listing stops, without the delta that caused it.
pub open spec fn listing_step(repo_path: Seq<char>, st: FileListing, d: DeltaInfo) -> FileListing {
    if st.stopped {
        st
    } else {
        match spec_change_status(d.kind) {
            None => st,
            Some(status) => match delta_path(d) {
                None => FileListing {
                    errors: st.errors + 1,
                    stopped: st.errors + 1 >= MAX_FILE_ERRORS,
                    ..st
                },
                Some(p) => match d.stats {
                    Some(counts) => FileListing {
                        changes: st.changes.push((joined_path(repo_path, p), status, counts.0, counts.1)),
                        ..st
                    },
                    None => if st.errors + 1 >= MAX_FILE_ERRORS {
                        FileListing { errors: st.errors + 1, stopped: true, ..st }
                    } else {
                        FileListing {
                            changes: st.changes.push((joined_path(repo_path, p), status, 0, 0)),
                            errors: st.errors + 1,
                            stopped: false,
                        }
                    },
                },
            },
        }
    }
}

/// The listing after the deltas `ds`, in order.
pub open spec fn listing_of(repo_path: Seq<char>, ds: Seq<DeltaInfo>) -> FileListing
    decreases ds.len(),
{
    if ds.len() == 0 {
        FileListing { changes: Seq::empty(), errors: 0, stopped: false }
    } else {
        listing_step(repo_path, listing_of(repo_path, ds.drop_last()), ds.last())
    }
}

/// Once the listing has stopped, further deltas change nothing.
proof fn lemma_listing_stays_stopped(repo_path: Seq<char>, ds: Seq<DeltaInfo>, i: int)
    requires
        0 <= i <= ds.len(),
        listing_of(repo_path, ds.take(i)).stopped,
    ensures
        listing_of(repo_path, ds) == listing_of(repo_path, ds.take(i)),
    decreases ds.len() - i,
{
    if i < ds.len() {
        assert(ds.take(i + 1).drop_last() =~= ds.take(i));
        assert(ds.take(i + 1).last() == ds[i]);
        lemma_listing_stays_stopped(repo_path, ds, i + 1);
    } else {
        assert(ds.take(i) =~= ds);
    }
}

/// Takes one delta into the listing held in `changes` and `errors`; reports
/// whether the listing stops.
fn list_delta(repo_path: &str, changes: &mut Vec<CommitFileChange>, errors: &mut usize, d: &DeltaInfo) -> (stop: bool)
    requires
        *old(errors) < MAX_FILE_ERRORS,
    ensures
        (FileListing { changes: changes_facts(final(changes)@), errors: *final(errors) as nat, stopped: stop })
            == listing_step(
            repo_path@,
            FileListing { changes: changes_facts(old(changes)@), errors: *old(errors) as nat, stopped: false },
            *d,
        ),
        *final(errors) < MAX_FILE_ERRORS || stop,
{
    let ghost before = changes_facts(changes@);
    let status = match change_status(d.kind) {
        None => return false,
        Some(s) => s,
    };
    let relative: Option<&String> = match &d.new_path {
        Some(p) => Some(p),
        None => match &d.old_path {
            Some(p) => Some(p),
            None => None,
        },
    };
    let rel = match relative {
        None => {
            *errors = *errors + 1;
            return *errors >= MAX_FILE_ERRORS;
        },
        Some(r) => r,
    };
    let (additions, deletions) = match d.stats {
        Some(counts) => counts,
        None => {
            *errors = *errors + 1;
            if *errors >= MAX_FILE_ERRORS {
                return true;
            }
            (0, 0)
        },
    };
    let absolute = join_path(repo_path, rel.as_str());
    changes.push(CommitFileChange { path: absolute, status, additions, deletions });
    proof {
        assert(changes_facts(changes@) =~= before.push(change_facts(changes@.last())));
    }
    false
}

/// The files listed for a commit from the deltas of its diff, in order:
/// each kept delta under its path joined to `repo_path`, with its status and
/// line counts, as `listing_of` says.
pub fn changes_from_deltas(repo_path: &str, deltas: &Vec<DeltaInfo>) -> (r: Vec<CommitFileChange>)
    ensures
        changes_facts(r@) == listing_of(repo_path@, deltas@).changes,
{
    let mut changes: Vec<CommitFileChange> = Vec::new();
    let mut errors: usize = 0;
    let mut i: usize = 0;
    proof {
        assert(deltas@.take(0) =~= Seq::<DeltaInfo>::empty());
        assert(changes_facts(changes@) =~= Seq::empty());
    }
    while i < deltas.len()
        invariant
            i <= deltas@.len(),
            errors < MAX_FILE_ERRORS,
            listing_of(repo_path@, deltas@.take(i as int)) == (FileListing {
                changes: changes_facts(changes@),
                errors: errors as nat,
                stopped: false,
            }),
        decreases deltas.len() - i,
    {
        let stop = list_delta(repo_path, &mut changes, &mut errors, &deltas[i]);
        proof {
            assert(deltas@.take(i + 1).drop_last() =~= deltas@.take(i as int));
            assert(deltas@.take(i + 1).last() == deltas@[i as int]);
        }
        i = i + 1;
        if stop {
            proof {
                lemma_listing_stays_stopped(repo_path@, deltas@, i as int);
            }
            return changes;
        }
    }
    proof {
        assert(deltas@.take(i as int) =~= deltas@);
    }
    changes
}

/// Reads the delta at `i` of a diff: its kind, its paths, and its line
/// counts from its patch, which are only read for a delta that is listed.
fn read_delta(diff: &git2::Diff, i: usize) -> (r: Option<DeltaInfo>) {
    let delta = match diff_get_delta(diff, i) {
        Some(d) => d,
        None => return None,
    };
    let kind = delta_kind(&delta);
    let new_path = delta_new_path(&delta);
    let old_path = delta_old_path(&delta);
    let wanted = change_status(kind).is_some() && (new_path.is_some() || old_path.is_some());
    let stats = if wanted {
        match patch_from_diff(diff, i) {
            Ok(Some(patch)) => patch_counts(Some(patch_line_stats(&patch))),
            _ => patch_counts(None),
        }
    } else {
        None
    };
    Some(DeltaInfo { kind, new_path, old_path, stats })
}

/// The added and removed lines of a delta from what reading its patch gave:
/// `None` when there is no patch; with a patch, the second and third of its
/// line statistics (context, added, removed), or zero when they cannot be
/// read.
pub open spec fn spec_patch_counts(line_stats: Option<Result<(usize, usize, usize), git2::Error>>) -> Option<
    (usize, usize),
> {
    match line_stats {
        None => None,
        Some(Ok(counts)) => Some((counts.1, counts.2)),
        Some(Err(_)) => Some((0, 0)),
    }
}

pub fn patch_counts(line_stats: Option<Result<(usize, usize, usize), git2::Error>>) -> (r: Option<(usize, usize)>)
    ensures
        r == spec_patch_counts(line_stats),
{
    match line_stats {
        None => None,
        Some(Ok(counts)) => Some((counts.1, counts.2)),
        Some(Err(_)) => Some((0, 0)),
    }
}

/// Whether a text can be read as an object id: one to forty hexadecimal
/// digits.
pub open spec fn is_oid_text(s: Seq<char>) -> bool {
    0 < s.len() <= 40 && forall|i: int| 0 <= i < s.len() ==> is_hex_digit(#[trigger] s[i])
}

/// The files changed by the commit `commit_sha`, compared with the parent
/// that `base_parent` picks (the first, or nothing for a root commit, or
/// when the parent's tree cannot be read): the listing that
/// `listing_of` gives for the deltas of that diff under `repo_path`. An
/// empty id is refused with its own message; an id that is not one to forty
/// hexadecimal digits, or that names no commit, is an error.
pub fn get_commit_file_changes_static(
    repo: &git2::Repository,
    repo_path: &str,
    commit_sha: &str,
) -> (r: Result<Vec<CommitFileChange>, String>)
    ensures
        commit_sha@.len() == 0 ==> (r matches Err(m) && m@ == empty_sha_message()),
        !is_oid_text(commit_sha@) ==> r is Err,
        r matches Ok(v) ==> exists|ds: Seq<DeltaInfo>| changes_facts(v@) == #[trigger] listing_of(repo_path@, ds).changes,
{
    if commit_sha.unicode_len() == 0 {
        return Err(String::from_str("Empty commit SHA"));
    }
    let oid = match parse_oid(commit_sha) {
        Ok(o) => o,
        Err(e) => return Err(error_text(&e)),
    };
    let commit = match find_commit(repo, oid) {
        Ok(c) => c,
        Err(e) => return Err(error_text(&e)),
    };
    let commit_tree_value = match commit_tree(&commit) {
        Ok(t) => t,
        Err(e) => return Err(error_text(&e)),
    };
    let parent_tree = match base_parent(commit_parent_count(&commit)) {
        Some(index) => match commit_parent(&commit, index) {
            Ok(parent) => match commit_tree(&parent) {
                Ok(t) => Some(t),
                Err(_) => None,
            },
            Err(_) => None,
        },
        None => None,
    };
    let diff = match diff_trees(repo, parent_tree.as_ref(), &commit_tree_value) {
        Ok(d) => d,
        Err(e) => return Err(error_text(&e)),
    };
    let mut deltas: Vec<DeltaInfo> = Vec::new();
    let count: usize = diff_delta_count(&diff);
    let mut i: usize = 0;
    while i < count
        invariant
            i <= count,
        decreases count - i,
    {
        if let Some(d) = read_delta(&diff, i) {
            deltas.push(d);
        }
        i = i + 1;
    }
    Ok(changes_from_deltas(repo_path, &deltas))
}

/// Which parent a commit is compared with: the first when it has one, none
/// (the empty tree) for a root commit.
pub fn base_parent(parent_count: usize) -> (r: Option<usize>)
    ensures
        r == (if parent_count > 0 { Some(0usize) } else { None::<usize> }),
{
    if parent_count > 0 {
        Some(0)
    } else {
        None
    }
}

impl GitWorker {
    /// The last HEAD commit seen.
    pub fn last_head_commit_id(&self) -> (r: Option<&str>)
        ensures
            match r {
                Some(s) => self@.last_head_commit_id == Some(s@),
                None => self@.last_head_commit_id is None,
            },
    {
        match &self.last_head_commit_id {
            Some(s) => Some(s.as_str()),
            None => None,
        }
    }

    /// The last commit, whose files are shown in the last-commit mode.
    pub fn last_commit_id(&self) -> (r: Option<&str>)
        ensures
            match r {
                Some(s) => self@.last_commit_id == Some(s@),
                None => self@.last_commit_id is None,
            },
    {
        match &self.last_commit_id {
            Some(s) => Some(s.as_str()),
            None => None,
        }
    }

    /// The files of the last commit.
    pub fn last_commit_files(&self) -> (r: &Vec<FileDiff>)
        ensures
            r@ == self@.last_commit_files,
    {
        &self.last_commit_files
    }

    /// The view mode.
    pub fn current_view_mode(&self) -> (m: ViewMode)
        ensures
            m == self@.current_view_mode,
    {
        self.current_view_mode
    }

    /// The path of the repository.
    pub fn path(&self) -> (p: &str)
        ensures
            p@ == self@.path,
    {
        self.path.as_str()
    }

    /// Reads one step of the walk: the commit of the id, taken from the
    /// shared cache when it is there and otherwise read with its summary and
    /// its changed files.
    fn read_walk_step(&self, shared: &GitSharedState, item: Result<git2::Oid, git2::Error>) -> (step: WalkStep)
        ensures
            match step {
                WalkStep::Commit { sha, cached, .. } => is_commit_id(sha@) && match cached {
                    Some(c) => shared@.commits.contains_key(sha@) && same_commit(c, shared@.commits[sha@]),
                    None => !shared@.commits.contains_key(sha@),
                },
                WalkStep::Unreadable => true,
            },
    {
        let oid = match item {
            Err(_) => return WalkStep::Unreadable,
            Ok(o) => o,
        };
        let commit = match find_commit(&self.repo, oid) {
            Err(_) => return WalkStep::Unreadable,
            Ok(c) => c,
        };
        let sha = oid_text(&oid);
        match shared.get_cached_commit(sha.as_str()) {
            Some(cached) => WalkStep::Commit { sha, cached: Some(cached), summary: None, files: None },
            None => {
                let summary = commit_summary(&commit);
                let listing = get_commit_file_changes_static(&self.repo, self.path.as_str(), sha.as_str());
                new_walk_step(sha, summary, listing)
            },
        }
    }

    /// Up to `limit` commits from HEAD, newest first. HEAD is read first: a
    /// repository whose HEAD is unborn or does not name a commit has no
    /// history; otherwise the history is walked from HEAD, as
    /// `history_for_head` says.
    pub fn get_commit_history(&self, shared: &mut GitSharedState, limit: usize) -> (r: Result<
        Vec<CommitInfo>,
        String,
    >)
        ensures
            r matches Ok(v) ==> v@.len() <= limit,
            r matches Ok(v) ==> exists|steps: Seq<WalkStep>|
                commits_facts(v@) == #[trigger] history_of(limit as nat, steps).commits,
            final(shared)@ == (GitSharedStateView { commits: final(shared)@.commits, ..old(shared)@ }),
            forall|k: Seq<char>| #[trigger]
                old(shared)@.commits.contains_key(k) ==> final(shared)@.commits.contains_key(k)
                    && final(shared)@.commits[k] == old(shared)@.commits[k],
            commits_keyed(old(shared)@.commits) ==> commits_keyed(final(shared)@.commits),
            commits_keyed(old(shared)@.commits) ==> (r matches Ok(v) ==> forall|i: int|
                0 <= i < v@.len() ==> final(shared)@.commits.contains_key(#[trigger] v@[i].sha@)
                    && same_commit(v@[i], final(shared)@.commits[v@[i].sha@])
                    && is_commit_id(v@[i].sha@)),
    {
        let head = head_commit_text(&self.repo);
        self.history_for_head(shared, limit, head)
    }

    /// The history for what reading HEAD gave: with no commit there, success
    /// with no commits and nothing cached; with a commit, the walk from HEAD,
    /// newest first, as `walk_history` says.
    pub fn history_for_head(
        &self,
        shared: &mut GitSharedState,
        limit: usize,
        head_commit: Option<String>,
    ) -> (r: Result<Vec<CommitInfo>, String>)
        ensures
            head_commit is None ==> (r matches Ok(v) && v@.len() == 0) && final(shared)@ == old(shared)@,
            r matches Ok(v) ==> v@.len() <= limit,
            r matches Ok(v) ==> exists|steps: Seq<WalkStep>|
                commits_facts(v@) == #[trigger] history_of(limit as nat, steps).commits,
            final(shared)@ == (GitSharedStateView { commits: final(shared)@.commits, ..old(shared)@ }),
            forall|k: Seq<char>| #[trigger]
                old(shared)@.commits.contains_key(k) ==> final(shared)@.commits.contains_key(k)
                    && final(shared)@.commits[k] == old(shared)@.commits[k],
            commits_keyed(old(shared)@.commits) ==> commits_keyed(final(shared)@.commits),
            commits_keyed(old(shared)@.commits) ==> (r matches Ok(v) ==> forall|i: int|
                0 <= i < v@.len() ==> final(shared)@.commits.contains_key(#[trigger] v@[i].sha@)
                    && same_commit(v@[i], final(shared)@.commits[v@[i].sha@])
                    && is_commit_id(v@[i].sha@)),
    {
        match head_commit {
            None => {
                let commits: Vec<CommitInfo> = Vec::new();
                proof {
                    assert(commits_facts(commits@) =~= history_of(limit as nat, Seq::empty()).commits);
                }
                Ok(commits)
            },
            Some(_) => self.walk_history(shared, limit),
        }
    }

    /// Walks the history from HEAD, sorted by time, newest first, taking up
    /// to `limit` commits: what `history_of` gives for the steps of the walk,
    /// each commit found in the shared cache taken from there and every other
    /// one built (short id, summary or `<no message>`, changed files, none
    /// when they cannot be listed) and cached. With a cache that keeps each
    /// commit under its own id, every commit returned has a commit id and is
    /// in the cache. Failing to start the walk is an error.
    fn walk_history(&self, shared: &mut GitSharedState, limit: usize) -> (r: Result<Vec<CommitInfo>, String>)
        ensures
            r matches Ok(v) ==> v@.len() <= limit,
            r matches Ok(v) ==> exists|steps: Seq<WalkStep>|
                commits_facts(v@) == #[trigger] history_of(limit as nat, steps).commits,
            final(shared)@ == (GitSharedStateView { commits: final(shared)@.commits, ..old(shared)@ }),
            forall|k: Seq<char>| #[trigger]
                old(shared)@.commits.contains_key(k) ==> final(shared)@.commits.contains_key(k)
                    && final(shared)@.commits[k] == old(shared)@.commits[k],
            commits_keyed(old(shared)@.commits) ==> commits_keyed(final(shared)@.commits),
            commits_keyed(old(shared)@.commits) ==> (r matches Ok(v) ==> forall|i: int|
                0 <= i < v@.len() ==> final(shared)@.commits.contains_key(#[trigger] v@[i].sha@)
                    && same_commit(v@[i], final(shared)@.commits[v@[i].sha@])
                    && is_commit_id(v@[i].sha@)),
    {
        let mut commits: Vec<CommitInfo> = Vec::new();
        let mut walk = match repo_revwalk(&self.repo) {
            Ok(w) => w,
            Err(e) => return Err(error_text(&e)),
        };
        if let Err(e) = revwalk_push_head(&mut walk) {
            return Err(error_text(&e));
        }
        if let Err(e) = revwalk_sort_by_time(&mut walk) {
            return Err(error_text(&e));
        }
        let ghost start = shared@;
        let ghost mut seen: Seq<WalkStep> = Seq::empty();
        let mut errors: usize = 0;
        proof {
            assert(commits_facts(commits@) =~= Seq::empty());
        }
        loop
            invariant_except_break
                errors < MAX_HISTORY_ERRORS,
                commits@.len() <= limit,
                history_of(limit as nat, seen) == (HistoryWalk {
                    commits: commits_facts(commits@),
                    errors: errors as nat,
                    stopped: false,
                }),
            invariant
                commits@.len() <= limit,
                history_of(limit as nat, seen).commits == commits_facts(commits@),
                shared@ == (GitSharedStateView { commits: shared@.commits, ..start }),
                forall|k: Seq<char>| #[trigger]
                    start.commits.contains_key(k) ==> shared@.commits.contains_key(k)
                        && shared@.commits[k] == start.commits[k],
                commits_keyed(start.commits) ==> commits_keyed(shared@.commits),
                commits_keyed(start.commits) ==> forall|i: int|
                    0 <= i < commits@.len() ==> shared@.commits.contains_key(#[trigger] commits@[i].sha@)
                        && same_commit(commits@[i], shared@.commits[commits@[i].sha@])
                        && is_commit_id(commits@[i].sha@),
            decreases limit - commits@.len(), MAX_HISTORY_ERRORS - errors,
        {
            let next = revwalk_next(&mut walk);
            let item = match next {
                None => break,
                Some(s) => s,
            };
            if commits.len() >= limit {
                break;
            }
            let step = self.read_walk_step(shared, item);
            let ghost step_copy = step;
            let ghost before = commits@;
            let before_len: usize = commits.len();
            let is_new = match &step {
                WalkStep::Commit { cached: None, .. } => true,
                _ => false,
            };
            let stop = take_walk_step(limit, &mut commits, &mut errors, step);
            proof {
                assert(seen.push(step_copy).drop_last() =~= seen);
                seen = seen.push(step_copy);
                if commits@.len() > before.len() {
                    assert(commits@.drop_last() =~= before);
                }
            }
            if is_new && commits.len() > before_len {
                let last = commits.len() - 1;
                let copy = commits[last].duplicate();
                let key = copy.sha.clone();
                proof {
                    assert(key@ == commits@[last as int].sha@);
                }
                shared.cache_commit(key, copy);
                proof {
                    if commits_keyed(start.commits) {
                        assert forall|i: int| 0 <= i < commits@.len() implies shared@.commits.contains_key(
                            #[trigger] commits@[i].sha@,
                        ) && same_commit(commits@[i], shared@.commits[commits@[i].sha@]) && is_commit_id(
                            commits@[i].sha@,
                        ) by {
                            if i < last {
                                assert(commits@[i] == before[i]);
                            }
                        }
                    }
                }
            } else {
                proof {
                    if commits_keyed(start.commits) && commits@.len() > before.len() {
                        if let WalkStep::Commit { sha, cached: Some(c), .. } = step_copy {
                            assert(commits@.last() == c);
                            assert(shared@.commits.contains_key(sha@));
                            assert(shared@.commits[sha@].sha@ == sha@);
                            assert(c.sha@ == sha@);
                        }
                        assert forall|i: int| 0 <= i < commits@.len() implies shared@.commits.contains_key(
                            #[trigger] commits@[i].sha@,
                        ) && same_commit(commits@[i], shared@.commits[commits@[i].sha@]) && is_commit_id(
                            commits@[i].sha@,
                        ) by {
                            if i < before.len() {
                                assert(commits@[i] == before[i]);
                            }
                        }
                    }
                }
            }
            if stop {
                break;
            }
        }
        proof {
            assert(commits_facts(commits@) == history_of(limit as nat, seen).commits);
        }
        Ok(commits)
    }
}

/// The message of a commit without a summary.
pub open spec fn no_message_text() -> Seq<char> {
    "<no message>"@
}

/// What the walk over the history gives at one step: an id or a commit that
/// could not be read, or a commit with its id and, when the shared cache
/// holds it, the cached copy; otherwise its summary, if any, and its changed
/// files, when they could be listed.
#[derive(Debug)]
pub enum WalkStep {
    Unreadable,
    Commit { sha: String, cached: Option<CommitInfo>, summary: Option<String>, files: Option<Vec<CommitFileChange>> },
}

/// The step for a commit that is not cached: its id, its summary, and its
/// changed files when listing them succeeded.
pub fn new_walk_step(sha: String, summary: Option<String>, listing: Result<Vec<CommitFileChange>, String>) -> (step: WalkStep)
    ensures
        step == (WalkStep::Commit {
            sha,
            cached: None,
            summary,
            files: match listing {
                Ok(v) => Some(v),
                Err(_) => None,
            },
        }),
{
    let files = match listing {
        Ok(changes) => Some(changes),
        Err(_) => None,
    };
    WalkStep::Commit { sha, cached: None, summary, files }
}

/// A commit as plain values: id, short id, message and changed files.
pub open spec fn commit_facts(c: CommitInfo) -> (
    Seq<char>,
    Seq<char>,
    Seq<char>,
    Seq<(Seq<char>, FileChangeStatus, usize, usize)>,
) {
    (c.sha@, c.short_sha@, c.message@, changes_facts(c.files_changed@))
}

pub open spec fn commits_facts(s: Seq<CommitInfo>) -> Seq<
    (Seq<char>, Seq<char>, Seq<char>, Seq<(Seq<char>, FileChangeStatus, usize, usize)>),
> {
    s.map_values(|c: CommitInfo| commit_facts(c))
}

/// Where the walk over the history stands: the commits taken so far, the
/// errors met, and whether it has stopped.
pub struct HistoryWalk {
    pub commits: Seq<(Seq<char>, Seq<char>, Seq<char>, Seq<(Seq<char>, FileChangeStatus, usize, usize)>)>,
    pub errors: nat,
    pub stopped: bool,
}

/// One step of the walk taken in. Once `limit` commits are taken the walk
/// stops. A step that could not be read is an error, and at the fifth the
/// walk stops. A cached commit is taken as cached; any other is built with
/// the short form of its id, its summary or `<no message>`, and its changed
/// files or none.
pub open spec fn history_step(limit: nat, st: HistoryWalk, step: WalkStep) -> HistoryWalk {
    if st.stopped || st.commits.len() >= limit {
        HistoryWalk { stopped: true, ..st }
    } else {
        match step {
            WalkStep::Unreadable => HistoryWalk {
                errors: st.errors + 1,
                stopped: st.errors + 1 >= MAX_HISTORY_ERRORS,
                ..st
            },
            WalkStep::Commit { sha, cached, summary, files } => match cached {
                Some(c) => HistoryWalk { commits: st.commits.push(commit_facts(c)), ..st },
                None => HistoryWalk {
                    commits: st.commits.push(
                        (
                            sha@,
                            short_id(sha@),
                            match summary {
                                Some(m) => m@,
                                None => no_message_text(),
                            },
                            match files {
                                Some(f) => changes_facts(f@),
                                None => Seq::empty(),
                            },
                        ),
                    ),
                    ..st
                },
            },
        }
    }
}

/// The walk after the steps `steps`, in order.
pub open spec fn history_of(limit: nat, steps: Seq<WalkStep>) -> HistoryWalk
    decreases steps.len(),
{
    if steps.len() == 0 {
        HistoryWalk { commits: Seq::empty(), errors: 0, stopped: false }
    } else {
        history_step(limit, history_of(limit, steps.drop_last()), steps.last())
    }
}

/// Takes one step of the walk into the commits and errors so far; reports
/// whether the walk stops.
fn take_walk_step(limit: usize, commits: &mut Vec<CommitInfo>, errors: &mut usize, step: WalkStep) -> (stop: bool)
    requires
        *old(errors) < MAX_HISTORY_ERRORS,
        old(commits)@.len() <= limit,
    ensures
        (HistoryWalk { commits: commits_facts(final(commits)@), errors: *final(errors) as nat, stopped: stop })
            == history_step(
            limit as nat,
            HistoryWalk { commits: commits_facts(old(commits)@), errors: *old(errors) as nat, stopped: false },
            step,
        ),
        final(commits)@.len() <= limit,
        stop || *final(errors) < MAX_HISTORY_ERRORS,
        final(commits)@.len() == old(commits)@.len() || (final(commits)@.len() == old(commits)@.len() + 1
            && final(commits)@.drop_last() == old(commits)@ && *final(errors) == *old(errors)),
        final(commits)@.len() == old(commits)@.len() ==> final(commits)@ == old(commits)@ && (stop
            || *final(errors) == *old(errors) + 1),
        match step {
            WalkStep::Commit { sha, cached, .. } => final(commits)@.len() == old(commits)@.len() + 1 ==> match cached {
                Some(c) => final(commits)@.last() == c,
                None => final(commits)@.last().sha@ == sha@ && final(commits)@.last().short_sha@ == short_id(sha@),
            },
            WalkStep::Unreadable => true,
        },
{
    let ghost before = commits@;
    if commits.len() >= limit {
        return true;
    }
    match step {
        WalkStep::Unreadable => {
            *errors = *errors + 1;
            *errors >= MAX_HISTORY_ERRORS
        },
        WalkStep::Commit { sha, cached, summary, files } => {
            let commit = match cached {
                Some(c) => c,
                None => {
                    let short = short_sha(sha.as_str());
                    let message = match summary {
                        Some(m) => m,
                        None => String::from_str("<no message>"),
                    };
                    let files_changed = match files {
                        Some(f) => f,
                        None => Vec::new(),
                    };
                    CommitInfo { sha, short_sha: short, message, files_changed }
                },
            };
            commits.push(commit);
            proof {
                assert(commits_facts(commits@) =~= commits_facts(before).push(commit_facts(commits@.last())));
                assert(commits@.drop_last() =~= before);
                assert(changes_facts(Seq::<CommitFileChange>::empty()) =~= Seq::empty());
            }
            false
        },
    }
}

/// The commits taken from the steps of a walk over the history, as
/// `history_of` says, at most `limit` of them.
pub fn history_from_walk(limit: usize, steps: Vec<WalkStep>) -> (r: Vec<CommitInfo>)
    ensures
        commits_facts(r@) == history_of(limit as nat, steps@).commits,
{
    let ghost all = steps@;
    let mut commits: Vec<CommitInfo> = Vec::new();
    let mut errors: usize = 0;
    let n: usize = steps.len();
    let mut rest = steps;
    proof {
        assert(all.take(0) =~= Seq::<WalkStep>::empty());
        assert(commits_facts(commits@) =~= Seq::empty());
    }
    let mut i: usize = 0;
    while rest.len() > 0
        invariant
            i + rest@.len() == all.len(),
            all == steps@,
            all.len() == n,
            rest@ == all.skip(i as int),
            errors < MAX_HISTORY_ERRORS,
            commits@.len() <= limit,
            history_of(limit as nat, all.take(i as int)) == (HistoryWalk {
                commits: commits_facts(commits@),
                errors: errors as nat,
                stopped: false,
            }),
        decreases rest.len(),
    {
        let step = rest.remove(0);
        proof {
            assert(step == all[i as int]);
            assert(rest@ =~= all.skip(i + 1));
            assert(all.take(i + 1).drop_last() =~= all.take(i as int));
            assert(all.take(i + 1).last() == all[i as int]);
        }
        let ghost prev = history_of(limit as nat, all.take(i as int));
        let stop = take_walk_step(limit, &mut commits, &mut errors, step);
        proof {
            assert(history_of(limit as nat, all.take(i + 1)) == history_step(limit as nat, prev, all[i as int]));
        }
        i = i + 1;
        if stop {
            proof {
                lemma_history_stays_stopped(limit as nat, all, i as int);
            }
            return commits;
        }
    }
    proof {
        assert(all.take(i as int) =~= all);
    }
    commits
}

/// Once the walk has stopped, further steps change nothing.
proof fn lemma_history_stays_stopped(limit: nat, steps: Seq<WalkStep>, i: int)
    requires
        0 <= i <= steps.len(),
        history_of(limit, steps.take(i)).stopped,
    ensures
        history_of(limit, steps) == history_of(limit, steps.take(i)),
    decreases steps.len() - i,
{
    if i < steps.len() {
        assert(steps.take(i + 1).drop_last() =~= steps.take(i));
        assert(steps.take(i + 1).last() == steps[i]);
        lemma_history_stays_stopped(limit, steps, i + 1);
    } else {
        assert(steps.take(i) =~= steps);
    }
}

// ---------------------------------------------------------------- laws

/// When every step of the walk can be read, the history holds as many
/// commits as were walked, up to the limit, and no error is counted.
pub proof fn law_history_takes_every_readable_commit(limit: nat, steps: Seq<WalkStep>)
    requires
        forall|i: int| 0 <= i < steps.len() ==> !(#[trigger] steps[i] is Unreadable),
    ensures
        history_of(limit, steps).commits.len() == (if steps.len() < limit { steps.len() } else { limit }),
        history_of(limit, steps).errors == 0,
        history_of(limit, steps).stopped ==> history_of(limit, steps).commits.len() >= limit,
    decreases steps.len(),
{
    if steps.len() > 0 {
        let rest = steps.drop_last();
        assert forall|i: int| 0 <= i < rest.len() implies !(#[trigger] rest[i] is Unreadable) by {
            assert(rest[i] == steps[i]);
        }
        law_history_takes_every_readable_commit(limit, rest);
        assert(!(steps[steps.len() - 1] is Unreadable));
    }
}

/// A delta that is listed without error: a kind that is not skipped, a path,
/// and line counts from its patch.
pub open spec fn listable_delta(d: DeltaInfo) -> bool {
    &&& spec_change_status(d.kind) is Some
    &&& delta_path(d) is Some
    &&& d.stats is Some
}

/// The line counts a patch gives a delta are its added and removed lines,
/// the second and third of the patch's line statistics; with no patch there
/// are none.
pub proof fn law_patch_counts_are_added_and_removed(stats: (usize, usize, usize))
    ensures
        spec_patch_counts(Some(Ok(stats))) == Some((stats.1, stats.2)),
        spec_patch_counts(None) is None,
{
}

/// When every delta can be listed, the listing has one change per delta, in
/// order: under the delta's path joined to the repository path, with its
/// status, and with exactly the added and removed lines its patch gave.
pub proof fn law_listing_keeps_each_delta(repo_path: Seq<char>, ds: Seq<DeltaInfo>)
    requires
        forall|i: int| 0 <= i < ds.len() ==> listable_delta(#[trigger] ds[i]),
    ensures
        listing_of(repo_path, ds).changes.len() == ds.len(),
        listing_of(repo_path, ds).errors == 0,
        !listing_of(repo_path, ds).stopped,
        forall|i: int|
            0 <= i < ds.len() ==> listing_of(repo_path, ds).changes[i] == (
                joined_path(repo_path, delta_path(#[trigger] ds[i])->Some_0),
                spec_change_status(ds[i].kind)->Some_0,
                (ds[i].stats->Some_0).0,
                (ds[i].stats->Some_0).1,
            ),
    decreases ds.len(),
{
    if ds.len() > 0 {
        let rest = ds.drop_last();
        assert forall|i: int| 0 <= i < rest.len() implies listable_delta(#[trigger] rest[i]) by {
            assert(rest[i] == ds[i]);
        }
        law_listing_keeps_each_delta(repo_path, rest);
        assert(listable_delta(ds[ds.len() - 1]));
        assert forall|i: int| 0 <= i < ds.len() implies listing_of(repo_path, ds).changes[i] == (
            joined_path(repo_path, delta_path(#[trigger] ds[i])->Some_0),
            spec_change_status(ds[i].kind)->Some_0,
            (ds[i].stats->Some_0).0,
            (ds[i].stats->Some_0).1,
        ) by {
            if i < rest.len() {
                assert(rest[i] == ds[i]);
            }
        }
    }
}

/// A commit's listing holds at most one change per delta, and errors only
/// stop it: once ten deltas could not be listed, nothing more is added.
pub proof fn law_listing_bounded(repo_path: Seq<char>, ds: Seq<DeltaInfo>)
    ensures
        listing_of(repo_path, ds).changes.len() <= ds.len(),
        listing_of(repo_path, ds).errors <= MAX_FILE_ERRORS,
        listing_of(repo_path, ds).stopped <==> listing_of(repo_path, ds).errors == MAX_FILE_ERRORS,
    decreases ds.len(),
{
    if ds.len() > 0 {
        law_listing_bounded(repo_path, ds.drop_last());
    }
}

/// Each kind of delta is shown as what it is: added, deleted, modified and
/// renamed files as such, copies and type changes as modifications, and
/// ignored and untracked files not at all.
pub proof fn law_delta_kinds_shown(kind: DeltaKind)
    ensures
        kind == DeltaKind::Added ==> spec_change_status(kind) == Some(FileChangeStatus::Added),
        kind == DeltaKind::Deleted ==> spec_change_status(kind) == Some(FileChangeStatus::Deleted),
        kind == DeltaKind::Modified ==> spec_change_status(kind) == Some(FileChangeStatus::Modified),
        kind == DeltaKind::Renamed ==> spec_change_status(kind) == Some(FileChangeStatus::Renamed),
        kind == DeltaKind::Copied ==> spec_change_status(kind) == Some(FileChangeStatus::Modified),
        kind == DeltaKind::Typechange ==> spec_change_status(kind) == Some(FileChangeStatus::Modified),
        (kind == DeltaKind::Ignored || kind == DeltaKind::Untracked) <==> spec_change_status(kind) is None,
{
}

/// A commit that is not cached is taken into the history with the files
/// listed for it: the walk gains one commit, whose changed files are that
/// listing (none when the listing failed), under its own id and short id.
pub proof fn law_built_commit_lists_its_files(
    limit: nat,
    st: HistoryWalk,
    sha: String,
    summary: Option<String>,
    files: Option<Vec<CommitFileChange>>,
)
    requires
        !st.stopped,
        st.commits.len() < limit,
    ensures
        ({
            let after = history_step(limit, st, WalkStep::Commit { sha, cached: None, summary, files });
            &&& after.commits.len() == st.commits.len() + 1
            &&& after.commits.drop_last() == st.commits
            &&& after.commits.last().0 == sha@
            &&& after.commits.last().1 == short_id(sha@)
            &&& after.commits.last().3 == match files {
                Some(f) => changes_facts(f@),
                None => Seq::empty(),
            }
            &&& !after.stopped
        }),
{
    let after = history_step(limit, st, WalkStep::Commit { sha, cached: None, summary, files });
    assert(after.commits.drop_last() =~= st.commits);
}

/// A cached commit is taken into the history as it was cached.
pub proof fn law_cached_commit_taken_as_cached(limit: nat, st: HistoryWalk, sha: String, c: CommitInfo)
    requires
        !st.stopped,
        st.commits.len() < limit,
    ensures
        history_step(limit, st, WalkStep::Commit { sha, cached: Some(c), summary: None, files: None }).commits
            == st.commits.push(commit_facts(c)),
{
}

/// A file new, modified or deleted in the working tree is a working-tree
/// change; one new, modified, deleted, renamed or retyped in the index is a
/// staged change; a file in a dirty directory is a dirty-directory change.
pub proof fn law_placement_of_status_bits(status: Status, in_dirty_directory: bool)
    ensures
        status.has(WT_NEW) ==> spec_placement(status, in_dirty_directory).working_tree,
        status.has(WT_MODIFIED) ==> spec_placement(status, in_dirty_directory).working_tree,
        status.has(WT_DELETED) ==> spec_placement(status, in_dirty_directory).working_tree,
        !status.has(WT_NEW) && !status.has(WT_MODIFIED) && !status.has(WT_DELETED)
            ==> !spec_placement(status, in_dirty_directory).working_tree,
        status.has(INDEX_NEW) ==> spec_placement(status, in_dirty_directory).staged,
        status.has(INDEX_MODIFIED) ==> spec_placement(status, in_dirty_directory).staged,
        status.has(INDEX_DELETED) ==> spec_placement(status, in_dirty_directory).staged,
        status.has(INDEX_RENAMED) ==> spec_placement(status, in_dirty_directory).staged,
        status.has(INDEX_TYPECHANGE) ==> spec_placement(status, in_dirty_directory).staged,
        spec_placement(status, in_dirty_directory).dirty_directory == in_dirty_directory,
{
}

/// The last entry of a `git status` reading that is deleted in the working
/// tree ends the working-tree list, under its path and with its status.
pub proof fn law_deleted_file_is_a_change(repo_path: Seq<char>, es: Seq<StatusEntry>)
    requires
        es.len() > 0,
        es.last().bits & WT_DELETED != 0,
    ensures
        status_lists(repo_path, es).0.len() == status_lists(repo_path, es.drop_last()).0.len() + 1,
        status_lists(repo_path, es).0.last() == (joined_path(repo_path, es.last().path@), es.last().bits
            & ALL_STATUS_BITS),
{
    let b = es.last().bits;
    assert((b & ALL_STATUS_BITS) & WT_DELETED != 0) by (bit_vector)
        requires
            b & 512u32 != 0,
            ALL_STATUS_BITS == 65439u32,
            WT_DELETED == 512u32,
    ;
}

/// Reading the same HEAD again reports no change and changes nothing.
pub proof fn law_head_change_settles(v: GitWorkerView, current: Option<Seq<char>>)
    ensures
        spec_head_change(spec_head_change(v, current).0, current) == (spec_head_change(v, current).0, false),
{
}

/// After HEAD is read, the last HEAD seen is what was read, and the last
/// commit follows it whenever a change is reported.
pub proof fn law_head_change_records(v: GitWorkerView, current: Option<Seq<char>>)
    ensures
        spec_head_change(v, current).0.last_head_commit_id == current,
        spec_head_change(v, current).1 ==> spec_head_change(v, current).0.last_commit_id == current,
{
}

/// The short id is the id's first seven characters, or the whole id when it
/// is shorter.
pub proof fn law_short_id_is_prefix(sha: Seq<char>)
    ensures
        short_id(sha).len() == if sha.len() < 7 { sha.len() } else { 7 },
        has_prefix(sha, short_id(sha)),
{
    if sha.len() < 7 {
        assert(sha.subrange(0, sha.len() as int) =~= sha);
    } else {
        assert(sha.subrange(0, 7) =~= short_id(sha));
    }
}

/// A status update is tried at most three times: no retry is asked for at
/// or after the last attempt, and retries wait longer each time.
pub proof fn law_retries_are_bounded(attempt: u32, msg: Seq<char>)
    requires
        1 <= attempt,
    ensures
        attempt >= UPDATE_ATTEMPTS ==> spec_retry_step(attempt, msg) == RetryStep::GiveUp,
        spec_retry_step(attempt, msg) matches RetryStep::RetryAfterMillis(ms) ==> ms == 100 * attempt,
{
}

/// The view mode shows working-tree changes whenever there are any, and the
/// last commit only when there is nothing else.
pub proof fn law_view_mode_priority(has_changed: bool, has_dirty: bool, has_staged: bool)
    ensures
        has_changed ==> spec_view_mode(has_changed, has_dirty, has_staged) == ViewMode::WorkingTree,
        (spec_view_mode(has_changed, has_dirty, has_staged) == ViewMode::LastCommit) == (!has_changed
            && !has_dirty && !has_staged),
{
}

/// Every diff line is counted at most once, as an addition or as a removal.
pub proof fn law_line_counts_bounded(lines: Seq<String>)
    ensures
        line_changes(lines, lines.len() as int).0 + line_changes(lines, lines.len() as int).1 <= lines.len(),
{
    lemma_line_changes_bound(lines, lines.len() as int);
}

} // verus!
