//! The data that the git side hands to the user interface: file diffs with
//! their status bits, the changed-file tree, commits and repository snapshots.
use vstd::prelude::*;

verus! {

/// The status bits of a file, with the values of libgit2's status flags.
#[derive(Debug, Clone, Copy, PartialEq, Eq, Structural)]
pub struct Status {
    pub bits: u32,
}

pub const INDEX_NEW: u32 = 1;
pub const INDEX_MODIFIED: u32 = 2;
pub const INDEX_DELETED: u32 = 4;
pub const INDEX_RENAMED: u32 = 8;
pub const INDEX_TYPECHANGE: u32 = 16;
pub const WT_NEW: u32 = 128;
pub const WT_MODIFIED: u32 = 256;
pub const WT_DELETED: u32 = 512;
pub const WT_TYPECHANGE: u32 = 1024;
pub const WT_RENAMED: u32 = 2048;
pub const WT_UNREADABLE: u32 = 4096;
pub const IGNORED: u32 = 16384;
pub const CONFLICTED: u32 = 32768;

/// All the status flags that exist.
pub const ALL_STATUS_BITS: u32 = 65439;

impl Status {
    pub open spec fn has(self, flag: u32) -> bool {
        self.bits & flag != 0
    }

    /// The status with the given bits, unknown bits dropped.
    pub fn from_bits_truncate(bits: u32) -> (s: Status)
        ensures
            s.bits == bits & ALL_STATUS_BITS,
    {
        Status { bits: bits & ALL_STATUS_BITS }
    }

    pub fn is_wt_new(&self) -> (r: bool)
        ensures
            r == self.has(WT_NEW),
    {
        self.bits & WT_NEW != 0
    }

    pub fn is_wt_modified(&self) -> (r: bool)
        ensures
            r == self.has(WT_MODIFIED),
    {
        self.bits & WT_MODIFIED != 0
    }

    pub fn is_wt_deleted(&self) -> (r: bool)
        ensures
            r == self.has(WT_DELETED),
    {
        self.bits & WT_DELETED != 0
    }

    pub fn is_index_new(&self) -> (r: bool)
        ensures
            r == self.has(INDEX_NEW),
    {
        self.bits & INDEX_NEW != 0
    }

    pub fn is_index_modified(&self) -> (r: bool)
        ensures
            r == self.has(INDEX_MODIFIED),
    {
        self.bits & INDEX_MODIFIED != 0
    }

    pub fn is_index_deleted(&self) -> (r: bool)
        ensures
            r == self.has(INDEX_DELETED),
    {
        self.bits & INDEX_DELETED != 0
    }

    pub fn is_index_renamed(&self) -> (r: bool)
        ensures
            r == self.has(INDEX_RENAMED),
    {
        self.bits & INDEX_RENAMED != 0
    }

    pub fn is_index_typechange(&self) -> (r: bool)
        ensures
            r == self.has(INDEX_TYPECHANGE),
    {
        self.bits & INDEX_TYPECHANGE != 0
    }
}

/// The diff of one file: its path, status, diff lines and line counts.
#[derive(Debug, Clone)]
pub struct FileDiff {
    pub path: String,
    pub status: Status,
    pub line_strings: Vec<String>,
    pub additions: usize,
    pub deletions: usize,
}

/// A node of the changed-file tree.
#[derive(Debug)]
pub struct TreeNode {
    pub name: String,
    pub path: String,
    pub is_dir: bool,
    pub children: Vec<TreeNode>,
    pub file_diff: Option<FileDiff>,
}

/// How a file changed in a commit.
#[derive(Debug, Clone, Copy, PartialEq, Eq, Structural)]
pub enum FileChangeStatus {
    Added,
    Modified,
    Deleted,
    Renamed,
}

/// One file changed by a commit.
#[derive(Debug, Clone)]
pub struct CommitFileChange {
    pub path: String,
    pub status: FileChangeStatus,
    pub additions: usize,
    pub deletions: usize,
}

/// A commit: its hash, short hash, summary and changed files.
#[derive(Debug, Clone)]
pub struct CommitInfo {
    pub sha: String,
    pub short_sha: String,
    pub message: String,
    pub files_changed: Vec<CommitFileChange>,
}

/// Which set of changes is on display.
#[derive(Debug, Clone, Copy, PartialEq, Eq, Structural)]
pub enum ViewMode {
    WorkingTree,
    Staged,
    DirtyDirectory,
    LastCommit,
}

/// A snapshot of the repository as the worker saw it.
#[derive(Debug)]
pub struct GitRepo {
    pub path: String,
    pub changed_files: Vec<FileDiff>,
    pub staged_files: Vec<FileDiff>,
    pub dirty_directory_files: Vec<FileDiff>,
    pub last_commit_files: Vec<FileDiff>,
    pub last_commit_id: Option<String>,
    pub current_view_mode: ViewMode,
    pub repo_name: String,
    pub branch_name: String,
    pub commit_info: (String, String),
    pub total_stats: (usize, usize, usize),
}

/// A copy of a list of strings.
pub fn copy_strings(v: &Vec<String>) -> (r: Vec<String>)
    ensures
        r@ == v@,
{
    let mut r: Vec<String> = Vec::new();
    let mut i: usize = 0;
    while i < v.len()
        invariant
            i <= v@.len(),
            r@ == v@.subrange(0, i as int),
        decreases v@.len() - i,
    {
        r.push(v[i].clone());
        i = i + 1;
    }
    r
}

/// A copy of an optional string.
pub fn copy_opt_text(o: &Option<String>) -> (r: Option<String>)
    ensures
        r == *o,
{
    match o {
        Some(s) => Some(s.clone()),
        None => None,
    }
}

/// Two file diffs hold the same data.
pub open spec fn same_file_diff(a: FileDiff, b: FileDiff) -> bool {
    &&& a.path == b.path
    &&& a.status == b.status
    &&& a.line_strings@ == b.line_strings@
    &&& a.additions == b.additions
    &&& a.deletions == b.deletions
}

/// Two lists of file diffs hold the same data.
pub open spec fn same_file_diffs(a: Seq<FileDiff>, b: Seq<FileDiff>) -> bool {
    a.len() == b.len() && forall|i: int| 0 <= i < a.len() ==> same_file_diff(#[trigger] a[i], b[i])
}

/// Two commits hold the same data.
pub open spec fn same_commit(a: CommitInfo, b: CommitInfo) -> bool {
    &&& a.sha == b.sha
    &&& a.short_sha == b.short_sha
    &&& a.message == b.message
    &&& a.files_changed@ == b.files_changed@
}

/// Two repository snapshots hold the same data.
pub open spec fn same_repo(a: GitRepo, b: GitRepo) -> bool {
    &&& a.path == b.path
    &&& same_file_diffs(a.changed_files@, b.changed_files@)
    &&& same_file_diffs(a.staged_files@, b.staged_files@)
    &&& same_file_diffs(a.dirty_directory_files@, b.dirty_directory_files@)
    &&& same_file_diffs(a.last_commit_files@, b.last_commit_files@)
    &&& a.last_commit_id == b.last_commit_id
    &&& a.current_view_mode == b.current_view_mode
    &&& a.repo_name == b.repo_name
    &&& a.branch_name == b.branch_name
    &&& a.commit_info == b.commit_info
    &&& a.total_stats == b.total_stats
}

impl FileDiff {
    /// A field-by-field copy.
    pub fn duplicate(&self) -> (r: FileDiff)
        ensures
            same_file_diff(r, *self),
    {
        FileDiff {
            path: self.path.clone(),
            status: self.status,
            line_strings: copy_strings(&self.line_strings),
            additions: self.additions,
            deletions: self.deletions,
        }
    }
}

/// A copy of a list of file diffs.
pub fn copy_file_diffs(v: &Vec<FileDiff>) -> (r: Vec<FileDiff>)
    ensures
        same_file_diffs(r@, v@),
{
    let mut r: Vec<FileDiff> = Vec::new();
    let mut i: usize = 0;
    while i < v.len()
        invariant
            i <= v@.len(),
            same_file_diffs(r@, v@.subrange(0, i as int)),
        decreases v@.len() - i,
    {
        r.push(v[i].duplicate());
        i = i + 1;
    }
    r
}

impl CommitFileChange {
    /// A field-by-field copy.
    pub fn duplicate(&self) -> (r: CommitFileChange)
        ensures
            r == *self,
    {
        CommitFileChange {
            path: self.path.clone(),
            status: self.status,
            additions: self.additions,
            deletions: self.deletions,
        }
    }
}

impl CommitInfo {
    /// A field-by-field copy.
    pub fn duplicate(&self) -> (r: CommitInfo)
        ensures
            same_commit(r, *self),
    {
        let mut files: Vec<CommitFileChange> = Vec::new();
        let mut i: usize = 0;
        while i < self.files_changed.len()
            invariant
                i <= self.files_changed@.len(),
                files@ == self.files_changed@.subrange(0, i as int),
            decreases self.files_changed@.len() - i,
        {
            files.push(self.files_changed[i].duplicate());
            i = i + 1;
        }
        assert(files@ =~= self.files_changed@);
        CommitInfo {
            sha: self.sha.clone(),
            short_sha: self.short_sha.clone(),
            message: self.message.clone(),
            files_changed: files,
        }
    }
}

impl GitRepo {
    /// A field-by-field copy.
    pub fn duplicate(&self) -> (r: GitRepo)
        ensures
            same_repo(r, *self),
    {
        GitRepo {
            path: self.path.clone(),
            changed_files: copy_file_diffs(&self.changed_files),
            staged_files: copy_file_diffs(&self.staged_files),
            dirty_directory_files: copy_file_diffs(&self.dirty_directory_files),
            last_commit_files: copy_file_diffs(&self.last_commit_files),
            last_commit_id: copy_opt_text(&self.last_commit_id),
            current_view_mode: self.current_view_mode,
            repo_name: self.repo_name.clone(),
            branch_name: self.branch_name.clone(),
            commit_info: (self.commit_info.0.clone(), self.commit_info.1.clone()),
            total_stats: self.total_stats,
        }
    }
}

} // verus!
