//! The caches and error records that the git worker and the user interface
//! share, held in `scc` concurrent hash maps keyed by strings.
//!
//! Every change goes through `&mut self`: while a change is made nobody else
//! reads or writes the maps, which is what lets each operation state exactly
//! what the maps hold before and after it.
use vstd::prelude::*;
use crate::git::types::{same_commit, same_repo, CommitInfo, FileDiff, GitRepo};

verus! {

/// The concurrent hash map of `scc`.
#[verifier::external_type_specification]
#[verifier::external_body]
#[verifier::reject_recursive_types(K)]
#[verifier::reject_recursive_types(V)]
#[verifier::reject_recursive_types(H)]
pub struct ExSccHashMap<K, V, H: std::hash::BuildHasher>(scc::HashMap<K, V, H>);

// ---------------------------------------------------------------- what the maps hold

/// What a map from strings to strings holds.
pub uninterp spec fn text_entries(m: scc::HashMap<String, String>) -> Map<Seq<char>, Seq<char>>;

/// What a map from strings to timestamps holds.
pub uninterp spec fn stamp_entries(m: scc::HashMap<String, u64>) -> Map<Seq<char>, u64>;

/// What a map from strings to commits holds.
pub uninterp spec fn commit_entries(m: scc::HashMap<String, CommitInfo>) -> Map<Seq<char>, CommitInfo>;

/// What a map from strings to repository snapshots holds.
pub uninterp spec fn repo_entries(m: scc::HashMap<String, GitRepo>) -> Map<Seq<char>, GitRepo>;

/// What a map from strings to lists of file diffs holds.
pub uninterp spec fn diff_entries(m: scc::HashMap<String, Vec<FileDiff>>) -> Map<Seq<char>, Seq<FileDiff>>;

// ---------------------------------------------------------------- maps of strings

/// Calls `scc::HashMap::new`: the new map holds nothing.
#[verifier::external_body]
fn new_text_map() -> (m: scc::HashMap<String, String>)
    ensures
        text_entries(m).dom().is_empty(),
{
    scc::HashMap::new()
}

/// Calls `scc::HashMap::upsert`: afterwards `key` maps to `val` and every
/// other entry is as it was. The value it replaced, if any, is dropped.
#[verifier::external_body]
fn upsert_text(m: &mut scc::HashMap<String, String>, key: String, val: String)
    ensures
        text_entries(*final(m)) == text_entries(*old(m)).insert(key@, val@),
{
    m.upsert(key, val);
}

/// A copy of a stored string, handed to `scc::HashMap::read`.
fn copy_text(_key: &String, val: &String) -> (r: String)
    ensures
        r@ == val@,
{
    val.clone()
}

/// Calls `scc::HashMap::read` with `copy_text`: a copy of the value under
/// `key`, or `None` when there is none.
#[verifier::external_body]
fn read_text(m: &scc::HashMap<String, String>, key: &str) -> (r: Option<String>)
    ensures
        match r {
            Some(v) => text_entries(*m).contains_key(key@) && v@ == text_entries(*m)[key@],
            None => !text_entries(*m).contains_key(key@),
        },
{
    m.read(key, copy_text)
}

/// Calls `scc::HashMap::remove`: the entry under `key` is gone afterwards;
/// reports whether there was one.
#[verifier::external_body]
fn remove_text(m: &mut scc::HashMap<String, String>, key: &str) -> (removed: bool)
    ensures
        removed == text_entries(*old(m)).contains_key(key@),
        text_entries(*final(m)) == text_entries(*old(m)).remove(key@),
{
    m.remove(key).is_some()
}

/// Adds a copy of an entry to a list, handed to `scc::HashMap::scan`.
fn push_text_entry(list: &mut Vec<(String, String)>, key: &String, val: &String)
    ensures
        final(list)@.len() == old(list)@.len() + 1,
        forall|i: int| 0 <= i < old(list)@.len() ==> final(list)@[i] == old(list)@[i],
        final(list)@.last().0@ == key@,
        final(list)@.last().1@ == val@,
{
    list.push((key.clone(), val.clone()));
}

/// The list holds every entry of `entries` exactly once, in some order.
pub open spec fn lists_entries(list: Seq<(String, String)>, entries: Map<Seq<char>, Seq<char>>) -> bool {
    &&& forall|i: int|
        0 <= i < list.len() ==> entries.contains_key(#[trigger] list[i].0@) && entries[list[i].0@]
            == list[i].1@
    &&& forall|k: Seq<char>| entries.contains_key(k) ==> exists|i: int| 0 <= i < list.len() && #[trigger] list[i].0@ == k
    &&& forall|i: int, j: int| 0 <= i < j < list.len() ==> list[i].0@ != list[j].0@
}

/// Calls `scc::HashMap::scan` with `push_text_entry`: a copy of every entry.
/// `scan` visits every entry once when no other thread changes the map
/// meanwhile, which holding `m` borrowed ensures here; in which order it
/// visits them is not stated.
#[verifier::external_body]
fn text_entries_list(m: &scc::HashMap<String, String>) -> (r: Vec<(String, String)>)
    ensures
        lists_entries(r@, text_entries(*m)),
{
    let mut r: Vec<(String, String)> = Vec::new();
    m.scan(|k, v| push_text_entry(&mut r, k, v));
    r
}

/// Calls `scc::HashMap::clear`: the map holds nothing afterwards.
#[verifier::external_body]
fn clear_text(m: &mut scc::HashMap<String, String>)
    ensures
        text_entries(*final(m)).dom().is_empty(),
{
    m.clear()
}

/// Calls `scc::HashMap::is_empty`: whether the map holds nothing.
#[verifier::external_body]
fn text_map_is_empty(m: &scc::HashMap<String, String>) -> (r: bool)
    ensures
        r == (text_entries(*m).dom().is_empty()),
{
    m.is_empty()
}

// ---------------------------------------------------------------- maps of timestamps

/// Calls `scc::HashMap::new`: the new map holds nothing.
#[verifier::external_body]
fn new_stamp_map() -> (m: scc::HashMap<String, u64>)
    ensures
        stamp_entries(m).dom().is_empty(),
{
    scc::HashMap::new()
}

/// Calls `scc::HashMap::upsert`: afterwards `key` maps to `val` and every
/// other entry is as it was.
#[verifier::external_body]
fn upsert_stamp(m: &mut scc::HashMap<String, u64>, key: String, val: u64)
    ensures
        stamp_entries(*final(m)) == stamp_entries(*old(m)).insert(key@, val),
{
    m.upsert(key, val);
}

/// Calls `scc::HashMap::contains`: whether there is an entry under `key`.
#[verifier::external_body]
fn contains_stamp(m: &scc::HashMap<String, u64>, key: &str) -> (r: bool)
    ensures
        r == stamp_entries(*m).contains_key(key@),
{
    m.contains(key)
}

/// Calls `scc::HashMap::remove`: the entry under `key` is gone afterwards.
#[verifier::external_body]
fn remove_stamp(m: &mut scc::HashMap<String, u64>, key: &str)
    ensures
        stamp_entries(*final(m)) == stamp_entries(*old(m)).remove(key@),
{
    let _ = m.remove(key);
}

// ---------------------------------------------------------------- maps of commits

/// Calls `scc::HashMap::new`: the new map holds nothing.
#[verifier::external_body]
fn new_commit_map() -> (m: scc::HashMap<String, CommitInfo>)
    ensures
        commit_entries(m).dom().is_empty(),
{
    scc::HashMap::new()
}

/// Calls `scc::HashMap::upsert`: afterwards `key` maps to `val` and every
/// other entry is as it was.
#[verifier::external_body]
fn upsert_commit(m: &mut scc::HashMap<String, CommitInfo>, key: String, val: CommitInfo)
    ensures
        commit_entries(*final(m)) == commit_entries(*old(m)).insert(key@, val),
{
    m.upsert(key, val);
}

/// A copy of a stored commit, handed to `scc::HashMap::read`.
fn copy_commit(_key: &String, val: &CommitInfo) -> (r: CommitInfo)
    ensures
        same_commit(r, *val),
{
    val.duplicate()
}

/// Calls `scc::HashMap::read` with `copy_commit`: a copy of the commit under
/// `key`, or `None` when there is none.
#[verifier::external_body]
fn read_commit(m: &scc::HashMap<String, CommitInfo>, key: &str) -> (r: Option<CommitInfo>)
    ensures
        match r {
            Some(c) => commit_entries(*m).contains_key(key@) && same_commit(c, commit_entries(*m)[key@]),
            None => !commit_entries(*m).contains_key(key@),
        },
{
    m.read(key, copy_commit)
}

/// Calls `scc::HashMap::clear`: the map holds nothing afterwards.
#[verifier::external_body]
fn clear_commits(m: &mut scc::HashMap<String, CommitInfo>)
    ensures
        commit_entries(*final(m)).dom().is_empty(),
{
    m.clear()
}

// ---------------------------------------------------------------- maps of snapshots

/// Calls `scc::HashMap::new`: the new map holds nothing.
#[verifier::external_body]
fn new_repo_map() -> (m: scc::HashMap<String, GitRepo>)
    ensures
        repo_entries(m).dom().is_empty(),
{
    scc::HashMap::new()
}

/// Calls `scc::HashMap::upsert`: afterwards `key` maps to `val` and every
/// other entry is as it was.
#[verifier::external_body]
fn upsert_repo(m: &mut scc::HashMap<String, GitRepo>, key: String, val: GitRepo)
    ensures
        repo_entries(*final(m)) == repo_entries(*old(m)).insert(key@, val),
{
    m.upsert(key, val);
}

/// A copy of a stored snapshot, handed to `scc::HashMap::read`.
fn copy_repo(_key: &String, val: &GitRepo) -> (r: GitRepo)
    ensures
        same_repo(r, *val),
{
    val.duplicate()
}

/// Calls `scc::HashMap::read` with `copy_repo`: a copy of the snapshot under
/// `key`, or `None` when there is none.
#[verifier::external_body]
fn read_repo(m: &scc::HashMap<String, GitRepo>, key: &str) -> (r: Option<GitRepo>)
    ensures
        match r {
            Some(g) => repo_entries(*m).contains_key(key@) && same_repo(g, repo_entries(*m)[key@]),
            None => !repo_entries(*m).contains_key(key@),
        },
{
    m.read(key, copy_repo)
}

/// Calls `scc::HashMap::clear`: the map holds nothing afterwards.
#[verifier::external_body]
fn clear_repos(m: &mut scc::HashMap<String, GitRepo>)
    ensures
        repo_entries(*final(m)).dom().is_empty(),
{
    m.clear()
}

// ---------------------------------------------------------------- maps of file diffs

/// Calls `scc::HashMap::new`: the new map holds nothing.
#[verifier::external_body]
fn new_diff_map() -> (m: scc::HashMap<String, Vec<FileDiff>>)
    ensures
        diff_entries(m).dom().is_empty(),
{
    scc::HashMap::new()
}

/// Calls `scc::HashMap::clear`: the map holds nothing afterwards.
#[verifier::external_body]
fn clear_diffs(m: &mut scc::HashMap<String, Vec<FileDiff>>)
    ensures
        diff_entries(*final(m)).dom().is_empty(),
{
    m.clear()
}

/// A map with nothing in its domain is the empty map.
proof fn lemma_no_entries<K, V>(m: Map<K, V>)
    requires
        m.dom().is_empty(),
    ensures
        m == Map::<K, V>::empty(),
{
    assert(m =~= Map::empty());
}

// ---------------------------------------------------------------- git state

/// The key under which the current repository snapshot is kept.
pub open spec fn current_key() -> Seq<char> {
    "current"@
}

/// What the git side shares: the repository snapshot, the commit cache, the
/// file diff cache, the view mode and the error records.
pub struct GitSharedStateView {
    pub repos: Map<Seq<char>, GitRepo>,
    pub commits: Map<Seq<char>, CommitInfo>,
    pub file_diffs: Map<Seq<char>, Seq<FileDiff>>,
    pub view_mode: u8,
    pub errors: Map<Seq<char>, Seq<char>>,
}

/// Shared state of the git side.
pub struct GitSharedState {
    repo_data: scc::HashMap<String, GitRepo>,
    commit_cache: scc::HashMap<String, CommitInfo>,
    file_diff_cache: scc::HashMap<String, Vec<FileDiff>>,
    view_mode: u8,
    error_state: scc::HashMap<String, String>,
}

impl View for GitSharedState {
    type V = GitSharedStateView;

    closed spec fn view(&self) -> GitSharedStateView {
        GitSharedStateView {
            repos: repo_entries(self.repo_data),
            commits: commit_entries(self.commit_cache),
            file_diffs: diff_entries(self.file_diff_cache),
            view_mode: self.view_mode,
            errors: text_entries(self.error_state),
        }
    }
}

impl GitSharedState {
    /// Empty caches, no errors, the working-tree view mode.
    pub fn new() -> (s: GitSharedState)
        ensures
            s@ == (GitSharedStateView {
                repos: Map::empty(),
                commits: Map::empty(),
                file_diffs: Map::empty(),
                view_mode: 0,
                errors: Map::empty(),
            }),
    {
        let s = GitSharedState {
            repo_data: new_repo_map(),
            commit_cache: new_commit_map(),
            file_diff_cache: new_diff_map(),
            view_mode: 0,
            error_state: new_text_map(),
        };
        proof {
            lemma_no_entries(repo_entries(s.repo_data));
            lemma_no_entries(commit_entries(s.commit_cache));
            lemma_no_entries(diff_entries(s.file_diff_cache));
            lemma_no_entries(text_entries(s.error_state));
        }
        s
    }

    /// Keeps `repo` as the current repository snapshot.
    pub fn update_repo(&mut self, repo: GitRepo)
        ensures
            final(self)@ == (GitSharedStateView {
                repos: old(self)@.repos.insert(current_key(), repo),
                ..old(self)@
            }),
    {
        let key = String::from_str("current");
        upsert_repo(&mut self.repo_data, key, repo);
    }

    /// A copy of the current repository snapshot, if one was kept.
    pub fn get_repo(&self) -> (r: Option<GitRepo>)
        ensures
            match r {
                Some(g) => self@.repos.contains_key(current_key()) && same_repo(g, self@.repos[current_key()]),
                None => !self@.repos.contains_key(current_key()),
            },
    {
        read_repo(&self.repo_data, "current")
    }

    /// Keeps `commit` under its hash.
    pub fn cache_commit(&mut self, sha: String, commit: CommitInfo)
        ensures
            final(self)@ == (GitSharedStateView { commits: old(self)@.commits.insert(sha@, commit), ..old(self)@ }),
    {
        upsert_commit(&mut self.commit_cache, sha, commit);
    }

    /// A copy of the commit kept under `sha`, if any.
    pub fn get_cached_commit(&self, sha: &str) -> (r: Option<CommitInfo>)
        ensures
            match r {
                Some(c) => self@.commits.contains_key(sha@) && same_commit(c, self@.commits[sha@]),
                None => !self@.commits.contains_key(sha@),
            },
    {
        read_commit(&self.commit_cache, sha)
    }

    /// Records `error` under `key`, replacing an earlier one.
    pub fn set_error(&mut self, key: String, error: String)
        ensures
            final(self)@ == (GitSharedStateView { errors: old(self)@.errors.insert(key@, error@), ..old(self)@ }),
    {
        upsert_text(&mut self.error_state, key, error);
    }

    /// Forgets the error under `key`; reports whether there was one.
    pub fn clear_error(&mut self, key: &str) -> (r: bool)
        ensures
            r == old(self)@.errors.contains_key(key@),
            final(self)@ == (GitSharedStateView { errors: old(self)@.errors.remove(key@), ..old(self)@ }),
    {
        remove_text(&mut self.error_state, key)
    }

    /// The error recorded under `key`, if any.
    pub fn get_error(&self, key: &str) -> (r: Option<String>)
        ensures
            match r {
                Some(e) => self@.errors.contains_key(key@) && e@ == self@.errors[key@],
                None => !self@.errors.contains_key(key@),
            },
    {
        read_text(&self.error_state, key)
    }

    /// Every recorded error with its key, each once, in no stated order.
    pub fn get_all_errors(&self) -> (r: Vec<(String, String)>)
        ensures
            lists_entries(r@, self@.errors),
    {
        text_entries_list(&self.error_state)
    }

    /// Forgets every error.
    pub fn clear_all_errors(&mut self)
        ensures
            final(self)@ == (GitSharedStateView { errors: Map::empty(), ..old(self)@ }),
    {
        clear_text(&mut self.error_state);
        proof {
            lemma_no_entries(text_entries(self.error_state));
        }
    }

    /// Whether any error is recorded.
    pub fn has_errors(&self) -> (r: bool)
        ensures
            r == !self@.errors.dom().is_empty(),
    {
        !text_map_is_empty(&self.error_state)
    }

    /// Records the view mode by its number.
    pub fn set_view_mode(&mut self, mode: u8)
        ensures
            final(self)@ == (GitSharedStateView { view_mode: mode, ..old(self)@ }),
    {
        self.view_mode = mode;
    }

    /// Empties the commit cache, the file diff cache and the snapshot.
    fn clear_caches(&mut self)
        ensures
            final(self)@ == (GitSharedStateView {
                repos: Map::empty(),
                commits: Map::empty(),
                file_diffs: Map::empty(),
                ..old(self)@
            }),
    {
        clear_commits(&mut self.commit_cache);
        clear_diffs(&mut self.file_diff_cache);
        clear_repos(&mut self.repo_data);
        proof {
            lemma_no_entries(commit_entries(self.commit_cache));
            lemma_no_entries(diff_entries(self.file_diff_cache));
            lemma_no_entries(repo_entries(self.repo_data));
        }
    }
}

impl Default for GitSharedState {
    fn default() -> (s: GitSharedState)
        ensures
            s@ == (GitSharedStateView {
                repos: Map::empty(),
                commits: Map::empty(),
                file_diffs: Map::empty(),
                view_mode: 0,
                errors: Map::empty(),
            }),
    {
        GitSharedState::new()
    }
}

// ---------------------------------------------------------------- summary state

/// What the summary side shares: summaries by commit hash, the commits whose
/// summary is being made with the second it started at, and error records.
pub struct LlmSharedStateView {
    pub summaries: Map<Seq<char>, Seq<char>>,
    pub active_tasks: Map<Seq<char>, u64>,
    pub errors: Map<Seq<char>, Seq<char>>,
}

/// Shared state of commit summaries.
pub struct LlmSharedState {
    summary_cache: scc::HashMap<String, String>,
    active_summary_tasks: scc::HashMap<String, u64>,
    error_state: scc::HashMap<String, String>,
}

impl View for LlmSharedState {
    type V = LlmSharedStateView;

    closed spec fn view(&self) -> LlmSharedStateView {
        LlmSharedStateView {
            summaries: text_entries(self.summary_cache),
            active_tasks: stamp_entries(self.active_summary_tasks),
            errors: text_entries(self.error_state),
        }
    }
}

impl LlmSharedState {
    /// No summaries, no tasks, no errors.
    pub fn new() -> (s: LlmSharedState)
        ensures
            s@ == (LlmSharedStateView { summaries: Map::empty(), active_tasks: Map::empty(), errors: Map::empty() }),
    {
        let s = LlmSharedState {
            summary_cache: new_text_map(),
            active_summary_tasks: new_stamp_map(),
            error_state: new_text_map(),
        };
        proof {
            lemma_no_entries(text_entries(s.summary_cache));
            lemma_no_entries(stamp_entries(s.active_summary_tasks));
            lemma_no_entries(text_entries(s.error_state));
        }
        s
    }

    /// Keeps `summary` for the commit `commit_sha`.
    pub fn cache_summary(&mut self, commit_sha: String, summary: String)
        ensures
            final(self)@ == (LlmSharedStateView {
                summaries: old(self)@.summaries.insert(commit_sha@, summary@),
                ..old(self)@
            }),
    {
        upsert_text(&mut self.summary_cache, commit_sha, summary);
    }

    /// The summary kept for `commit_sha`, if any.
    pub fn get_cached_summary(&self, commit_sha: &str) -> (r: Option<String>)
        ensures
            match r {
                Some(s) => self@.summaries.contains_key(commit_sha@) && s@ == self@.summaries[commit_sha@],
                None => !self@.summaries.contains_key(commit_sha@),
            },
    {
        read_text(&self.summary_cache, commit_sha)
    }

    /// Whether a summary of `commit_sha` is being made.
    pub fn is_summary_loading(&self, commit_sha: &str) -> (r: bool)
        ensures
            r == self@.active_tasks.contains_key(commit_sha@),
    {
        contains_stamp(&self.active_summary_tasks, commit_sha)
    }

    /// Records that a summary of `commit_sha` is being made, stamped with the
    /// current second since the Unix epoch (zero for a clock set before it).
    pub fn start_summary_task(&mut self, commit_sha: String)
        ensures
            final(self)@ == (LlmSharedStateView {
                active_tasks: old(self)@.active_tasks.insert(
                    commit_sha@,
                    final(self)@.active_tasks[commit_sha@],
                ),
                ..old(self)@
            }),
    {
        let timestamp = crate::clock::unix_time_secs();
        upsert_stamp(&mut self.active_summary_tasks, commit_sha, timestamp);
    }

    /// Records that the summary of `commit_sha` is no longer being made.
    pub fn complete_summary_task(&mut self, commit_sha: &str)
        ensures
            final(self)@ == (LlmSharedStateView {
                active_tasks: old(self)@.active_tasks.remove(commit_sha@),
                ..old(self)@
            }),
    {
        remove_stamp(&mut self.active_summary_tasks, commit_sha);
    }

    /// Records `error` under `key`, replacing an earlier one.
    pub fn set_error(&mut self, key: String, error: String)
        ensures
            final(self)@ == (LlmSharedStateView { errors: old(self)@.errors.insert(key@, error@), ..old(self)@ }),
    {
        upsert_text(&mut self.error_state, key, error);
    }

    /// Forgets the error under `key`; reports whether there was one.
    pub fn clear_error(&mut self, key: &str) -> (r: bool)
        ensures
            r == old(self)@.errors.contains_key(key@),
            final(self)@ == (LlmSharedStateView { errors: old(self)@.errors.remove(key@), ..old(self)@ }),
    {
        remove_text(&mut self.error_state, key)
    }

    /// Every recorded error with its key, each once, in no stated order.
    pub fn get_all_errors(&self) -> (r: Vec<(String, String)>)
        ensures
            lists_entries(r@, self@.errors),
    {
        text_entries_list(&self.error_state)
    }

    /// Forgets every error.
    pub fn clear_all_errors(&mut self)
        ensures
            final(self)@ == (LlmSharedStateView { errors: Map::empty(), ..old(self)@ }),
    {
        clear_text(&mut self.error_state);
        proof {
            lemma_no_entries(text_entries(self.error_state));
        }
    }

    /// Whether any error is recorded.
    pub fn has_errors(&self) -> (r: bool)
        ensures
            r == !self@.errors.dom().is_empty(),
    {
        !text_map_is_empty(&self.error_state)
    }

    /// Forgets every summary.
    fn clear_summaries(&mut self)
        ensures
            final(self)@ == (LlmSharedStateView { summaries: Map::empty(), ..old(self)@ }),
    {
        clear_text(&mut self.summary_cache);
        proof {
            lemma_no_entries(text_entries(self.summary_cache));
        }
    }
}

impl Default for LlmSharedState {
    fn default() -> (s: LlmSharedState)
        ensures
            s@ == (LlmSharedStateView { summaries: Map::empty(), active_tasks: Map::empty(), errors: Map::empty() }),
    {
        LlmSharedState::new()
    }
}

// ---------------------------------------------------------------- the manager

/// Both shared states.
pub struct SharedStateManager {
    git_state: GitSharedState,
    llm_state: LlmSharedState,
}

impl SharedStateManager {
    /// Both states new.
    pub fn new() -> (m: SharedStateManager)
        ensures
            m.git_state()@ == GitSharedState::new_view(),
            m.llm_state()@ == LlmSharedState::new_view(),
    {
        SharedStateManager { git_state: GitSharedState::new(), llm_state: LlmSharedState::new() }
    }

    /// The git state.
    #[verifier::when_used_as_spec(spec_git_state)]
    pub fn git_state(&self) -> (g: &GitSharedState)
        ensures
            g == self.spec_git_state(),
    {
        &self.git_state
    }

    pub closed spec fn spec_git_state(&self) -> &GitSharedState {
        &self.git_state
    }

    /// The summary state.
    #[verifier::when_used_as_spec(spec_llm_state)]
    pub fn llm_state(&self) -> (l: &LlmSharedState)
        ensures
            l == self.spec_llm_state(),
    {
        &self.llm_state
    }

    pub closed spec fn spec_llm_state(&self) -> &LlmSharedState {
        &self.llm_state
    }

    /// The git state, to change.
    pub fn git_state_mut(&mut self) -> (g: &mut GitSharedState)
        ensures
            *g == *old(self).git_state(),
            *final(self).llm_state() == *old(self).llm_state(),
            *final(self).git_state() == *final(g),
    {
        &mut self.git_state
    }

    /// The summary state, to change.
    pub fn llm_state_mut(&mut self) -> (l: &mut LlmSharedState)
        ensures
            *l == *old(self).llm_state(),
            *final(self).git_state() == *old(self).git_state(),
            *final(self).llm_state() == *final(l),
    {
        &mut self.llm_state
    }

    /// Starts a session: the working-tree view mode, and no errors left from
    /// before on either side.
    pub fn initialize(&mut self) -> (r: Result<(), String>)
        ensures
            r is Ok,
            final(self).git_state()@ == (GitSharedStateView {
                view_mode: 0,
                errors: Map::empty(),
                ..old(self).git_state()@
            }),
            final(self).llm_state()@ == (LlmSharedStateView { errors: Map::empty(), ..old(self).llm_state()@ }),
    {
        self.git_state.set_view_mode(0);
        self.git_state.clear_all_errors();
        self.llm_state.clear_all_errors();
        Ok(())
    }

    /// Ends a session: the snapshot, the commit and file diff caches and the
    /// summaries are dropped; errors and running tasks stay.
    pub fn shutdown(&mut self) -> (r: Result<(), String>)
        ensures
            r is Ok,
            final(self).git_state()@ == (GitSharedStateView {
                repos: Map::empty(),
                commits: Map::empty(),
                file_diffs: Map::empty(),
                ..old(self).git_state()@
            }),
            final(self).llm_state()@ == (LlmSharedStateView { summaries: Map::empty(), ..old(self).llm_state()@ }),
    {
        self.git_state.clear_caches();
        self.llm_state.clear_summaries();
        Ok(())
    }
}

impl Default for SharedStateManager {
    fn default() -> (m: SharedStateManager)
        ensures
            m.git_state()@ == GitSharedState::new_view(),
            m.llm_state()@ == LlmSharedState::new_view(),
    {
        SharedStateManager::new()
    }
}

impl GitSharedState {
    /// What a new git state holds.
    pub open spec fn new_view() -> GitSharedStateView {
        GitSharedStateView {
            repos: Map::empty(),
            commits: Map::empty(),
            file_diffs: Map::empty(),
            view_mode: 0,
            errors: Map::empty(),
        }
    }
}

impl LlmSharedState {
    /// What a new summary state holds.
    pub open spec fn new_view() -> LlmSharedStateView {
        LlmSharedStateView { summaries: Map::empty(), active_tasks: Map::empty(), errors: Map::empty() }
    }
}

// ---------------------------------------------------------------- laws

/// A commit cached under a hash is what a lookup of that hash then finds.
pub proof fn law_cached_commit_is_found(s: GitSharedStateView, sha: Seq<char>, c: CommitInfo)
    ensures
        ({
            let t = GitSharedStateView { commits: s.commits.insert(sha, c), ..s };
            t.commits.contains_key(sha) && t.commits[sha] == c
        }),
{
}

/// Recording an error and clearing it again leaves the error records as they
/// were when nothing was recorded under that key, and the clearing reports
/// that there was an error.
pub proof fn law_set_then_clear_error(errors: Map<Seq<char>, Seq<char>>, key: Seq<char>, e: Seq<char>)
    requires
        !errors.contains_key(key),
    ensures
        errors.insert(key, e).contains_key(key),
        errors.insert(key, e).remove(key) == errors,
{
    assert(errors.insert(key, e).remove(key) =~= errors);
}

/// After every error is cleared, none is listed and none is reported.
pub proof fn law_no_errors_after_clear_all(list: Seq<(String, String)>)
    requires
        lists_entries(list, Map::<Seq<char>, Seq<char>>::empty()),
    ensures
        list.len() == 0,
{
    if list.len() > 0 {
        assert(Map::<Seq<char>, Seq<char>>::empty().contains_key(list[0].0@));
    }
}

/// The listing of the errors has as many entries as there are keys with an
/// error.
pub proof fn law_error_list_length(list: Seq<(String, String)>, errors: Map<Seq<char>, Seq<char>>)
    requires
        lists_entries(list, errors),
    ensures
        errors.dom().finite(),
        errors.dom().len() == list.len(),
{
    let keys = Seq::new(list.len(), |i: int| list[i].0@);
    assert(keys.to_set() =~= errors.dom()) by {
        assert forall|k: Seq<char>| errors.dom().contains(k) implies keys.to_set().contains(k) by {
            let i = choose|i: int| 0 <= i < list.len() && #[trigger] list[i].0@ == k;
            assert(keys[i] == k);
        }
        assert forall|k: Seq<char>| keys.to_set().contains(k) implies errors.dom().contains(k) by {
            let i = choose|i: int| 0 <= i < keys.len() && keys[i] == k;
            assert(list[i].0@ == k);
        }
    }
    assert(keys.no_duplicates()) by {
        assert forall|i: int, j: int| 0 <= i < keys.len() && 0 <= j < keys.len() && i != j implies keys[i]
            != keys[j] by {
            if i < j {
                assert(list[i].0@ != list[j].0@);
            } else {
                assert(list[j].0@ != list[i].0@);
            }
        }
    }
    keys.unique_seq_to_set();
}

} // verus!
