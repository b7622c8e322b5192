//! The files of a selected commit: one entry per changed file, and the tree
//! of directories they are shown in.
use vstd::prelude::*;
use crate::git::repo::{join_path, joined_path};
use crate::git::types::{
    same_file_diff, CommitFileChange, CommitInfo, FileChangeStatus, FileDiff, Status, TreeNode,
    INDEX_DELETED, INDEX_MODIFIED, INDEX_NEW, INDEX_RENAMED,
};
use crate::search::{find_first, lemma_find_from};
use crate::ui::app::App;
use crate::ui::model::{
    depth_fits, depths_fit, spec_update_files, spec_update_tree, string_views, view_wf, AppView,
};

verus! {

// ---------------------------------------------------------------- paths

/// What `Path::strip_prefix` gives for a path and a base, as text: the rest of
/// the path after the base's components, or `None` when the path does not
/// start with them.
pub uninterp spec fn path_after_prefix(path: Seq<char>, base: Seq<char>) -> Option<Seq<char>>;

/// Calls `Path::strip_prefix`; the result depends on the two paths alone and
/// is given the name `path_after_prefix`.
#[verifier::external_body]
pub(crate) fn strip_path_prefix(path: &str, base: &str) -> (r: Option<String>)
    ensures
        match r {
            Some(s) => path_after_prefix(path@, base@) == Some(s@),
            None => path_after_prefix(path@, base@) is None,
        },
{
    std::path::Path::new(path).strip_prefix(base).ok().map(|p| p.to_string_lossy().into_owned())
}

/// What `Path::components` gives for a path, each component as text.
pub uninterp spec fn path_parts(path: Seq<char>) -> Seq<Seq<char>>;

/// Calls `Path::components` and writes each component as text; the result
/// depends on the path alone and is given the name `path_parts`.
#[verifier::external_body]
pub(crate) fn path_components(path: &str) -> (r: Vec<String>)
    ensures
        string_views(r@) == path_parts(path@),
{
    std::path::Path::new(path).components().map(|c| c.as_os_str().to_string_lossy().into_owned()).collect()
}

/// The components under which a file is placed in the tree: those of its path
/// relative to the repository, or of its whole path when it is not inside.
pub open spec fn placement_parts(file_path: Seq<char>, repo_path: Seq<char>) -> Seq<Seq<char>> {
    path_parts(
        match path_after_prefix(file_path, repo_path) {
            Some(rel) => rel,
            None => file_path,
        },
    )
}

// ---------------------------------------------------------------- entries

/// The status bits a commit's file change is shown with.
pub open spec fn spec_commit_status_bits(s: FileChangeStatus) -> u32 {
    match s {
        FileChangeStatus::Added => INDEX_NEW,
        FileChangeStatus::Modified => INDEX_MODIFIED,
        FileChangeStatus::Deleted => INDEX_DELETED,
        FileChangeStatus::Renamed => INDEX_RENAMED,
    }
}

pub fn commit_status(s: FileChangeStatus) -> (r: Status)
    ensures
        r.bits == spec_commit_status_bits(s),
{
    match s {
        FileChangeStatus::Added => Status { bits: INDEX_NEW },
        FileChangeStatus::Modified => Status { bits: INDEX_MODIFIED },
        FileChangeStatus::Deleted => Status { bits: INDEX_DELETED },
        FileChangeStatus::Renamed => Status { bits: INDEX_RENAMED },
    }
}

/// The entry shown for a file change of a commit with its diff lines.
pub open spec fn commit_entry(change: CommitFileChange, lines: Vec<String>) -> FileDiff {
    FileDiff {
        path: change.path,
        status: Status { bits: spec_commit_status_bits(change.status) },
        line_strings: lines,
        additions: change.additions,
        deletions: change.deletions,
    }
}

/// The entries of the first `n` file changes.
pub open spec fn commit_entries_upto(changes: Seq<CommitFileChange>, diffs: Seq<Vec<String>>, n: int) -> Seq<FileDiff> {
    Seq::new(n as nat, |i: int| commit_entry(changes[i], diffs[i]))
}

/// The entries of a commit's file changes, with the diff lines of each.
pub open spec fn spec_commit_files(commit: CommitInfo, diffs: Seq<Vec<String>>) -> Seq<FileDiff> {
    commit_entries_upto(commit.files_changed@, diffs, commit.files_changed@.len() as int)
}

/// One entry per file change of `commit`; `diffs` holds the diff lines of
/// each, in the same order.
pub fn commit_file_diffs(commit: &CommitInfo, diffs: Vec<Vec<String>>) -> (r: Vec<FileDiff>)
    requires
        diffs@.len() == commit.files_changed@.len(),
    ensures
        r@ == spec_commit_files(*commit, diffs@),
{
    let ghost all = diffs@;
    let mut rest = diffs;
    let mut r: Vec<FileDiff> = Vec::new();
    let mut i: usize = 0;
    while i < commit.files_changed.len()
        invariant
            i <= commit.files_changed@.len(),
            all.len() == commit.files_changed@.len(),
            rest@ == all.skip(i as int),
            r@ == commit_entries_upto(commit.files_changed@, all, i as int),
        decreases commit.files_changed@.len() - i,
    {
        let change = &commit.files_changed[i];
        let lines = rest.remove(0);
        let entry = FileDiff {
            path: change.path.clone(),
            status: commit_status(change.status),
            line_strings: lines,
            additions: change.additions,
            deletions: change.deletions,
        };
        r.push(entry);
        proof {
            assert(rest@ =~= all.skip(i + 1));
            assert(r@ =~= commit_entries_upto(commit.files_changed@, all, i + 1));
        }
        i = i + 1;
    }
    r
}

// ---------------------------------------------------------------- the tree

/// Matches a directory node with the given name.
pub open spec fn is_dir_named(name: Seq<char>) -> spec_fn(TreeNode) -> bool {
    |n: TreeNode| n.is_dir && n.name@ == name
}

/// The node of a file: named `name`, at the file's path, holding the file.
pub open spec fn leaf_for(n: TreeNode, name: Seq<char>, file: FileDiff) -> bool {
    &&& n.name@ == name
    &&& n.path == file.path
    &&& !n.is_dir
    &&& n.children@.len() == 0
    &&& n.file_diff matches Some(d) && same_file_diff(d, file)
}

/// Two nodes agree on all but their children.
pub open spec fn same_header(a: TreeNode, b: TreeNode) -> bool {
    a.name == b.name && a.path == b.path && a.is_dir == b.is_dir && a.file_diff == b.file_diff
}

/// `new` is the list of nodes `old`, below a node at `path`, with `file`
/// placed along `parts`: the last part names the file's node, added at the
/// end; each other part is the first directory of that name, made at the end
/// when there is none.
pub open spec fn inserted(
    old: Seq<TreeNode>,
    path: Seq<char>,
    parts: Seq<Seq<char>>,
    file: FileDiff,
    new: Seq<TreeNode>,
) -> bool
    decreases parts.len(),
{
    if parts.len() == 0 {
        new == old
    } else if parts.len() == 1 {
        new.len() == old.len() + 1 && new.take(old.len() as int) == old && leaf_for(new.last(), parts[0], file)
    } else {
        match find_first(old, is_dir_named(parts[0])) {
            Some(k) => {
                &&& new.len() == old.len()
                &&& forall|j: int| 0 <= j < old.len() && j != k ==> new[j] == old[j]
                &&& same_header(new[k], old[k])
                &&& inserted(old[k].children@, old[k].path@, parts.drop_first(), file, new[k].children@)
            },
            None => {
                &&& new.len() == old.len() + 1
                &&& new.take(old.len() as int) == old
                &&& new.last().name@ == parts[0]
                &&& new.last().path@ == joined_path(path, parts[0])
                &&& new.last().is_dir
                &&& new.last().file_diff is None
                &&& inserted(
                    Seq::empty(),
                    joined_path(path, parts[0]),
                    parts.drop_first(),
                    file,
                    new.last().children@,
                )
            },
        }
    }
}

fn position_of_dir(children: &Vec<TreeNode>, name: &String) -> (r: Option<usize>)
    ensures
        match find_first(children@, is_dir_named(name@)) {
            Some(k) => r == Some(k as usize),
            None => r is None,
        },
{
    let mut i: usize = 0;
    while i < children.len()
        invariant
            i <= children@.len(),
            forall|j: int| 0 <= j < i ==> !is_dir_named(name@)(#[trigger] children@[j]),
        decreases children@.len() - i,
    {
        if children[i].is_dir && crate::text::str_equal(children[i].name.as_str(), name.as_str()) {
            proof {
                crate::search::lemma_find_first_is(children@, is_dir_named(name@), i as int);
            }
            return Some(i);
        }
        i = i + 1;
    }
    proof {
        crate::search::lemma_find_first_none(children@, is_dir_named(name@));
    }
    None
}

proof fn lemma_depths_fit_all(cs: Seq<TreeNode>, depth: int)
    ensures
        depths_fit(cs, depth) <==> forall|i: int| 0 <= i < cs.len() ==> depth_fits(#[trigger] cs[i], depth),
    decreases cs.len(),
{
    if cs.len() > 0 {
        lemma_depths_fit_all(cs.drop_last(), depth);
        assert forall|i: int| 0 <= i < cs.len() - 1 implies cs.drop_last()[i] == cs[i] by {}
    }
}

/// Placing a file keeps the depths of the tree within a `usize`.
proof fn lemma_inserted_depths(
    old: Seq<TreeNode>,
    path: Seq<char>,
    parts: Seq<Seq<char>>,
    file: FileDiff,
    new: Seq<TreeNode>,
    depth: int,
)
    requires
        inserted(old, path, parts, file, new),
        depths_fit(old, depth),
        1 <= depth,
        depth + parts.len() <= usize::MAX + 1,
    ensures
        depths_fit(new, depth),
    decreases parts.len(),
{
    lemma_depths_fit_all(old, depth);
    lemma_depths_fit_all(new, depth);
    if parts.len() == 0 {
    } else if parts.len() == 1 {
        assert forall|i: int| 0 <= i < new.len() implies depth_fits(#[trigger] new[i], depth) by {
            if i < old.len() {
                assert(new[i] == new.take(old.len() as int)[i]);
            }
        }
    } else {
        match find_first(old, is_dir_named(parts[0])) {
            Some(k) => {
                lemma_find_from(old, is_dir_named(parts[0]), 0);
                assert(depth_fits(old[k], depth));
                if old[k].children@.len() == 0 {
                    assert(depths_fit(old[k].children@, depth + 1));
                }
                lemma_inserted_depths(
                    old[k].children@,
                    old[k].path@,
                    parts.drop_first(),
                    file,
                    new[k].children@,
                    depth + 1,
                );
                assert forall|i: int| 0 <= i < new.len() implies depth_fits(#[trigger] new[i], depth) by {
                    if i != k {
                        assert(new[i] == old[i]);
                    }
                }
            },
            None => {
                lemma_depths_fit_all(Seq::<TreeNode>::empty(), depth + 1);
                lemma_inserted_depths(
                    Seq::empty(),
                    joined_path(path, parts[0]),
                    parts.drop_first(),
                    file,
                    new.last().children@,
                    depth + 1,
                );
                assert forall|i: int| 0 <= i < new.len() implies depth_fits(#[trigger] new[i], depth) by {
                    if i < old.len() {
                        assert(new[i] == new.take(old.len() as int)[i]);
                    }
                }
            },
        }
    }
}

/// Places `file` along `parts[start..]` below a node at `path` whose
/// children are `children`.
fn insert_path(children: &mut Vec<TreeNode>, path: &String, parts: &Vec<String>, start: usize, file: &FileDiff)
    requires
        start <= parts@.len(),
    ensures
        inserted(old(children)@, path@, string_views(parts@).skip(start as int), *file, final(children)@),
    decreases parts@.len() - start,
{
    let ghost rest = string_views(parts@).skip(start as int);
    let n = parts.len();
    if start >= n {
        assert(rest.len() == 0);
        return;
    }
    assert(rest[0] == parts@[start as int]@);
    assert(rest.drop_first() =~= string_views(parts@).skip(start + 1));
    if start + 1 == n {
        let leaf = TreeNode {
            name: parts[start].clone(),
            path: file.path.clone(),
            is_dir: false,
            children: Vec::new(),
            file_diff: Some(file.duplicate()),
        };
        children.push(leaf);
        assert(children@.take(old(children)@.len() as int) =~= old(children)@);
        return;
    }
    let name = &parts[start];
    match position_of_dir(children, name) {
        Some(k) => {
            let ghost before = children@;
            // Reading the length tells the prover that it fits in a usize.
            let _child_count: usize = children.len();
            proof {
                lemma_find_from(before, is_dir_named(name@), 0);
                assert(rest[0] == name@);
            }
            let mut child = children.remove(k);
            let ghost old_child = child;
            let child_path = child.path.clone();
            insert_path(&mut child.children, &child_path, parts, start + 1, file);
            let ghost new_child = child;
            children.insert(k, child);
            proof {
                assert(old_child == before[k as int]);
                assert(children@[k as int] == new_child);
                assert forall|j: int| 0 <= j < before.len() && j != k implies children@[j] == before[j] by {}
                assert(same_header(new_child, old_child));
                assert(find_first(before, is_dir_named(rest[0])) == Some(k as int));
            }
        },
        None => {
            let dir_path = join_path(path.as_str(), name.as_str());
            let mut dir = TreeNode {
                name: name.clone(),
                path: dir_path,
                is_dir: true,
                children: Vec::new(),
                file_diff: None,
            };
            let dir_path_copy = dir.path.clone();
            insert_path(&mut dir.children, &dir_path_copy, parts, start + 1, file);
            children.push(dir);
            assert(children@.take(old(children)@.len() as int) =~= old(children)@);
        },
    }
}

/// Adds `file` to the tree below `root`, along the components of its path
/// relative to the repository at `repo_path` (or of its whole path when it
/// lies outside).
pub fn add_file_to_commit_tree(root: &mut TreeNode, file: &FileDiff, repo_path: &str)
    ensures
        same_header(*final(root), *old(root)),
        placement_parts(file.path@, repo_path@).len() <= usize::MAX,
        inserted(
            old(root).children@,
            old(root).path@,
            placement_parts(file.path@, repo_path@),
            *file,
            final(root).children@,
        ),
{
    let relative = match strip_path_prefix(file.path.as_str(), repo_path) {
        Some(rel) => rel,
        None => file.path.clone(),
    };
    let parts = path_components(relative.as_str());
    // Reading the length tells the prover that it fits in a usize.
    let _part_count: usize = parts.len();
    let root_path = root.path.clone();
    insert_path(&mut root.children, &root_path, &parts, 0, file);
    assert(string_views(parts@).skip(0) =~= string_views(parts@));
}

/// The tree of the first `n` files: each placed in turn into the children of
/// a root at `repo_path`.
pub open spec fn placed_all(files: Seq<FileDiff>, repo_path: Seq<char>, n: int, children: Seq<TreeNode>) -> bool
    decreases n,
{
    if n <= 0 {
        children.len() == 0
    } else {
        exists|prev: Seq<TreeNode>|
            placed_all(files, repo_path, n - 1, prev) && #[trigger] placed_step(files, repo_path, n, prev, children)
    }
}

/// The `n`-th file placed into `prev` gives `children`.
pub open spec fn placed_step(
    files: Seq<FileDiff>,
    repo_path: Seq<char>,
    n: int,
    prev: Seq<TreeNode>,
    children: Seq<TreeNode>,
) -> bool {
    inserted(prev, repo_path, placement_parts(files[n - 1].path@, repo_path), files[n - 1], children)
}

/// A tree for the files of a commit: a root named `.` at the repository,
/// with every file placed in turn.
pub open spec fn commit_tree_of(tree: TreeNode, files: Seq<FileDiff>, repo_path: Seq<char>) -> bool {
    &&& tree.name@ == "."@
    &&& tree.path@ == repo_path
    &&& tree.is_dir
    &&& tree.file_diff is None
    &&& placed_all(files, repo_path, files.len() as int, tree.children@)
}

/// The components of the first `n` files can be counted in a `usize`.
pub open spec fn parts_fit(files: Seq<FileDiff>, repo_path: Seq<char>, n: int) -> bool {
    forall|i: int| 0 <= i < n ==> #[trigger] placement_parts(files[i].path@, repo_path).len() <= usize::MAX
}

proof fn lemma_placed_depths(files: Seq<FileDiff>, repo_path: Seq<char>, n: int, children: Seq<TreeNode>)
    requires
        0 <= n <= files.len(),
        placed_all(files, repo_path, n, children),
        parts_fit(files, repo_path, n),
    ensures
        depths_fit(children, 1),
    decreases n,
{
    if n == 0 {
        lemma_depths_fit_all(children, 1);
    } else {
        let parts = placement_parts(files[n - 1].path@, repo_path);
        let prev = choose|prev: Seq<TreeNode>|
            placed_all(files, repo_path, n - 1, prev) && #[trigger] placed_step(files, repo_path, n, prev, children);
        assert(parts.len() <= usize::MAX);
        lemma_placed_depths(files, repo_path, n - 1, prev);
        lemma_inserted_depths(prev, repo_path, parts, files[n - 1], children, 1);
    }
}

impl App {
    /// Shows `files` in a tree rooted at `repo_path`: the file list is
    /// replaced, then each file is placed in turn into a tree whose root is
    /// named `.`; with no files the tree is left as it was.
    pub fn show_files_in_tree(&mut self, files: Vec<FileDiff>, repo_path: &str)
        requires
            view_wf(old(self)@),
        ensures
            view_wf(final(self)@),
            ({
                let v1 = spec_update_files(old(self)@, files@);
                &&& final(self)@.file_change_timestamps.len() == files@.len()
                &&& files@.len() == 0 ==> final(self)@ == (AppView {
                    file_change_timestamps: final(self)@.file_change_timestamps,
                    ..v1
                })
                &&& files@.len() > 0 ==> exists|t: TreeNode|
                    #[trigger] commit_tree_of(t, files@, repo_path@) && final(self)@ == (AppView {
                        file_change_timestamps: final(self)@.file_change_timestamps,
                        ..spec_update_tree(v1, t)
                    })
            }),
    {
        let ghost fs = files@;
        self.update_files(files);
        let current = self.get_files();
        let count = current.len();
        if count > 0 {
            let mut root = TreeNode {
                name: String::from_str("."),
                path: String::from_str(repo_path),
                is_dir: true,
                children: Vec::new(),
                file_diff: None,
            };
            let mut i: usize = 0;
            while i < count
                invariant
                    current@ == fs,
                    count == fs.len(),
                    i <= count,
                    root.name@ == "."@,
                    root.path@ == repo_path@,
                    root.is_dir,
                    root.file_diff is None,
                    placed_all(fs, repo_path@, i as int, root.children@),
                    parts_fit(fs, repo_path@, i as int),
                decreases count - i,
            {
                let ghost prev = root.children@;
                add_file_to_commit_tree(&mut root, &current[i as usize], repo_path);
                proof {
                    let parts = placement_parts(fs[i as int].path@, repo_path@);
                    assert(inserted(prev, repo_path@, parts, fs[i as int], root.children@));
                    assert(placed_step(fs, repo_path@, i + 1, prev, root.children@));
                    assert(placed_all(fs, repo_path@, i + 1, root.children@));
                }
                i = i + 1;
            }
            proof {
                lemma_placed_depths(fs, repo_path@, count as int, root.children@);
                assert(commit_tree_of(root, fs, repo_path@));
            }
            self.update_tree(&root);
            proof {
                let v1s = spec_update_files(old(self)@, fs);
                assert(self@ == (AppView {
                    file_change_timestamps: self@.file_change_timestamps,
                    ..spec_update_tree(v1s, root)
                }));
            }
        }
    }

    /// Shows the files of `commit`, with the diff lines in `diffs` (one list
    /// per changed file, in order), in a tree rooted at `repo_path`. A commit
    /// without an id is refused and nothing changes.
    pub fn load_commit_files(&mut self, commit: &CommitInfo, diffs: Vec<Vec<String>>, repo_path: &str)
        requires
            view_wf(old(self)@),
            diffs@.len() == commit.files_changed@.len(),
        ensures
            view_wf(final(self)@),
            commit.sha@.len() == 0 ==> final(self)@ == old(self)@,
            commit.sha@.len() > 0 ==> ({
                let files = spec_commit_files(*commit, diffs@);
                let v1 = spec_update_files(old(self)@, files);
                &&& final(self)@.file_change_timestamps.len() == files.len()
                &&& files.len() == 0 ==> final(self)@ == (AppView {
                    file_change_timestamps: final(self)@.file_change_timestamps,
                    ..v1
                })
                &&& files.len() > 0 ==> exists|t: TreeNode|
                    #[trigger] commit_tree_of(t, files, repo_path@) && final(self)@ == (AppView {
                        file_change_timestamps: final(self)@.file_change_timestamps,
                        ..spec_update_tree(v1, t)
                    })
            }),
    {
        if commit.sha.as_str().unicode_len() == 0 {
            return;
        }
        let files = commit_file_diffs(commit, diffs);
        self.show_files_in_tree(files, repo_path);
    }
}

/// The file's node is found by following `parts` down from `children`: a
/// directory for each part but the last, and the file's node for the last.
pub open spec fn reaches_leaf(children: Seq<TreeNode>, parts: Seq<Seq<char>>, file: FileDiff) -> bool
    decreases parts.len(),
{
    if parts.len() == 0 {
        false
    } else if parts.len() == 1 {
        exists|i: int| 0 <= i < children.len() && #[trigger] leaf_for(children[i], parts[0], file)
    } else {
        exists|i: int|
            0 <= i < children.len() && #[trigger] is_dir_named(parts[0])(children[i]) && reaches_leaf(
                children[i].children@,
                parts.drop_first(),
                file,
            )
    }
}

/// A placed file is found again along the components it was placed by.
pub proof fn law_placed_file_is_found(
    old: Seq<TreeNode>,
    path: Seq<char>,
    parts: Seq<Seq<char>>,
    file: FileDiff,
    new: Seq<TreeNode>,
)
    requires
        inserted(old, path, parts, file, new),
        parts.len() > 0,
    ensures
        reaches_leaf(new, parts, file),
    decreases parts.len(),
{
    if parts.len() == 1 {
        let i = new.len() - 1;
        assert(leaf_for(new[i], parts[0], file));
    } else {
        match find_first(old, is_dir_named(parts[0])) {
            Some(k) => {
                lemma_find_from(old, is_dir_named(parts[0]), 0);
                law_placed_file_is_found(old[k].children@, old[k].path@, parts.drop_first(), file, new[k].children@);
                assert(is_dir_named(parts[0])(new[k]));
            },
            None => {
                let i = new.len() - 1;
                law_placed_file_is_found(
                    Seq::empty(),
                    joined_path(path, parts[0]),
                    parts.drop_first(),
                    file,
                    new[i].children@,
                );
                assert(is_dir_named(parts[0])(new[i]));
            },
        }
    }
}

} // verus!
