//! The calls into libgit2 (through `git2`) that the git worker makes, each
//! behind a small trusted wrapper. What a repository holds is on disk, so
//! almost nothing is stated of what these calls return; the worker states
//! what it does with whatever comes back.
use vstd::prelude::*;

verus! {

/// A repository opened with `git2`.
#[verifier::external_type_specification]
#[verifier::external_body]
pub struct ExRepository(git2::Repository);

/// An error reported by `git2`.
#[verifier::external_type_specification]
#[verifier::external_body]
pub struct ExGitError(git2::Error);

/// An object id of `git2`.
#[verifier::external_type_specification]
#[verifier::external_body]
pub struct ExOid(git2::Oid);

/// A reference of `git2`.
#[verifier::external_type_specification]
#[verifier::external_body]
pub struct ExReference<'repo>(git2::Reference<'repo>);

/// A commit of `git2`.
#[verifier::external_type_specification]
#[verifier::external_body]
pub struct ExCommit<'repo>(git2::Commit<'repo>);

/// A tree of `git2`.
#[verifier::external_type_specification]
#[verifier::external_body]
pub struct ExTree<'repo>(git2::Tree<'repo>);

/// A diff of `git2`.
#[verifier::external_type_specification]
#[verifier::external_body]
pub struct ExDiff<'repo>(git2::Diff<'repo>);

/// A file delta of a `git2` diff.
#[verifier::external_type_specification]
#[verifier::external_body]
pub struct ExDiffDelta<'a>(git2::DiffDelta<'a>);

/// A patch of `git2`.
#[verifier::external_type_specification]
#[verifier::external_body]
pub struct ExPatch<'buffers>(git2::Patch<'buffers>);

/// A revision walker of `git2`.
#[verifier::external_type_specification]
#[verifier::external_body]
pub struct ExRevwalk<'repo>(git2::Revwalk<'repo>);

/// Calls `git2::Repository::open`. Whether it succeeds depends on the disk;
/// nothing is stated of the result.
#[verifier::external_body]
pub(crate) fn open_repository(path: &str) -> (r: Result<git2::Repository, git2::Error>) {
    git2::Repository::open(path)
}

/// Calls `Display::to_string` on a `git2::Error`: its message, then its class
/// and code when they are not the generic ones. Nothing is stated of the text.
#[verifier::external_body]
pub(crate) fn error_text(e: &git2::Error) -> (s: String) {
    e.to_string()
}

/// Calls `git2::Repository::head`. Nothing is stated of the result.
#[verifier::external_body]
pub(crate) fn repo_head<'a>(repo: &'a git2::Repository) -> (r: Result<git2::Reference<'a>, git2::Error>) {
    repo.head()
}

/// Calls `git2::Reference::peel_to_commit`. Nothing is stated of the result.
#[verifier::external_body]
pub(crate) fn peel_to_commit<'a>(head: &git2::Reference<'a>) -> (r: Result<git2::Commit<'a>, git2::Error>) {
    head.peel_to_commit()
}

/// Calls `git2::Reference::shorthand`: the short name of a reference, if it
/// is valid UTF-8. Nothing is stated of the value.
#[verifier::external_body]
pub(crate) fn reference_shorthand(head: &git2::Reference) -> (r: Option<String>) {
    head.shorthand().map(|s| s.to_string())
}

/// Calls `git2::Commit::id`. Nothing is stated of the value.
#[verifier::external_body]
pub(crate) fn commit_id(commit: &git2::Commit) -> (id: git2::Oid) {
    commit.id()
}

/// Calls `git2::Commit::summary`: the first paragraph of the message, if it
/// is valid UTF-8. Nothing is stated of the value.
#[verifier::external_body]
pub(crate) fn commit_summary(commit: &git2::Commit) -> (r: Option<String>) {
    commit.summary().map(|s| s.to_string())
}

/// Calls `git2::Commit::tree`. Nothing is stated of the result.
#[verifier::external_body]
pub(crate) fn commit_tree<'a>(commit: &git2::Commit<'a>) -> (r: Result<git2::Tree<'a>, git2::Error>) {
    commit.tree()
}

/// Calls `git2::Commit::parent_count`. Nothing is stated of the value.
#[verifier::external_body]
pub(crate) fn commit_parent_count(commit: &git2::Commit) -> (n: usize) {
    commit.parent_count()
}

/// Calls `git2::Commit::parent`. Nothing is stated of the result.
#[verifier::external_body]
pub(crate) fn commit_parent<'a>(commit: &git2::Commit<'a>, i: usize) -> (r: Result<git2::Commit<'a>, git2::Error>) {
    commit.parent(i)
}

/// Whether a character is a lowercase hexadecimal digit.
pub open spec fn is_lower_hex(c: char) -> bool {
    ('0' <= c && c <= '9') || ('a' <= c && c <= 'f')
}

/// Whether a text is a commit id as git writes it: forty lowercase
/// hexadecimal digits.
pub open spec fn is_commit_id(s: Seq<char>) -> bool {
    s.len() == 40 && forall|i: int| 0 <= i < 40 ==> is_lower_hex(#[trigger] s[i])
}

/// Calls `Display::to_string` on a `git2::Oid`, which writes the id as
/// hexadecimal: forty lowercase hexadecimal digits.
#[verifier::external_body]
pub(crate) fn oid_text(id: &git2::Oid) -> (s: String)
    ensures
        s@.len() == 40,
        forall|i: int| 0 <= i < 40 ==> is_lower_hex(#[trigger] s@[i]),
{
    id.to_string()
}

/// Whether a character is a hexadecimal digit, in either case.
pub open spec fn is_hex_digit(c: char) -> bool {
    ('0' <= c && c <= '9') || ('a' <= c && c <= 'f') || ('A' <= c && c <= 'F')
}

/// Calls `git2::Oid::from_str`, which is documented to fail for an empty
/// text, one longer than forty digits, or one holding a character that is
/// not a hexadecimal digit. When it succeeds otherwise is not stated.
#[verifier::external_body]
pub(crate) fn parse_oid(s: &str) -> (r: Result<git2::Oid, git2::Error>)
    ensures
        s@.len() == 0 || s@.len() > 40 || (exists|i: int| 0 <= i < s@.len() && !is_hex_digit(#[trigger] s@[i]))
            ==> r is Err,
{
    git2::Oid::from_str(s)
}

/// Calls `git2::Oid::zero`.
#[verifier::external_body]
pub(crate) fn zero_oid() -> (id: git2::Oid) {
    git2::Oid::zero()
}

/// Calls `git2::Repository::find_commit`. Nothing is stated of the result.
#[verifier::external_body]
pub(crate) fn find_commit<'a>(repo: &'a git2::Repository, id: git2::Oid) -> (r: Result<git2::Commit<'a>, git2::Error>) {
    repo.find_commit(id)
}

/// Calls `git2::Repository::revwalk`. Nothing is stated of the result.
#[verifier::external_body]
pub(crate) fn repo_revwalk<'a>(repo: &'a git2::Repository) -> (r: Result<git2::Revwalk<'a>, git2::Error>) {
    repo.revwalk()
}

/// Calls `git2::Revwalk::push_head`. Nothing is stated of the result.
#[verifier::external_body]
pub(crate) fn revwalk_push_head(walk: &mut git2::Revwalk) -> (r: Result<(), git2::Error>) {
    walk.push_head()
}

/// Calls `git2::Revwalk::set_sorting` with `git2::Sort::TIME`. Nothing is
/// stated of the result.
#[verifier::external_body]
pub(crate) fn revwalk_sort_by_time(walk: &mut git2::Revwalk) -> (r: Result<(), git2::Error>) {
    walk.set_sorting(git2::Sort::TIME)
}

/// Calls `Iterator::next` on a `git2::Revwalk`: the next commit id, an error,
/// or `None` at the end. Nothing is stated of the result.
#[verifier::external_body]
pub(crate) fn revwalk_next(walk: &mut git2::Revwalk) -> (r: Option<Result<git2::Oid, git2::Error>>) {
    walk.next()
}

/// Calls `git2::Repository::diff_tree_to_tree` with default options.
/// Nothing is stated of the result.
#[verifier::external_body]
pub(crate) fn diff_trees<'a>(
    repo: &'a git2::Repository,
    old_tree: Option<&git2::Tree>,
    new_tree: &git2::Tree,
) -> (r: Result<git2::Diff<'a>, git2::Error>) {
    repo.diff_tree_to_tree(old_tree, Some(new_tree), Some(&mut git2::DiffOptions::new()))
}

/// Calls `ExactSizeIterator::len` on `git2::Diff::deltas`: the number of
/// file deltas. Nothing is stated of the value.
#[verifier::external_body]
pub(crate) fn diff_delta_count(diff: &git2::Diff) -> (n: usize) {
    diff.deltas().len()
}

/// The kinds of change that libgit2 reports for a file delta.
#[derive(Debug, Clone, Copy, PartialEq, Eq, Structural)]
pub enum DeltaKind {
    Unmodified,
    Added,
    Deleted,
    Modified,
    Renamed,
    Copied,
    Ignored,
    Untracked,
    Typechange,
    Unreadable,
    Conflicted,
}

/// Calls `git2::Diff::get_delta`: the delta at `i`, if there is one.
/// Nothing is stated of the result.
#[verifier::external_body]
pub(crate) fn diff_get_delta<'a>(diff: &'a git2::Diff, i: usize) -> (r: Option<git2::DiffDelta<'a>>) {
    diff.get_delta(i)
}

/// Calls `git2::DiffDelta::status` and tells its variants apart. Nothing is
/// stated of the result.
#[verifier::external_body]
pub(crate) fn delta_kind(d: &git2::DiffDelta) -> (k: DeltaKind) {
    match d.status() {
        git2::Delta::Unmodified => DeltaKind::Unmodified,
        git2::Delta::Added => DeltaKind::Added,
        git2::Delta::Deleted => DeltaKind::Deleted,
        git2::Delta::Modified => DeltaKind::Modified,
        git2::Delta::Renamed => DeltaKind::Renamed,
        git2::Delta::Copied => DeltaKind::Copied,
        git2::Delta::Ignored => DeltaKind::Ignored,
        git2::Delta::Untracked => DeltaKind::Untracked,
        git2::Delta::Typechange => DeltaKind::Typechange,
        git2::Delta::Unreadable => DeltaKind::Unreadable,
        git2::Delta::Conflicted => DeltaKind::Conflicted,
    }
}

/// Calls `git2::DiffDelta::new_file` and `git2::DiffFile::path`: the path of
/// the file after the change, when there is one, as text (bytes that are not
/// UTF-8 become replacement characters). Nothing is stated of the result.
#[verifier::external_body]
pub(crate) fn delta_new_path(d: &git2::DiffDelta) -> (p: Option<String>) {
    d.new_file().path().map(|p| p.to_string_lossy().into_owned())
}

/// Calls `git2::DiffDelta::old_file` and `git2::DiffFile::path`: the path of
/// the file before the change, when there is one, as text (bytes that are not
/// UTF-8 become replacement characters). Nothing is stated of the result.
#[verifier::external_body]
pub(crate) fn delta_old_path(d: &git2::DiffDelta) -> (p: Option<String>) {
    d.old_file().path().map(|p| p.to_string_lossy().into_owned())
}

/// Calls `git2::Patch::from_diff` for the delta at `i`. Nothing is stated of
/// the result.
#[verifier::external_body]
pub(crate) fn patch_from_diff<'a>(diff: &git2::Diff<'a>, i: usize) -> (r: Result<Option<git2::Patch<'a>>, git2::Error>) {
    git2::Patch::from_diff(diff, i)
}

/// Calls `git2::Patch::line_stats`: the numbers of context, added and deleted
/// lines. Nothing is stated of the result.
#[verifier::external_body]
pub(crate) fn patch_line_stats(patch: &git2::Patch) -> (r: Result<(usize, usize, usize), git2::Error>) {
    patch.line_stats()
}

/// What `Path::join` gives for a base and a relative path: the base followed
/// by the other path after a separator, or the other path alone when it is
/// absolute.
pub uninterp spec fn joined_path(base: Seq<char>, rel: Seq<char>) -> Seq<char>;

/// Calls `Path::join`; the result depends on the two paths alone and is given
/// the name `joined_path`. With `/` as the separator (the Unix paths this
/// library is built for), joining a non-empty relative path to a non-empty
/// base that does not end in `/` puts one `/` between them; other cases (an
/// absolute or empty part, a base ending in `/`) are not stated.
#[verifier::external_body]
pub(crate) fn join_path(base: &str, rel: &str) -> (r: String)
    ensures
        r@ == joined_path(base@, rel@),
        base@.len() > 0 && base@.last() != '/' && rel@.len() > 0 && rel@[0] != '/' ==> r@ == base@ + seq!['/']
            + rel@,
{
    std::path::Path::new(base).join(rel).to_string_lossy().into_owned()
}

/// What `Path::file_name` gives for a path, as text: its last component, or
/// `None` when the path ends in `..` or has no component.
pub uninterp spec fn path_file_name(path: Seq<char>) -> Option<Seq<char>>;

/// Calls `Path::file_name`; the result depends on the path alone and is given
/// the name `path_file_name`. A name it gives is a normal component of the
/// path, which is never empty (repeated separators make no component).
#[verifier::external_body]
pub(crate) fn file_name_of(path: &str) -> (r: Option<String>)
    ensures
        match r {
            Some(n) => path_file_name(path@) == Some(n@) && n@.len() > 0,
            None => path_file_name(path@) is None,
        },
{
    std::path::Path::new(path).file_name().and_then(|n| n.to_str()).map(|s| s.to_string())
}

} // verus!
