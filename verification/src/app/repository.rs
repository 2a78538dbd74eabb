//! The calls into git2 that reading a history needs. What git2 hands back
//! depends on the repository on disk, so these functions state nothing of
//! what they read (only `oid_bytes` states the length of an id): the logic
//! that uses them is verified for every value they may return.

use vstd::prelude::*;
use crate::app::diff::ChangeStatus;

verus! {

#[verifier::external_type_specification]
#[verifier::external_body]
pub struct ExRepository(git2::Repository);

#[verifier::external_type_specification]
#[verifier::external_body]
pub struct ExCommit<'repo>(git2::Commit<'repo>);

#[verifier::external_type_specification]
#[verifier::external_body]
pub struct ExTree<'repo>(git2::Tree<'repo>);

#[verifier::external_type_specification]
#[verifier::external_body]
pub struct ExTreeEntry<'tree>(git2::TreeEntry<'tree>);

#[verifier::external_type_specification]
#[verifier::external_body]
pub struct ExRevwalk<'repo>(git2::Revwalk<'repo>);

#[verifier::external_type_specification]
#[verifier::external_body]
pub struct ExOid(git2::Oid);

#[verifier::external_type_specification]
#[verifier::external_body]
pub struct ExDiff<'repo>(git2::Diff<'repo>);

#[verifier::external_type_specification]
#[verifier::external_body]
pub struct ExDiffDelta<'a>(git2::DiffDelta<'a>);

#[verifier::external_type_specification]
#[verifier::external_body]
pub struct ExDiffFile<'a>(git2::DiffFile<'a>);

#[verifier::external_type_specification]
#[verifier::external_body]
pub struct ExError(git2::Error);

/// The kind of a git object, as a tree entry reports it.
#[derive(Clone, Copy, Debug, PartialEq, Eq, Structural)]
pub enum ObjectKind {
    Any,
    Commit,
    Tree,
    Blob,
    Tag,
}

/// Calls `git2::Repository::discover`: the repository found at `path` or in
/// one of its parent directories. What it finds depends on the disk; nothing
/// is stated of it.
#[verifier::external_body]
pub(crate) fn discover_repository(path: &str) -> Result<git2::Repository, git2::Error> {
    git2::Repository::discover(path)
}

/// Calls `git2::Repository::is_bare`. It reports what the repository on disk
/// is; nothing is stated of it.
#[verifier::external_body]
pub(crate) fn repository_is_bare(repo: &git2::Repository) -> bool {
    repo.is_bare()
}

/// Calls `git2::Repository::workdir`: the repository's working directory, as
/// a string (`None` where there is none, as for a bare repository, or where
/// it is not UTF-8). It depends on the disk; nothing is stated of it.
#[verifier::external_body]
pub(crate) fn repository_workdir(repo: &git2::Repository) -> Option<String> {
    repo.workdir().and_then(|p| p.to_str()).map(|s| s.to_string())
}

/// Calls `git2::Repository::revwalk`: a new walk over the commit graph.
/// Nothing is stated of the result.
#[verifier::external_body]
pub(crate) fn new_revwalk(repo: &git2::Repository) -> Result<git2::Revwalk<'_>, git2::Error> {
    repo.revwalk()
}

/// Calls `git2::Revwalk::push_head`: the walk starts at HEAD.
#[verifier::external_body]
pub(crate) fn revwalk_push_head(walk: &mut git2::Revwalk<'_>) -> Result<(), git2::Error> {
    walk.push_head()
}

/// Calls `git2::Revwalk::simplify_first_parent`: the walk follows first
/// parents only.
#[verifier::external_body]
pub(crate) fn revwalk_first_parent(walk: &mut git2::Revwalk<'_>) -> Result<(), git2::Error> {
    walk.simplify_first_parent()
}

/// Runs the walk (the `Iterator` impl of `git2::Revwalk`) to its end and hands
/// out the id of each commit it visits, in order, with `None` where a step
/// failed. It depends on the disk; nothing is stated of it.
#[verifier::external_body]
pub(crate) fn walked_ids(walk: git2::Revwalk<'_>) -> Vec<Option<git2::Oid>> {
    walk.map(|step| step.ok()).collect()
}

/// Calls `git2::Repository::find_commit` (`None` where it fails).
#[verifier::external_body]
pub(crate) fn find_commit(repo: &git2::Repository, id: git2::Oid) -> Option<git2::Commit<'_>> {
    repo.find_commit(id).ok()
}

/// Calls `git2::Commit::tree`: the tree of the commit.
#[verifier::external_body]
pub(crate) fn commit_tree<'repo>(commit: &git2::Commit<'repo>) -> Result<git2::Tree<'repo>, git2::Error> {
    commit.tree()
}

/// Calls `git2::Commit::parent`: the parent at position `index` (`None`
/// where there is none or it cannot be read).
#[verifier::external_body]
pub(crate) fn commit_parent<'repo>(commit: &git2::Commit<'repo>, index: usize) -> Option<git2::Commit<'repo>> {
    commit.parent(index).ok()
}

/// Calls `git2::Commit::id`.
#[verifier::external_body]
pub(crate) fn commit_id(commit: &git2::Commit<'_>) -> git2::Oid {
    commit.id()
}

/// Calls `git2::Commit::summary` (`None` where there is no summary or it is
/// not UTF-8).
#[verifier::external_body]
pub(crate) fn commit_summary(commit: &git2::Commit<'_>) -> Option<String> {
    commit.summary().ok().flatten().map(|s| s.to_string())
}

/// Calls `git2::Tree::get_path`: the entry at `path` in the tree or one of
/// its subtrees (`None` where there is none).
#[verifier::external_body]
pub(crate) fn tree_entry(tree: &git2::Tree<'_>, path: &str) -> Option<git2::TreeEntry<'static>> {
    tree.get_path(std::path::Path::new(path)).ok()
}

/// Calls `git2::TreeEntry::kind` and hands the kind out as an [`ObjectKind`].
#[verifier::external_body]
pub(crate) fn entry_kind(entry: &git2::TreeEntry<'_>) -> Option<ObjectKind> {
    match entry.kind() {
        Some(git2::ObjectType::Any) => Some(ObjectKind::Any),
        Some(git2::ObjectType::Commit) => Some(ObjectKind::Commit),
        Some(git2::ObjectType::Tree) => Some(ObjectKind::Tree),
        Some(git2::ObjectType::Blob) => Some(ObjectKind::Blob),
        Some(git2::ObjectType::Tag) => Some(ObjectKind::Tag),
        None => None,
    }
}

/// Calls `git2::TreeEntry::id`.
#[verifier::external_body]
pub(crate) fn entry_id(entry: &git2::TreeEntry<'_>) -> git2::Oid {
    entry.id()
}

/// Calls `git2::Repository::diff_tree_to_tree` without options: the changes
/// from `old_tree` (an empty tree where `None`) to `new_tree`.
#[verifier::external_body]
pub(crate) fn diff_trees<'repo>(
    repo: &'repo git2::Repository,
    old_tree: Option<&git2::Tree<'repo>>,
    new_tree: &git2::Tree<'repo>,
) -> Result<git2::Diff<'repo>, git2::Error> {
    repo.diff_tree_to_tree(old_tree, Some(new_tree), None)
}

/// Calls `git2::Diff::find_similar`, with options (`git2::DiffFindOptions`)
/// whose rename detection is switched on or off as `renames` says.
#[verifier::external_body]
pub(crate) fn find_similar(diff: &mut git2::Diff<'_>, renames: bool) -> Result<(), git2::Error> {
    diff.find_similar(Some(git2::DiffFindOptions::new().renames(renames)))
}

/// Runs `git2::Diff::deltas` to its end: the changes of the diff, in order.
#[verifier::external_body]
pub(crate) fn diff_deltas<'a>(diff: &'a git2::Diff<'_>) -> Vec<git2::DiffDelta<'a>> {
    diff.deltas().collect()
}

/// Calls `git2::DiffDelta::status` and hands the status out as a
/// [`ChangeStatus`].
#[verifier::external_body]
pub(crate) fn delta_status(delta: &git2::DiffDelta<'_>) -> ChangeStatus {
    match delta.status() {
        git2::Delta::Unmodified => ChangeStatus::Unmodified,
        git2::Delta::Added => ChangeStatus::Added,
        git2::Delta::Deleted => ChangeStatus::Deleted,
        git2::Delta::Modified => ChangeStatus::Modified,
        git2::Delta::Renamed => ChangeStatus::Renamed,
        git2::Delta::Copied => ChangeStatus::Copied,
        git2::Delta::Ignored => ChangeStatus::Ignored,
        git2::Delta::Untracked => ChangeStatus::Untracked,
        git2::Delta::Typechange => ChangeStatus::Typechange,
        git2::Delta::Unreadable => ChangeStatus::Unreadable,
        git2::Delta::Conflicted => ChangeStatus::Conflicted,
    }
}

/// Calls `git2::DiffDelta::old_file`.
#[verifier::external_body]
pub(crate) fn delta_old_file<'a>(delta: &git2::DiffDelta<'a>) -> git2::DiffFile<'a> {
    delta.old_file()
}

/// Calls `git2::DiffDelta::new_file`.
#[verifier::external_body]
pub(crate) fn delta_new_file<'a>(delta: &git2::DiffDelta<'a>) -> git2::DiffFile<'a> {
    delta.new_file()
}

/// Calls `git2::DiffFile::id`.
#[verifier::external_body]
pub(crate) fn file_id(file: &git2::DiffFile<'_>) -> git2::Oid {
    file.id()
}

/// Calls `git2::DiffFile::path_bytes`: the file's path as bytes, if any.
#[verifier::external_body]
pub(crate) fn file_path_bytes(file: &git2::DiffFile<'_>) -> Option<Vec<u8>> {
    file.path_bytes().map(|p| p.to_vec())
}

/// Calls `git2::Oid::as_bytes`: the raw bytes of the id. The contract claims
/// that there are 20 of them: without git2's `unstable-sha256` feature, which
/// this crate does not enable, `as_bytes` hands out the whole raw SHA-1 id, an
/// array of `GIT_OID_MAX_SIZE` = `GIT_OID_SHA1_SIZE` = 20 bytes.
#[verifier::external_body]
pub(crate) fn oid_bytes(id: &git2::Oid) -> (r: Vec<u8>)
    ensures
        r@.len() == 20,
{
    id.as_bytes().to_vec()
}

/// The text of a `git2::Error` (its `Display`).
#[verifier::external_body]
pub(crate) fn error_text(e: &git2::Error) -> String {
    e.to_string()
}

} // verus!
