use vstd::prelude::*;
use vstd::utf8::encode_utf8;
use crate::app::commit::CommitInfo;
use crate::app::diff::{Change, ChangeView, FileSide, FileSideView};
use crate::app::history::{is_history, History};
use crate::app::paths::{
    components_of, join_path, joined_path, path_after_prefix, path_components, push_path,
    pushed_path, strip_path_prefix,
};
use crate::app::repository::{
    commit_id, commit_summary, commit_tree, delta_new_file, delta_old_file, delta_status,
    diff_deltas, diff_trees, discover_repository, entry_id, entry_kind,
    error_text, file_id, file_path_bytes, commit_parent, find_commit, find_similar, new_revwalk, oid_bytes,
    repository_is_bare, repository_workdir, revwalk_first_parent, revwalk_push_head, tree_entry,
    walked_ids, ObjectKind,
};
use crate::app::trace::{
    changes_views, continues, history_from_changes, traces, turning_changes, CommitChanges,
};
use crate::args::Args;

verus! {

/// Why a repository could not be opened or a history could not be read.
#[derive(Debug)]
pub enum GitError {
    /// No repository was found at `path` or above it.
    OpenFailed { path: String, cause: String },
    /// The repository found has no working tree.
    BareRepository,
    /// The repository has no working directory (or its path is not UTF-8).
    NoRepositoryRoot,
    /// The file lies outside the repository's working tree.
    OutsideRepository { file_path: String, root: String, cause: String },
    /// The commit graph could not be walked.
    WalkFailed { cause: String },
    /// HEAD could not be found.
    HeadNotFound { cause: String },
    /// The repository could not be read.
    Unreadable { cause: String },
    /// The walk from HEAD found no commit.
    NoCommits,
    /// The path goes through a submodule.
    InsideSubmodule { file_path: String, submodule: String, rest: String },
    /// No entry at the path on HEAD.
    NotFoundOnHead { file_path: String },
    /// The path is a submodule.
    IsSubmodule { file_path: String },
    /// The path is a directory (or another kind of entry that is not a file).
    IsDirectory { file_path: String },
    /// No commit changed the file.
    NoChanges,
}

/// The text that explains `e`.
pub open spec fn describe(e: GitError) -> Seq<char> {
    match e {
        GitError::OpenFailed { path, cause } => "Failed to open a git repository at '"@ + path@
            + "': "@ + cause@,
        GitError::BareRepository => "git-hist does not support a bare repository"@,
        GitError::NoRepositoryRoot => "Failed to determine repository root"@,
        GitError::OutsideRepository { file_path, root, cause } => "File path '"@ + file_path@
            + "' is not inside the git repository at '"@ + root@ + "': "@ + cause@,
        GitError::WalkFailed { cause } => "Failed to traverse the commit graph: "@ + cause@,
        GitError::HeadNotFound { cause } => "Failed to find HEAD: "@ + cause@,
        GitError::Unreadable { cause } => cause@,
        GitError::NoCommits => "Failed to get any commit"@,
        GitError::InsideSubmodule { file_path, submodule, rest } => "The path '"@ + file_path@
            + "' is inside the submodule '"@ + submodule@
            + "'. Run git-hist from within the submodule instead:\n  cd "@ + submodule@
            + " && git hist "@ + rest@,
        GitError::NotFoundOnHead { file_path } => "File '"@ + file_path@
            + "' not found on HEAD. Check the path and try again"@,
        GitError::IsSubmodule { file_path } => "The path '"@ + file_path@
            + "' is a submodule, not a file. Run git-hist from within the submodule instead:\n  cd "@
            + file_path@,
        GitError::IsDirectory { file_path } => "'"@ + file_path@
            + "' is a directory, not a file. Provide a path to a file instead"@,
        GitError::NoChanges => "No changes found for this file in the commit history"@,
    }
}

/// The concatenation of three strings.
fn concat3(a: &str, b: &str, c: &str) -> (r: String)
    ensures
        r@ == a@ + b@ + c@,
{
    let mut r = String::from_str(a);
    r.append(b);
    r.append(c);
    r
}

impl GitError {
    /// The text that explains the error.
    pub fn message(&self) -> (r: String)
        ensures
            r@ == describe(*self),
    {
        match self {
            GitError::OpenFailed { path, cause } => {
                let mut r = concat3("Failed to open a git repository at '", path.as_str(), "': ");
                r.append(cause.as_str());
                r
            },
            GitError::BareRepository => String::from_str(
                "git-hist does not support a bare repository",
            ),
            GitError::NoRepositoryRoot => String::from_str("Failed to determine repository root"),
            GitError::OutsideRepository { file_path, root, cause } => {
                let mut r = concat3(
                    "File path '",
                    file_path.as_str(),
                    "' is not inside the git repository at '",
                );
                r.append(root.as_str());
                r.append("': ");
                r.append(cause.as_str());
                r
            },
            GitError::WalkFailed { cause } => String::from_str(
                "Failed to traverse the commit graph: ",
            ).concat(cause.as_str()),
            GitError::HeadNotFound { cause } => String::from_str("Failed to find HEAD: ").concat(
                cause.as_str(),
            ),
            GitError::Unreadable { cause } => String::from_str(cause.as_str()),
            GitError::NoCommits => String::from_str("Failed to get any commit"),
            GitError::InsideSubmodule { file_path, submodule, rest } => {
                let mut r = concat3(
                    "The path '",
                    file_path.as_str(),
                    "' is inside the submodule '",
                );
                r.append(submodule.as_str());
                r.append("'. Run git-hist from within the submodule instead:\n  cd ");
                r.append(submodule.as_str());
                r.append(" && git hist ");
                r.append(rest.as_str());
                r
            },
            GitError::NotFoundOnHead { file_path } => concat3(
                "File '",
                file_path.as_str(),
                "' not found on HEAD. Check the path and try again",
            ),
            GitError::IsSubmodule { file_path } => concat3(
                "The path '",
                file_path.as_str(),
                "' is a submodule, not a file. Run git-hist from within the submodule instead:\n  cd ",
            ).concat(file_path.as_str()),
            GitError::IsDirectory { file_path } => concat3(
                "'",
                file_path.as_str(),
                "' is a directory, not a file. Provide a path to a file instead",
            ),
            GitError::NoChanges => String::from_str(
                "No changes found for this file in the commit history",
            ),
        }
    }
}

/// A copy of a string slice.
fn owned(s: &str) -> (r: String)
    ensures
        r@ == s@,
{
    String::from_str(s)
}

/// What opening a repository at `path` gives once discovery has answered:
/// `found` is the repository discovered with whether it is bare, or the text
/// of the discovery's failure. A failure is reported with the path; a bare
/// repository is refused; any other is handed back.
pub fn opened_repository(path: &str, found: Result<(git2::Repository, bool), String>) -> (r: Result<
    git2::Repository,
    GitError,
>)
    ensures
        match found {
            Err(cause) => r matches Err(GitError::OpenFailed { path: p, cause: c }) && p@ == path@
                && c@ == cause@,
            Ok((repo, bare)) => if bare {
                r matches Err(GitError::BareRepository)
            } else {
                r == Ok::<git2::Repository, GitError>(repo)
            },
        },
{
    match found {
        Ok((repo, bare)) => {
            if bare {
                Err(GitError::BareRepository)
            } else {
                Ok(repo)
            }
        },
        Err(cause) => Err(GitError::OpenFailed { path: owned(path), cause }),
    }
}

/// Opens the repository found at `path` or in one of its parent directories.
/// Refused when none is found, or when the one found is bare. Which
/// repository is found, and whether it is bare, depends on the disk; what is
/// made of each answer is [`opened_repository`].
pub fn get_repository_at(path: &str) -> (r: Result<git2::Repository, GitError>)
    ensures
        match r {
            Err(GitError::OpenFailed { path: p, .. }) => p@ == path@,
            Err(e) => e is BareRepository,
            Ok(_) => true,
        },
{
    let found = match discover_repository(path) {
        Ok(repo) => {
            let bare = repository_is_bare(&repo);
            Ok((repo, bare))
        },
        Err(e) => Err(error_text(&e)),
    };
    opened_repository(path, found)
}

/// What the entry found on HEAD for the file says: a file (a blob) is what is
/// looked for; a submodule or a directory is refused.
pub fn check_head_entry(file_path: &str, kind: Option<ObjectKind>) -> (r: Result<(), GitError>)
    ensures
        match kind {
            Some(ObjectKind::Blob) => r is Ok,
            Some(ObjectKind::Commit) => r matches Err(GitError::IsSubmodule { file_path: f })
                && f@ == file_path@,
            _ => r matches Err(GitError::IsDirectory { file_path: f }) && f@ == file_path@,
        },
{
    match kind {
        Some(ObjectKind::Blob) => Ok(()),
        Some(ObjectKind::Commit) => Err(GitError::IsSubmodule { file_path: owned(file_path) }),
        _ => Err(GitError::IsDirectory { file_path: owned(file_path) }),
    }
}

/// The path of the file relative to the repository's working directory
/// `root` (`None` where the repository has none): `file_path`, taken from
/// `workdir`, with `root` stripped off its front. Refused when there is no
/// root, and when the file lies outside it.
pub fn relative_path(file_path: &str, workdir: &str, root: Option<String>) -> (r: Result<
    String,
    GitError,
>)
    ensures
        match root {
            None => r matches Err(GitError::NoRepositoryRoot),
            Some(root) => match path_after_prefix(joined_path(workdir@, file_path@), root@) {
                Some(rel) => r matches Ok(s) && s@ == rel,
                None => r matches Err(GitError::OutsideRepository { file_path: f, root: q, .. })
                    && f@ == file_path@ && q@ == root@,
            },
        },
{
    match root {
        None => Err(GitError::NoRepositoryRoot),
        Some(root) => {
            let joined = join_path(workdir, file_path);
            match strip_path_prefix(joined.as_str(), root.as_str()) {
                Ok(rel) => Ok(rel),
                Err(cause) => Err(
                    GitError::OutsideRepository { file_path: owned(file_path), root, cause },
                ),
            }
        },
    }
}

/// The path made of the first `k` of `parts`, pushed one after the other
/// onto an empty path.
pub open spec fn leading_path(parts: Seq<Seq<char>>, k: nat) -> Seq<char>
    decreases k,
{
    if k == 0 {
        Seq::empty()
    } else {
        pushed_path(leading_path(parts, (k - 1) as nat), parts[k - 1])
    }
}

/// The views of looked-up entries: a leading path and the kind found there.
pub open spec fn entry_views(s: Seq<(String, Option<ObjectKind>)>) -> Seq<(Seq<char>, Option<ObjectKind>)> {
    s.map_values(|e: (String, Option<ObjectKind>)| (e.0@, e.1))
}

/// `entries` were looked up along `relative`: the `m`-th is at the path of
/// its first `m + 1` components.
pub open spec fn looked_up_along(relative: Seq<char>, entries: Seq<(Seq<char>, Option<ObjectKind>)>) -> bool {
    &&& entries.len() == path_components(relative).len()
    &&& forall|m: int|
        0 <= m < entries.len() ==> (#[trigger] entries[m]).0 == leading_path(
            path_components(relative),
            (m + 1) as nat,
        )
}

/// `i` is the first of `entries` that is a submodule (a commit).
pub open spec fn is_first_submodule(entries: Seq<(Seq<char>, Option<ObjectKind>)>, i: int) -> bool {
    &&& 0 <= i < entries.len()
    &&& entries[i].1 == Some(ObjectKind::Commit)
    &&& forall|k: int| 0 <= k < i ==> (#[trigger] entries[k]).1 != Some(ObjectKind::Commit)
}

/// What follows `prefix` in `relative` (all of `relative` where `prefix` is
/// not a prefix of it).
pub open spec fn rest_after(relative: Seq<char>, prefix: Seq<char>) -> Seq<char> {
    match path_after_prefix(relative, prefix) {
        Some(after) => after,
        None => relative,
    }
}

/// `e` is what is reported for a file at `relative` that is not found on
/// HEAD, given the entries found at the leading paths of `relative`: the
/// file lies inside the first of them that is a submodule, and when none is,
/// it is not found.
pub open spec fn reports_missing(
    e: GitError,
    file_path: Seq<char>,
    relative: Seq<char>,
    entries: Seq<(Seq<char>, Option<ObjectKind>)>,
) -> bool {
    match e {
        GitError::InsideSubmodule { file_path: f, submodule, rest } => {
            &&& f@ == file_path
            &&& exists|i: int|
                #[trigger] is_first_submodule(entries, i) && submodule@ == entries[i].0 && rest@
                    == rest_after(relative, submodule@)
        },
        GitError::NotFoundOnHead { file_path: f } => {
            &&& f@ == file_path
            &&& forall|i: int|
                0 <= i < entries.len() ==> (#[trigger] entries[i]).1 != Some(ObjectKind::Commit)
        },
        _ => false,
    }
}

/// Why the file at `relative` is not found on HEAD, given what was found at
/// each leading path of it (`entries`): the file lies inside the first
/// leading path that is a submodule; when none is, there is no such entry.
pub fn not_found_error(
    file_path: &str,
    relative: &str,
    entries: &Vec<(String, Option<ObjectKind>)>,
) -> (r: GitError)
    ensures
        reports_missing(r, file_path@, relative@, entry_views(entries@)),
{
    let ghost es = entry_views(entries@);
    let mut i: usize = 0;
    while i < entries.len()
        invariant
            i <= entries@.len(),
            es == entry_views(entries@),
            forall|k: int| 0 <= k < i ==> (#[trigger] es[k]).1 != Some(ObjectKind::Commit),
        decreases entries@.len() - i,
    {
        let (prefix, kind) = &entries[i];
        assert(es[i as int] == (prefix@, *kind));
        match kind {
            Some(ObjectKind::Commit) => {
                let submodule = prefix.clone();
                let rest = match strip_path_prefix(relative, submodule.as_str()) {
                    Ok(rest) => rest,
                    Err(_) => owned(relative),
                };
                let r = GitError::InsideSubmodule { file_path: owned(file_path), submodule, rest };
                assert(is_first_submodule(es, i as int));
                return r;
            },
            _ => {},
        }
        i = i + 1;
    }
    GitError::NotFoundOnHead { file_path: owned(file_path) }
}

/// The entries at the leading paths of `relative` in `head_tree`: for each
/// path made of the first `m + 1` components, that path and the kind of the
/// entry found there (`None` where there is none). What is found depends on
/// the disk.
fn leading_entries(head_tree: &git2::Tree<'_>, relative: &str) -> (r: Vec<(String, Option<ObjectKind>)>)
    ensures
        looked_up_along(relative@, entry_views(r@)),
{
    let parts = components_of(relative);
    let ghost names = path_components(relative@);
    let mut prefix = String::new();
    let mut entries: Vec<(String, Option<ObjectKind>)> = Vec::new();
    let mut i: usize = 0;
    while i < parts.len()
        invariant
            i <= parts@.len(),
            names == path_components(relative@),
            parts@.map_values(|c: String| c@) == names,
            entries@.len() == i,
            prefix@ == leading_path(names, i as nat),
            forall|m: int|
                0 <= m < i ==> (#[trigger] entry_views(entries@)[m]).0 == leading_path(
                    names,
                    (m + 1) as nat,
                ),
        decreases parts@.len() - i,
    {
        assert(parts@[i as int]@ == names[i as int]);
        prefix = push_path(prefix.as_str(), parts[i].as_str());
        let kind = match tree_entry(head_tree, prefix.as_str()) {
            Some(entry) => entry_kind(&entry),
            None => None,
        };
        let ghost before = entries@;
        entries.push((prefix.clone(), kind));
        proof {
            assert forall|m: int| 0 <= m < i + 1 implies (#[trigger] entry_views(entries@)[m]).0
                == leading_path(names, (m + 1) as nat) by {
                if m < i {
                    assert(entries@[m] == before[m]);
                    assert(entry_views(before)[m].0 == leading_path(names, (m + 1) as nat));
                }
            }
        }
        i = i + 1;
    }
    assert(looked_up_along(relative@, entry_views(entries@)));
    entries
}

/// What the lookup of the file at `relative` on HEAD says: `found` is the
/// kind of the entry found there (`None` where there is none) and `entries`
/// what was found at the leading paths of `relative`. A file (a blob) is what
/// is looked for; a submodule or a directory is refused; when there is no
/// entry, [`not_found_error`] tells why.
pub fn head_lookup_outcome(
    file_path: &str,
    relative: &str,
    found: Option<Option<ObjectKind>>,
    entries: &Vec<(String, Option<ObjectKind>)>,
) -> (r: Result<(), GitError>)
    ensures
        match found {
            Some(Some(ObjectKind::Blob)) => r is Ok,
            Some(Some(ObjectKind::Commit)) => r matches Err(GitError::IsSubmodule { file_path: f })
                && f@ == file_path@,
            Some(_) => r matches Err(GitError::IsDirectory { file_path: f }) && f@ == file_path@,
            None => r matches Err(e) && reports_missing(e, file_path@, relative@, entry_views(entries@)),
        },
{
    match found {
        Some(kind) => check_head_entry(file_path, kind),
        None => Err(not_found_error(file_path, relative, entries)),
    }
}

/// A side of a change, as plain values: the raw bytes of the file's object id
/// (the 20 bytes of a SHA-1 id) and its path as git2 reports it.
fn file_side(file: &git2::DiffFile<'_>) -> (r: FileSide)
    ensures
        r@.id.len() == 20,
{
    FileSide::new(oid_bytes(&file_id(file)), file_path_bytes(file))
}

/// The parent that each commit is compared with: the first one, as on the
/// first-parent line that the walk follows.
pub const COMPARED_PARENT: usize = 0;

/// Whether renames are detected in the changes of a commit: they are, so that
/// the file is followed through them.
pub const DETECTS_RENAMES: bool = true;

/// The changes that `commit` made, against its first parent (against an
/// empty tree where it has none), with renames detected.
fn commit_changes<'repo>(repo: &'repo git2::Repository, commit: &git2::Commit<'repo>) -> (r: Result<
    CommitChanges,
    GitError,
>)
    ensures
        r matches Err(e) ==> e is Unreadable,
{
    let new_tree = match commit_tree(commit) {
        Ok(tree) => tree,
        Err(e) => return Err(GitError::Unreadable { cause: error_text(&e) }),
    };
    let old_tree = match commit_parent(commit, COMPARED_PARENT) {
        Some(parent) => match commit_tree(&parent) {
            Ok(tree) => Some(tree),
            Err(_) => None,
        },
        None => None,
    };
    let old_ref = match &old_tree {
        Some(tree) => Some(tree),
        None => None,
    };
    let mut diff = match diff_trees(repo, old_ref, &new_tree) {
        Ok(diff) => diff,
        Err(e) => return Err(GitError::Unreadable { cause: error_text(&e) }),
    };
    match find_similar(&mut diff, DETECTS_RENAMES) {
        Ok(()) => {},
        Err(e) => return Err(GitError::Unreadable { cause: error_text(&e) }),
    }
    let deltas = diff_deltas(&diff);
    let mut changes: Vec<Change> = Vec::new();
    let mut i: usize = 0;
    while i < deltas.len()
        invariant
            i <= deltas@.len(),
        decreases deltas@.len() - i,
    {
        let delta = &deltas[i];
        let change = Change::new(
            delta_status(delta),
            file_side(&delta_old_file(delta)),
            file_side(&delta_new_file(delta)),
        );
        changes.push(change);
        i = i + 1;
    }
    let info = CommitInfo::new(oid_bytes(&commit_id(commit)), commit_summary(commit));
    Ok(CommitChanges { commit: info, changes })
}

/// Looks up the commit of each id of a walk (an id that the walk could not
/// give stays `None`; so does one whose commit cannot be found).
fn look_up_commits<'repo>(repo: &'repo git2::Repository, ids: &Vec<Option<git2::Oid>>) -> (r: Vec<
    Option<git2::Commit<'repo>>,
>)
    ensures
        r@.len() == ids@.len(),
        forall|i: int| 0 <= i < ids@.len() && ids@[i] is None ==> (#[trigger] r@[i]) is None,
{
    let mut found: Vec<Option<git2::Commit<'repo>>> = Vec::new();
    let mut i: usize = 0;
    while i < ids.len()
        invariant
            i <= ids@.len(),
            found@.len() == i,
            forall|k: int| 0 <= k < i && ids@[k] is None ==> (#[trigger] found@[k]) is None,
        decreases ids@.len() - i,
    {
        let commit = match &ids[i] {
            Some(id) => find_commit(repo, *id),
            None => None,
        };
        found.push(commit);
        i = i + 1;
    }
    found
}

/// The values that `s` holds, in order, the `None`s left out.
pub open spec fn present<T>(s: Seq<Option<T>>) -> Seq<T>
    decreases s.len(),
{
    if s.len() == 0 {
        Seq::empty()
    } else {
        let before = present(s.drop_last());
        match s.last() {
            Some(x) => before.push(x),
            None => before,
        }
    }
}

/// The commits that were found, in the order of the walk: the steps of the
/// walk that failed are left out.
pub fn kept_commits<'repo>(found: Vec<Option<git2::Commit<'repo>>>) -> (r: Vec<git2::Commit<'repo>>)
    ensures
        r@ == present(found@),
{
    let ghost given = found@;
    let n = found.len();
    let mut rest = found;
    let mut reversed: Vec<Option<git2::Commit<'repo>>> = Vec::new();
    while rest.len() > 0
        invariant
            rest@.len() + reversed@.len() == n,
            n == given.len(),
            rest@ == given.subrange(0, rest@.len() as int),
            forall|k: int|
                0 <= k < reversed@.len() ==> #[trigger] reversed@[k] == given[n - 1 - k],
        decreases rest@.len(),
    {
        let c = rest.pop().unwrap();
        reversed.push(c);
    }
    let mut kept: Vec<git2::Commit<'repo>> = Vec::new();
    let mut i: usize = 0;
    proof {
        assert(given.subrange(0, 0).len() == 0);
    }
    while i < n
        invariant
            i <= n,
            n == given.len(),
            reversed@.len() == n - i,
            forall|k: int|
                0 <= k < reversed@.len() ==> #[trigger] reversed@[k] == given[n - 1 - k],
            kept@ == present(given.subrange(0, i as int)),
        decreases n - i,
    {
        let c = reversed.pop().unwrap();
        assert(c == given[i as int]);
        let ghost before = given.subrange(0, i as int);
        assert(given.subrange(0, i + 1).drop_last() =~= before);
        assert(given.subrange(0, i + 1).last() == c);
        match c {
            Some(commit) => kept.push(commit),
            None => {},
        }
        i = i + 1;
    }
    assert(given.subrange(0, n as int) =~= given);
    kept
}

/// The commit at HEAD: the first of the commits walked from it. Refused when
/// the walk found no commit.
pub fn head_commit<'a, 'repo>(commits: &'a Vec<git2::Commit<'repo>>) -> (r: Result<
    &'a git2::Commit<'repo>,
    GitError,
>)
    ensures
        r is Err <==> commits@.len() == 0,
        r matches Err(e) ==> e is NoCommits,
        r matches Ok(c) ==> *c == commits@[0],
{
    if commits.len() == 0 {
        Err(GitError::NoCommits)
    } else {
        Ok(&commits[0])
    }
}

/// The history of the file whose latest version is `latest`, read from the
/// changes that each of `commits` (newest first) made: one set of changes
/// per commit, then the trace of them ([`history_from_changes`]). Which
/// changes git2 reads depends on the disk. Refused when a commit's changes
/// cannot be read, and when no commit produced the file.
pub fn read_history<'repo>(
    repo: &'repo git2::Repository,
    commits: &Vec<git2::Commit<'repo>>,
    latest: &FileSide,
) -> (r: Result<History, GitError>)
    ensures
        match r {
            Ok(h) => {
                &&& is_history(h@)
                &&& forall|i: int| 0 <= i < h@.len() - 1 ==> #[trigger] continues(h@, i)
                &&& exists|steps: Seq<Seq<ChangeView>>|
                    steps.len() == commits@.len() && #[trigger] traces(h@, steps, latest@)
            },
            Err(e) => e is Unreadable || e is NoChanges,
        },
        commits@.len() == 0 ==> r matches Err(GitError::NoChanges),
{
    let mut steps: Vec<CommitChanges> = Vec::new();
    let mut k: usize = 0;
    while k < commits.len()
        invariant
            k <= commits@.len(),
            steps@.len() == k,
        decreases commits@.len() - k,
    {
        match commit_changes(repo, &commits[k]) {
            Ok(step) => steps.push(step),
            Err(e) => return Err(e),
        }
        k = k + 1;
    }
    match history_from_changes(&steps, latest) {
        Ok(h) => {
            proof {
                let read = changes_views(steps@);
                assert(read.len() == commits@.len());
                assert(traces(h@, read, latest@));
                reveal(turning_changes);
            }
            Ok(h)
        },
        Err(_) => Err(GitError::NoChanges),
    }
}

/// The file, taken from `workdir`, has the path `rel` relative to some root:
/// the working directory of the repository, which is found on disk.
pub open spec fn made_relative(file_path: Seq<char>, workdir: Seq<char>, rel: Seq<char>) -> bool {
    exists|root: Seq<char>| #[trigger] path_after_prefix(joined_path(workdir, file_path), root) == Some(rel)
}

/// The history of the file at `file_path` (taken from `workdir`) in `repo`:
/// the commits on the first-parent line from HEAD whose change produced the
/// version of the file that is followed, newest first, the file being
/// followed through renames.
///
/// The steps, each decided by a verified function on what git2 answered:
/// the path relative to the repository's working directory
/// ([`relative_path`]); the walk of the commits from HEAD; the entry at that
/// path on HEAD, which must be a file ([`check_head_entry`]) and, when there
/// is none, the submodule the path goes through ([`not_found_error`]); and
/// the trace of the changes of the commits ([`history_from_changes`]). What
/// git2 answers depends on the repository on disk.
///
/// Refused when the repository has no working directory, when the file lies
/// outside it, when the commit graph cannot be walked, when HEAD has no such
/// file (or it is a submodule or a directory), when the repository cannot be
/// read, and when no commit changed the file. `args` are the options of the
/// viewer that shows the history; the history itself does not depend on them.
#[allow(unused_variables)]
pub fn get_history_with_workdir(
    file_path: &str,
    repo: &git2::Repository,
    args: &Args,
    workdir: &str,
) -> (r: Result<History, GitError>)
    ensures
        r matches Ok(h) ==> {
            &&& is_history(h@)
            &&& forall|i: int| 0 <= i < h@.len() - 1 ==> #[trigger] continues(h@, i)
            &&& exists|rel: Seq<char>, steps: Seq<Seq<ChangeView>>, id: Seq<u8>|
                #[trigger] made_relative(file_path@, workdir@, rel) && #[trigger] traces(
                    h@,
                    steps,
                    FileSideView { id, path: Some(encode_utf8(rel)) },
                )
        },
        r matches Err(GitError::OutsideRepository { file_path: f, root, .. }) ==> f@ == file_path@
            && path_after_prefix(joined_path(workdir@, file_path@), root@) is None,
        r matches Err(e) ==> ((e is InsideSubmodule || e is NotFoundOnHead) ==> exists|
            rel: Seq<char>,
            entries: Seq<(Seq<char>, Option<ObjectKind>)>,
        |
            #[trigger] made_relative(file_path@, workdir@, rel) && #[trigger] looked_up_along(
                rel,
                entries,
            ) && reports_missing(e, file_path@, rel, entries)),
        r matches Err(GitError::IsSubmodule { file_path: f }) ==> f@ == file_path@,
        r matches Err(GitError::IsDirectory { file_path: f }) ==> f@ == file_path@,
        r matches Err(e) ==> !(e is OpenFailed) && !(e is BareRepository),
        r matches Err(e) ==> (!(e is NoRepositoryRoot) && !(e is OutsideRepository) ==> exists|
            rel: Seq<char>,
        | #[trigger] made_relative(file_path@, workdir@, rel)),
{
    let root = repository_workdir(repo);
    let ghost given_root = root;
    let relative = match relative_path(file_path, workdir, root) {
        Ok(relative) => relative,
        Err(e) => return Err(e),
    };
    proof {
        let root = given_root->0;
        assert(path_after_prefix(joined_path(workdir@, file_path@), root@) == Some(relative@));
        assert(made_relative(file_path@, workdir@, relative@));
    }
    let mut walk = match new_revwalk(repo) {
        Ok(walk) => walk,
        Err(e) => return Err(GitError::WalkFailed { cause: error_text(&e) }),
    };
    match revwalk_push_head(&mut walk) {
        Ok(()) => {},
        Err(e) => return Err(GitError::HeadNotFound { cause: error_text(&e) }),
    }
    match revwalk_first_parent(&mut walk) {
        Ok(()) => {},
        Err(e) => return Err(GitError::Unreadable { cause: error_text(&e) }),
    }
    let ids = walked_ids(walk);
    let found = look_up_commits(repo, &ids);
    let commits = kept_commits(found);
    let head = match head_commit(&commits) {
        Ok(head) => head,
        Err(e) => return Err(e),
    };
    let head_tree = match commit_tree(head) {
        Ok(tree) => tree,
        Err(e) => return Err(GitError::Unreadable { cause: error_text(&e) }),
    };
    let entry = tree_entry(&head_tree, relative.as_str());
    let found = match &entry {
        Some(e) => Some(entry_kind(e)),
        None => None,
    };
    let entries = match &entry {
        Some(_) => Vec::new(),
        None => leading_entries(&head_tree, relative.as_str()),
    };
    match head_lookup_outcome(file_path, relative.as_str(), found, &entries) {
        Ok(()) => {},
        Err(e) => {
            proof {
                if entry is None {
                    assert(looked_up_along(relative@, entry_views(entries@)));
                }
            }
            return Err(e);
        },
    }
    let latest_id = entry_id(&entry.unwrap());
    let latest = FileSide::new(oid_bytes(&latest_id), Some(relative.as_str().as_bytes_vec()));
    match read_history(repo, &commits, &latest) {
        Ok(h) => {
            proof {
                let ghost followed = FileSideView {
                    id: latest@.id,
                    path: Some(encode_utf8(relative@)),
                };
                assert(latest@ == followed);
                let steps = choose|steps: Seq<Seq<ChangeView>>|
                    steps.len() == commits@.len() && #[trigger] traces(h@, steps, latest@);
                assert(traces(h@, steps, followed));
                assert(made_relative(file_path@, workdir@, relative@));
            }
            Ok(h)
        },
        Err(e) => Err(e),
    }
}

} // verus!
