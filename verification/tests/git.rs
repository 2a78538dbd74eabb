use git2::{Oid, Repository, Signature, Time};
use git_hist::app::diff::ChangeStatus;
use git_hist::app::git;
use git_hist::app::git::GitError;
use git_hist::app::history::History;
use git_hist::app::repository::ObjectKind;
use git_hist::args::{Args, UserType};

// ------------------------------------------------------------
// Fixture repositories, written object by object with git2.
// Commits carry fixed dates, so the same objects come out on
// every run and a fixture can be written again over itself.
// ------------------------------------------------------------

enum Node {
    File(&'static str),
    Dir(Vec<(&'static str, Node)>),
    Submodule,
}

fn write_tree(repo: &Repository, entries: &[(&'static str, Node)]) -> Oid {
    let mut builder = repo.treebuilder(None).unwrap();
    for (name, node) in entries {
        match node {
            Node::File(content) => {
                let id = repo.blob(content.as_bytes()).unwrap();
                builder.insert(name, id, 0o100644).unwrap();
            }
            Node::Dir(children) => {
                let id = write_tree(repo, children);
                builder.insert(name, id, 0o040000).unwrap();
            }
            Node::Submodule => {
                let id = Oid::from_str("0123456789abcdef0123456789abcdef01234567").unwrap();
                builder.insert(name, id, 0o160000).unwrap();
            }
        }
    }
    builder.write().unwrap()
}

fn write_commits(path: &str, snapshots: Vec<(&'static str, Vec<(&'static str, Node)>)>) -> String {
    let repo = Repository::init(path).unwrap();
    let mut parent: Option<Oid> = None;
    for (i, (message, entries)) in snapshots.iter().enumerate() {
        let tree = repo.find_tree(write_tree(&repo, entries)).unwrap();
        let sig = Signature::new("Tester", "tester@example.com", &Time::new(1_700_000_000 + 1000 * i as i64, 0))
            .unwrap();
        let parents: Vec<git2::Commit> = parent.iter().map(|id| repo.find_commit(*id).unwrap()).collect();
        let parent_refs: Vec<&git2::Commit> = parents.iter().collect();
        let id = repo.commit(None, &sig, &sig, message, &tree, &parent_refs).unwrap();
        parent = Some(id);
    }
    repo.reference("refs/heads/master", parent.unwrap(), true, "fixture").unwrap();
    repo.set_head("refs/heads/master").unwrap();
    path.to_string()
}

/// A repository shaped like the git-hist project: `Cargo.toml` changed by
/// three commits, `README.md` by two, `src` a directory.
fn project_repo(tag: &str) -> String {
    let path = format!("/tmp/git_hist_fixture_project_{}", tag);
    write_commits(
        &path,
        vec![
            (
                "initial",
                vec![
                    ("Cargo.toml", Node::File("[package]\nname = \"git-hist\"\nversion = \"1.0.0\"\n")),
                    ("README.md", Node::File("# git-hist\n")),
                    ("src", Node::Dir(vec![("main.rs", Node::File("fn main() {}\n"))])),
                ],
            ),
            (
                "bump version",
                vec![
                    ("Cargo.toml", Node::File("[package]\nname = \"git-hist\"\nversion = \"1.0.1\"\n")),
                    ("README.md", Node::File("# git-hist\n")),
                    ("src", Node::Dir(vec![("main.rs", Node::File("fn main() {}\n"))])),
                ],
            ),
            (
                "document",
                vec![
                    ("Cargo.toml", Node::File("[package]\nname = \"git-hist\"\nversion = \"1.0.1\"\n")),
                    ("README.md", Node::File("# git-hist\n\nBrowse the history of a file.\n")),
                    ("src", Node::Dir(vec![("main.rs", Node::File("fn main() {}\n"))])),
                ],
            ),
            (
                "add dependency",
                vec![
                    (
                        "Cargo.toml",
                        Node::File("[package]\nname = \"git-hist\"\nversion = \"1.1.0\"\n\n[dependencies]\ngit2 = \"*\"\n"),
                    ),
                    ("README.md", Node::File("# git-hist\n\nBrowse the history of a file.\n")),
                    ("src", Node::Dir(vec![("main.rs", Node::File("fn main() {}\n"))])),
                ],
            ),
        ],
    )
}

/// A repository shaped like a project with a submodule `org`, a `README.md`
/// changed by two commits, and `NOTES.md` renamed to `GUIDE.md` then edited.
fn assistant_repo(tag: &str) -> String {
    let path = format!("/tmp/git_hist_fixture_assistant_{}", tag);
    write_commits(
        &path,
        vec![
            (
                "initial",
                vec![
                    ("CHANGELOG.md", Node::File("# Changelog\n")),
                    ("NOTES.md", Node::File("notes\nmore notes\neven more notes\n")),
                    ("README.md", Node::File("# assistant\n")),
                    ("org", Node::Submodule),
                ],
            ),
            (
                "rename notes",
                vec![
                    ("CHANGELOG.md", Node::File("# Changelog\n")),
                    ("GUIDE.md", Node::File("notes\nmore notes\neven more notes\n")),
                    ("README.md", Node::File("# assistant\n\nA helper.\n")),
                    ("org", Node::Submodule),
                ],
            ),
            (
                "edit guide",
                vec![
                    ("CHANGELOG.md", Node::File("# Changelog\n\n- guide\n")),
                    ("GUIDE.md", Node::File("notes\nmore notes\neven more notes\nand a last one\n")),
                    ("README.md", Node::File("# assistant\n\nA helper.\n")),
                    ("org", Node::Submodule),
                ],
            ),
        ],
    )
}

fn default_args(file_path: &str) -> Args {
    Args {
        file_path: file_path.to_string(),
        should_use_full_commit_hash: false,
        beyond_last_line: false,
        should_emphasize_diff: false,
        user_for_name: UserType::Author,
        user_for_date: UserType::Author,
        date_format: String::from("[%Y-%m-%d]"),
        tab_spaces: String::from("    "),
    }
}

fn history_of(repo_path: &str, file: &str) -> Result<History, GitError> {
    let repo = Repository::open(repo_path).unwrap();
    let args = default_args(file);
    git::get_history_with_workdir(file, &repo, &args, repo_path)
}

fn every_error() -> Vec<GitError> {
    vec![
        GitError::OpenFailed { path: "/somewhere".to_string(), cause: "could not find repository".to_string() },
        GitError::BareRepository,
        GitError::NoRepositoryRoot,
        GitError::OutsideRepository {
            file_path: "Cargo.toml".to_string(),
            root: "/repo".to_string(),
            cause: "prefix not found".to_string(),
        },
        GitError::WalkFailed { cause: "boom".to_string() },
        GitError::HeadNotFound { cause: "boom".to_string() },
        GitError::Unreadable { cause: "boom".to_string() },
        GitError::NoCommits,
        GitError::InsideSubmodule {
            file_path: "org/DIGEST.md".to_string(),
            submodule: "org".to_string(),
            rest: "DIGEST.md".to_string(),
        },
        GitError::NotFoundOnHead { file_path: "nonexistent.txt".to_string() },
        GitError::IsSubmodule { file_path: "org".to_string() },
        GitError::IsDirectory { file_path: "src".to_string() },
        GitError::NoChanges,
    ]
}

// ============================================================
// BUG: Error message typos in git.rs
// ============================================================

#[test]
fn bug_error_message_typo_faild() {
    for e in every_error() {
        assert!(
            !e.message().contains("Faild"),
            "BUG: git.rs contains typo 'Faild' — should be 'Failed'"
        );
    }
}

#[test]
fn bug_error_message_typo_dose() {
    let path = "/tmp/git_hist_fixture_bare_dose";
    Repository::init_bare(path).unwrap();
    let result = git::get_repository_at(path);
    assert!(result.is_err());
    let err_msg = match result {
        Err(e) => e.message(),
        Ok(_) => unreachable!(),
    };
    assert!(
        !err_msg.contains("dose not"),
        "BUG: Error message contains typo 'dose not': {}",
        err_msg
    );
    assert!(
        err_msg.contains("does not"),
        "Error message should contain 'does not': {}",
        err_msg
    );
}

// ============================================================
// Repository discovery
// ============================================================

#[test]
fn test_get_repository_at_git_hist() {
    let path = project_repo("open");
    let repo = git::get_repository_at(&path);
    assert!(repo.is_ok(), "Should open git-hist repo");
    assert!(!repo.unwrap().is_bare());
}

#[test]
fn test_get_repository_at_assistant() {
    let path = assistant_repo("open");
    let repo = git::get_repository_at(&path);
    assert!(repo.is_ok(), "Should open assistant repo with submodules");
    assert!(!repo.unwrap().is_bare());
}

#[test]
fn test_get_repository_at_nonexistent_path() {
    let result = git::get_repository_at("/tmp/nonexistent-repo-xyz");
    assert!(result.is_err());
}

#[test]
fn get_repository_at_finds_the_repository_above_a_subdirectory() {
    let path = project_repo("discover_above");
    let below = format!("{}/.git/refs", path);
    let repo = git::get_repository_at(&below).unwrap();
    assert!(!repo.is_bare());
}

#[test]
fn get_repository_at_names_the_path_when_it_fails() {
    match git::get_repository_at("/tmp/nonexistent-repo-xyz") {
        Err(GitError::OpenFailed { path, .. }) => assert_eq!(path, "/tmp/nonexistent-repo-xyz"),
        _ => panic!("expected OpenFailed"),
    }
}

// ============================================================
// History extraction
// ============================================================

#[test]
fn test_get_history_cargo_toml() {
    let path = project_repo("cargo_toml");
    let history = history_of(&path, "Cargo.toml");
    assert!(history.is_ok());
    assert!(history.unwrap().latest().is_some());
}

#[test]
fn test_get_history_nonexistent_file() {
    let path = project_repo("nonexistent_file");
    let result = history_of(&path, "nonexistent.txt");
    assert!(result.is_err());
    let err_msg = result.err().unwrap().message();
    assert!(
        err_msg.contains("not found on HEAD"),
        "Error should mention file not found, got: {}",
        err_msg
    );
}

#[test]
fn test_get_history_directory_path_fails() {
    let path = project_repo("directory");
    let result = history_of(&path, "src");
    assert!(result.is_err());
    let err_msg = result.err().unwrap().message();
    assert!(
        err_msg.contains("is a directory"),
        "Error should mention it's a directory, got: {}",
        err_msg
    );
}

#[test]
fn test_get_history_assistant_repo_with_submodules() {
    let path = assistant_repo("changelog");
    let history = history_of(&path, "CHANGELOG.md");
    assert!(
        history.is_ok(),
        "Should get history in repo with submodules: {:?}",
        history.err()
    );
}

#[test]
fn test_get_history_assistant_readme() {
    let path = assistant_repo("readme");
    let history = history_of(&path, "README.md");
    assert!(history.is_ok(), "{:?}", history.err());
    let history = history.unwrap();
    let latest = history.latest().unwrap();
    assert!(
        !latest.is_earliest(),
        "README.md should have more than one turning point"
    );
}

#[test]
fn test_submodule_path_is_not_a_blob() {
    let path = assistant_repo("submodule_path");
    let result = history_of(&path, "org");
    assert!(result.is_err(), "Submodule path should not be a blob");
    let err_msg = result.err().unwrap().message();
    assert!(
        err_msg.contains("submodule"),
        "Error should mention submodule, got: {}",
        err_msg
    );
}

#[test]
fn test_file_inside_submodule_error_mentions_submodule() {
    let path = assistant_repo("inside_submodule");
    let result = history_of(&path, "org/DIGEST.md");
    assert!(result.is_err(), "File inside submodule should fail");
    let err_msg = result.err().unwrap().message();
    assert!(
        err_msg.contains("submodule"),
        "Error should mention submodule, got: {}",
        err_msg
    );
}

#[test]
fn file_inside_submodule_names_the_submodule_and_the_rest() {
    let path = assistant_repo("inside_submodule_parts");
    match history_of(&path, "org/DIGEST.md") {
        Err(e) => {
            assert_eq!(
                e.message(),
                "The path 'org/DIGEST.md' is inside the submodule 'org'. \
                 Run git-hist from within the submodule instead:\n  cd org && git hist DIGEST.md"
            );
            match e {
                GitError::InsideSubmodule { submodule, rest, .. } => {
                    assert_eq!(submodule, "org");
                    assert_eq!(rest, "DIGEST.md");
                }
                _ => panic!("expected InsideSubmodule"),
            }
        }
        Ok(_) => panic!("expected an error"),
    }
}

#[test]
fn submodule_path_error_is_exact() {
    let path = assistant_repo("submodule_exact");
    match history_of(&path, "org") {
        Err(e) => assert_eq!(
            e.message(),
            "The path 'org' is a submodule, not a file. \
             Run git-hist from within the submodule instead:\n  cd org"
        ),
        Ok(_) => panic!("expected an error"),
    }
}

#[test]
fn missing_file_in_a_directory_is_not_found() {
    let path = project_repo("missing_in_dir");
    match history_of(&path, "src/lib.rs") {
        Err(GitError::NotFoundOnHead { file_path }) => assert_eq!(file_path, "src/lib.rs"),
        _ => panic!("expected NotFoundOnHead"),
    }
}

#[test]
fn test_get_history_path_outside_repo_returns_error() {
    let path = project_repo("outside");
    let repo = Repository::open(&path).unwrap();
    let args = default_args("Cargo.toml");
    let result = git::get_history_with_workdir("Cargo.toml", &repo, &args, "/tmp");
    assert!(
        result.is_err(),
        "Path outside repo should return error, not panic"
    );
    let err_msg = result.err().unwrap().message();
    assert!(
        err_msg.contains("not inside"),
        "Error should mention path not inside repo, got: {}",
        err_msg
    );
}

// ============================================================
// Navigation over a real history
// ============================================================

#[test]
fn test_history_latest_is_marked() {
    let path = project_repo("latest_marked");
    let history = history_of(&path, "Cargo.toml").unwrap();
    let latest = history.latest().unwrap();
    assert!(latest.is_latest());
    assert!(!latest.is_earliest());
}

#[test]
fn test_history_backward_navigation() {
    let path = project_repo("backward");
    let history = history_of(&path, "Cargo.toml").unwrap();
    let latest = history.latest().unwrap();
    let prev = history.backward(latest);
    assert!(prev.is_some());
    assert!(!prev.unwrap().is_latest());
}

#[test]
fn test_history_forward_from_latest_is_none() {
    let path = project_repo("forward_none");
    let history = history_of(&path, "Cargo.toml").unwrap();
    assert!(history.forward(history.latest().unwrap()).is_none());
}

#[test]
fn test_history_backward_then_forward_roundtrip() {
    let path = project_repo("roundtrip");
    let history = history_of(&path, "Cargo.toml").unwrap();
    let latest = history.latest().unwrap();
    let prev = history.backward(latest).unwrap();
    let back = history.forward(prev).unwrap();
    assert!(back.is_latest());
}

#[test]
fn test_history_walk_to_earliest() {
    let path = project_repo("walk");
    let history = history_of(&path, "Cargo.toml").unwrap();
    let mut point = history.latest().unwrap();
    let mut count = 1;
    while let Some(prev) = history.backward(point) {
        point = prev;
        count += 1;
    }
    assert!(point.is_earliest());
    assert!(count > 1);
}

#[test]
fn full_walk_over_assistant_readme() {
    let path = assistant_repo("workflow");
    let history = history_of(&path, "README.md").unwrap();
    let mut point = history.latest().unwrap();
    let mut count = 1;
    while let Some(prev) = history.backward(point) {
        point = prev;
        count += 1;
        let _ = point.diff().status();
        let _ = point.commit().summary();
    }
    assert!(point.is_earliest());
    assert!(count >= 2);
}

#[test]
fn cargo_toml_has_exactly_its_three_turning_points() {
    let path = project_repo("three_points");
    let history = history_of(&path, "Cargo.toml").unwrap();
    let mut summaries = Vec::new();
    let mut point = history.latest();
    while let Some(p) = point {
        summaries.push(p.commit().summary().unwrap().to_string());
        point = history.backward(p);
    }
    assert_eq!(summaries, vec!["add dependency", "bump version", "initial"]);
    let latest = history.latest().unwrap();
    assert_eq!(latest.diff().status(), ChangeStatus::Modified);
    assert_eq!(latest.diff().new_file().path, Some(b"Cargo.toml".to_vec()));
    assert_eq!(latest.commit().id().len(), 20);
}

#[test]
fn history_follows_a_renamed_file() {
    let path = assistant_repo("rename");
    let history = history_of(&path, "GUIDE.md").unwrap();
    let edit = history.latest().unwrap();
    assert_eq!(edit.commit().summary(), Some("edit guide"));
    assert_eq!(edit.diff().status(), ChangeStatus::Modified);
    let rename = history.backward(edit).unwrap();
    assert_eq!(rename.commit().summary(), Some("rename notes"));
    assert_eq!(rename.diff().status(), ChangeStatus::Renamed);
    assert_eq!(rename.diff().old_file().path, Some(b"NOTES.md".to_vec()));
    assert_eq!(rename.diff().new_file().path, Some(b"GUIDE.md".to_vec()));
    let creation = history.backward(rename).unwrap();
    assert_eq!(creation.commit().summary(), Some("initial"));
    assert_eq!(creation.diff().status(), ChangeStatus::Added);
    assert!(creation.is_earliest());
    assert!(history.backward(creation).is_none());
}

#[test]
fn consecutive_turning_points_chain_up() {
    let path = assistant_repo("chain");
    let history = history_of(&path, "GUIDE.md").unwrap();
    let mut point = history.latest().unwrap();
    while let Some(older) = history.backward(point) {
        assert_eq!(older.diff().new_file().id, point.diff().old_file().id);
        assert_eq!(older.diff().new_file().path, point.diff().old_file().path);
        point = older;
    }
}

#[test]
fn workdir_in_a_subdirectory_finds_the_file() {
    let path = project_repo("subdir");
    let repo = Repository::open(&path).unwrap();
    let args = default_args("main.rs");
    let workdir = format!("{}/src", path);
    let history = git::get_history_with_workdir("main.rs", &repo, &args, &workdir).unwrap();
    assert!(history.latest().unwrap().is_earliest());
}

#[test]
fn every_error_message_is_exact() {
    let expected = vec![
        "Failed to open a git repository at '/somewhere': could not find repository",
        "git-hist does not support a bare repository",
        "Failed to determine repository root",
        "File path 'Cargo.toml' is not inside the git repository at '/repo': prefix not found",
        "Failed to traverse the commit graph: boom",
        "Failed to find HEAD: boom",
        "boom",
        "Failed to get any commit",
        "The path 'org/DIGEST.md' is inside the submodule 'org'. \
         Run git-hist from within the submodule instead:\n  cd org && git hist DIGEST.md",
        "File 'nonexistent.txt' not found on HEAD. Check the path and try again",
        "The path 'org' is a submodule, not a file. \
         Run git-hist from within the submodule instead:\n  cd org",
        "'src' is a directory, not a file. Provide a path to a file instead",
        "No changes found for this file in the commit history",
    ];
    let got: Vec<String> = every_error().iter().map(|e| e.message()).collect();
    assert_eq!(got, expected);
}

#[test]
fn check_head_entry_accepts_only_files() {
    assert!(git::check_head_entry("a", Some(ObjectKind::Blob)).is_ok());
    match git::check_head_entry("a", Some(ObjectKind::Commit)) {
        Err(GitError::IsSubmodule { file_path }) => assert_eq!(file_path, "a"),
        _ => panic!("expected IsSubmodule"),
    }
    for kind in [Some(ObjectKind::Tree), Some(ObjectKind::Tag), Some(ObjectKind::Any), None] {
        match git::check_head_entry("a", kind) {
            Err(GitError::IsDirectory { file_path }) => assert_eq!(file_path, "a"),
            _ => panic!("expected IsDirectory"),
        }
    }
}

#[test]
fn not_found_error_names_the_first_submodule() {
    let entries = vec![
        ("a".to_string(), Some(ObjectKind::Tree)),
        ("a/b".to_string(), Some(ObjectKind::Commit)),
        ("a/b/c".to_string(), Some(ObjectKind::Commit)),
    ];
    match git::not_found_error("x/a/b/c/d.md", "a/b/c/d.md", &entries) {
        GitError::InsideSubmodule { file_path, submodule, rest } => {
            assert_eq!(file_path, "x/a/b/c/d.md");
            assert_eq!(submodule, "a/b");
            assert_eq!(rest, "c/d.md");
        }
        _ => panic!("expected InsideSubmodule"),
    }
}

#[test]
fn not_found_error_without_submodule_is_not_found() {
    let entries = vec![("a".to_string(), Some(ObjectKind::Tree)), ("a/b".to_string(), None)];
    match git::not_found_error("a/b", "a/b", &entries) {
        GitError::NotFoundOnHead { file_path } => assert_eq!(file_path, "a/b"),
        _ => panic!("expected NotFoundOnHead"),
    }
    match git::not_found_error("z", "z", &vec![]) {
        GitError::NotFoundOnHead { file_path } => assert_eq!(file_path, "z"),
        _ => panic!("expected NotFoundOnHead"),
    }
}

#[test]
fn relative_path_strips_the_root() {
    match git::relative_path("src/main.rs", "/repo", Some("/repo/".to_string())) {
        Ok(rel) => assert_eq!(rel, "src/main.rs"),
        Err(e) => panic!("{}", e.message()),
    }
    match git::relative_path("main.rs", "/repo/src", Some("/repo".to_string())) {
        Ok(rel) => assert_eq!(rel, "src/main.rs"),
        Err(e) => panic!("{}", e.message()),
    }
}

#[test]
fn relative_path_refuses_a_file_outside_the_root() {
    match git::relative_path("Cargo.toml", "/tmp", Some("/repo/".to_string())) {
        Err(GitError::OutsideRepository { file_path, root, .. }) => {
            assert_eq!(file_path, "Cargo.toml");
            assert_eq!(root, "/repo/");
        }
        _ => panic!("expected OutsideRepository"),
    }
}

#[test]
fn relative_path_without_working_directory_is_refused() {
    assert!(matches!(
        git::relative_path("Cargo.toml", "/repo", None),
        Err(GitError::NoRepositoryRoot)
    ));
}

#[test]
fn outside_repository_error_names_the_root() {
    let path = project_repo("outside_root");
    let repo = Repository::open(&path).unwrap();
    let args = default_args("Cargo.toml");
    match git::get_history_with_workdir("Cargo.toml", &repo, &args, "/tmp") {
        Err(GitError::OutsideRepository { file_path, root, .. }) => {
            assert_eq!(file_path, "Cargo.toml");
            assert_eq!(root, format!("{}/", path));
        }
        _ => panic!("expected OutsideRepository"),
    }
}

#[test]
fn opened_repository_decides_on_what_discovery_answered() {
    match git::opened_repository("/nowhere", Err("not found".to_string())) {
        Err(GitError::OpenFailed { path, cause }) => {
            assert_eq!(path, "/nowhere");
            assert_eq!(cause, "not found");
        }
        _ => panic!("expected OpenFailed"),
    }
    let path = project_repo("opened");
    let repo = Repository::open(&path).unwrap();
    assert!(matches!(
        git::opened_repository(&path, Ok((repo, true))),
        Err(GitError::BareRepository)
    ));
    let repo = Repository::open(&path).unwrap();
    let opened = git::opened_repository(&path, Ok((repo, false))).ok().unwrap();
    assert!(!opened.is_bare());
}

#[test]
fn file_ids_of_changes_are_sha1_ids() {
    let path = project_repo("file_ids");
    let history = history_of(&path, "Cargo.toml").unwrap();
    let mut point = history.latest();
    while let Some(p) = point {
        assert_eq!(p.diff().new_file().id.len(), 20);
        assert_eq!(p.diff().old_file().id.len(), 20);
        point = history.backward(p);
    }
}

#[test]
fn history_in_a_linked_worktree() {
    let path = project_repo("worktree_main");
    let tree_path = "/tmp/git_hist_fixture_project_worktree_linked";
    let repo = Repository::open(&path).unwrap();
    if Repository::open(tree_path).is_err() {
        repo.worktree("linked", std::path::Path::new(tree_path), None).unwrap();
    }
    let linked = Repository::open(tree_path).unwrap();
    let args = default_args("Cargo.toml");
    let history = git::get_history_with_workdir("Cargo.toml", &linked, &args, tree_path).unwrap();
    assert!(history.latest().unwrap().is_latest());
}

#[test]
fn kept_commits_leaves_out_failed_steps_in_order() {
    let path = project_repo("kept_commits");
    let repo = Repository::open(&path).unwrap();
    let head = repo.head().unwrap().peel_to_commit().unwrap();
    let parent = head.parent(0).unwrap();
    let (head_id, parent_id) = (head.id(), parent.id());
    let kept = git::kept_commits(vec![None, Some(head), None, Some(parent), None]);
    let ids: Vec<Oid> = kept.iter().map(|c| c.id()).collect();
    assert_eq!(ids, vec![head_id, parent_id]);
    assert!(git::kept_commits(vec![None, None]).is_empty());
}

#[test]
fn head_commit_is_the_first_walked() {
    let path = project_repo("head_commit");
    let repo = Repository::open(&path).unwrap();
    let head = repo.head().unwrap().peel_to_commit().unwrap();
    let parent = head.parent(0).unwrap();
    let head_id = head.id();
    let commits = vec![head, parent];
    assert_eq!(git::head_commit(&commits).ok().unwrap().id(), head_id);
    let none: Vec<git2::Commit> = vec![];
    assert!(matches!(git::head_commit(&none), Err(GitError::NoCommits)));
}

#[test]
fn read_history_reads_every_commit() {
    let path = project_repo("read_history");
    let repo = Repository::open(&path).unwrap();
    let mut commits = Vec::new();
    let mut c = repo.head().unwrap().peel_to_commit().unwrap();
    loop {
        let parent = c.parent(0).ok();
        commits.push(c);
        match parent {
            Some(p) => c = p,
            None => break,
        }
    }
    let tree = commits[0].tree().unwrap();
    let entry = tree.get_path(std::path::Path::new("Cargo.toml")).unwrap();
    let latest = git_hist::app::diff::FileSide::new(entry.id().as_bytes().to_vec(), Some(b"Cargo.toml".to_vec()));
    let history = git::read_history(&repo, &commits, &latest).ok().unwrap();
    let mut summaries = Vec::new();
    let mut point = history.latest();
    while let Some(p) = point {
        summaries.push(p.commit().summary().unwrap().to_string());
        point = history.backward(p);
    }
    assert_eq!(summaries, vec!["add dependency", "bump version", "initial"]);
    // Only the newest commit: the file's history stops there.
    let only_head = vec![repo.head().unwrap().peel_to_commit().unwrap()];
    let short = git::read_history(&repo, &only_head, &latest).ok().unwrap();
    assert!(short.latest().unwrap().is_earliest());
}

#[test]
fn head_lookup_outcome_for_each_answer() {
    assert!(git::head_lookup_outcome("a", "a", Some(Some(ObjectKind::Blob)), &vec![]).is_ok());
    assert!(matches!(
        git::head_lookup_outcome("a", "a", Some(Some(ObjectKind::Commit)), &vec![]),
        Err(GitError::IsSubmodule { .. })
    ));
    for kind in [Some(ObjectKind::Tree), Some(ObjectKind::Tag), Some(ObjectKind::Any), None] {
        assert!(matches!(
            git::head_lookup_outcome("a", "a", Some(kind), &vec![]),
            Err(GitError::IsDirectory { .. })
        ));
    }
    let entries = vec![("org".to_string(), Some(ObjectKind::Commit)), ("org/x".to_string(), None)];
    match git::head_lookup_outcome("org/x", "org/x", None, &entries) {
        Err(GitError::InsideSubmodule { submodule, rest, .. }) => {
            assert_eq!(submodule, "org");
            assert_eq!(rest, "x");
        }
        _ => panic!("expected InsideSubmodule"),
    }
    assert!(matches!(
        git::head_lookup_outcome("b", "b", None, &vec![("b".to_string(), None)]),
        Err(GitError::NotFoundOnHead { .. })
    ));
}

#[test]
fn read_history_of_no_commit_finds_no_change() {
    let path = project_repo("read_history_empty");
    let repo = Repository::open(&path).unwrap();
    let none: Vec<git2::Commit> = vec![];
    let latest = git_hist::app::diff::FileSide::new(vec![1; 20], Some(b"Cargo.toml".to_vec()));
    assert!(matches!(git::read_history(&repo, &none, &latest), Err(GitError::NoChanges)));
}

#[test]
fn outside_repository_error_carries_the_cause() {
    let path = project_repo("outside_cause");
    let repo = Repository::open(&path).unwrap();
    let args = default_args("Cargo.toml");
    let e = git::get_history_with_workdir("Cargo.toml", &repo, &args, "/tmp").err().unwrap();
    assert!(e.message().ends_with("': prefix not found"), "{}", e.message());
}
