use std::path::PathBuf;
use std::time::SystemTime;
use std::time::UNIX_EPOCH;

use cid::git::decide_commit;
use cid::git::CommitAction;
use cid::git::GitRepo;
use cid::git::RepoError;

/// A directory under /tmp that no earlier run used.
fn unique_dir(name: &str) -> String {
    let nanos = SystemTime::now().duration_since(UNIX_EPOCH).unwrap().as_nanos();
    format!("/tmp/cid-test-{}-{}", name, nanos)
}

/// Writes `content` to the working tree's `dump.sql`, leaving the index alone.
fn write_dump(repo_path: &str, content: &[u8]) {
    let raw = git2::Repository::open(repo_path).unwrap();
    let blob = raw.blob(content).unwrap();
    let mut builder = raw.treebuilder(None).unwrap();
    builder.insert("dump.sql", blob, 0o100644).unwrap();
    let tree = raw.find_tree(builder.write().unwrap()).unwrap();
    let mut checkout = git2::build::CheckoutBuilder::new();
    checkout.force().update_index(false);
    raw.checkout_tree(tree.as_object(), Some(&mut checkout)).unwrap();
}

fn set_identity(repo_path: &str) {
    let raw = git2::Repository::open(repo_path).unwrap();
    let mut config = raw.config().unwrap();
    config.set_str("user.name", "Tester").unwrap();
    config.set_str("user.email", "tester@example.com").unwrap();
}

/// A fresh repository, with an identity for its commits.
fn fresh_repo(name: &str) -> (GitRepo, String) {
    let path = unique_dir(name);
    let repo = GitRepo::upsert(&path).unwrap();
    set_identity(&path);
    (repo, path)
}

fn commit_content(repo: &GitRepo, path: &str, content: &[u8], message: &str) -> Option<String> {
    write_dump(path, content);
    repo.commit_file("dump.sql", message).unwrap()
}

fn history(repo: &GitRepo) -> Vec<(String, String)> {
    let mut walk = repo.commit_iterator().unwrap();
    let mut commits = Vec::new();
    while let Some(commit) = walk.next() {
        let commit = commit.unwrap();
        commits.push((commit.hash, commit.message));
    }
    commits
}

#[test]
fn it_should_create_repo_when_repo_does_not_exist() {
    let repo_path = String::from("/tmp/test-repo");

    GitRepo::upsert(&repo_path).unwrap();

    assert!(PathBuf::from(&repo_path).exists());
    assert!(PathBuf::from(&repo_path).join(".git").exists());
}

#[test]
fn it_should_create_initial_commit_on_bare_repo() {
    let (repo, path) = fresh_repo("initial-commit");
    let path = path.as_str();
    let hash = commit_content(&repo, path, b"", "first").unwrap();
    let raw = git2::Repository::open(path).unwrap();
    let commit = raw.find_commit(git2::Oid::from_str(&hash).unwrap()).unwrap();
    assert_eq!(commit.parent_count(), 0);
    assert_eq!(history(&repo), vec![(hash, "first".to_string())]);
}

#[test]
fn committing_same_content_twice_creates_one_commit() {
    let (repo, path) = fresh_repo("idempotent");
    let path = path.as_str();
    let first = commit_content(&repo, path, b"A", "v1");
    assert!(first.is_some());
    let second = commit_content(&repo, path, b"A", "v1");
    assert_eq!(second, None);
    assert_eq!(history(&repo).len(), 1);
    let third = commit_content(&repo, path, b"B", "v2");
    assert!(third.is_some());
    assert_eq!(commit_content(&repo, path, b"B", "v2 again"), None);
    assert_eq!(history(&repo).len(), 2);
}

#[test]
fn history_is_newest_first() {
    let (repo, path) = fresh_repo("history");
    let path = path.as_str();
    let c1 = commit_content(&repo, path, b"1", "c1").unwrap();
    let c2 = commit_content(&repo, path, b"2", "c2").unwrap();
    let c3 = commit_content(&repo, path, b"3", "c3").unwrap();
    let hashes: Vec<String> = history(&repo).into_iter().map(|(h, _)| h).collect();
    assert_eq!(hashes, vec![c3.clone(), c2.clone(), c1.clone()]);
    assert_eq!(repo.head().unwrap(), c3);
    for hash in [&c1, &c2, &c3] {
        assert_eq!(hash.len(), 40);
        assert!(hash.chars().all(|c| c.is_ascii_hexdigit()));
    }
}

#[test]
fn every_commit_gives_back_its_content() {
    let (repo, path) = fresh_repo("round-trip");
    let path = path.as_str();
    let contents: Vec<&[u8]> = vec![b"root", b"", b"\x00\xffbinary", b"last"];
    let mut hashes = Vec::new();
    for (i, content) in contents.iter().enumerate() {
        hashes.push(commit_content(&repo, path, content, &format!("c{}", i)).unwrap());
    }
    for (hash, content) in hashes.iter().zip(contents.iter()) {
        assert_eq!(repo.get_file_content_at_commit("dump.sql", hash.clone()).unwrap(), content.to_vec());
    }
}

#[test]
fn unknown_hash_is_not_found() {
    let (repo, path) = fresh_repo("unknown");
    let path = path.as_str();
    commit_content(&repo, path, b"A", "v1").unwrap();
    let hash = "deadbeef".repeat(5);
    match repo.get_file_content_at_commit("dump.sql", hash.clone()) {
        Err(RepoError::CommitNotFound { hash: h }) => assert_eq!(h, hash),
        other => panic!("unexpected {:?}", other),
    }
    match repo.get_file_content_at_commit("dump.sql", "not-a-hash".to_string()) {
        Err(RepoError::CommitNotFound { hash: h }) => assert_eq!(h, "not-a-hash"),
        other => panic!("unexpected {:?}", other),
    }
    match repo.find_commit_by_id(hash.clone()) {
        Err(RepoError::CommitNotFound { hash: h }) => assert_eq!(h, hash),
        other => panic!("unexpected {:?}", other),
    }
}

#[test]
fn missing_file_in_tree_is_path_not_found() {
    let (repo, path) = fresh_repo("missing-path");
    let path = path.as_str();
    let hash = commit_content(&repo, path, b"A", "v1").unwrap();
    match repo.get_file_content_at_commit("other.sql", hash.clone()) {
        Err(RepoError::PathNotFoundInTree { hash: h, path: p }) => {
            assert_eq!(h, hash);
            assert_eq!(p, "other.sql");
        }
        other => panic!("unexpected {:?}", other),
    }
}

#[test]
fn commit_decision_follows_history_and_changes() {
    assert_eq!(decide_commit(true, 0), CommitAction::CreateRoot);
    assert_eq!(decide_commit(true, 3), CommitAction::CreateRoot);
    assert_eq!(decide_commit(false, 0), CommitAction::Skip);
    assert_eq!(decide_commit(false, 1), CommitAction::CreateOnHead);
}
