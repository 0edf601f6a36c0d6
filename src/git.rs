//! The snapshot repository: a git repository whose one tracked file holds the
//! latest dump. Committing skips content that is already recorded, and any
//! recorded version of the file can be read back by its commit's hash.
//!
//! Object storage, hashing and tree diffing are git's, reached through the
//! `git2` crate.
use vstd::prelude::*;

use std::path::Path;

use git2::Commit as RawCommit;

verus! {

#[verifier::external_type_specification]
#[verifier::external_body]
pub struct ExRepository(git2::Repository);

#[verifier::external_type_specification]
#[verifier::external_body]
pub struct ExGitError(git2::Error);

#[verifier::external_type_specification]
#[verifier::external_body]
pub struct ExIndex(git2::Index);

#[verifier::external_type_specification]
#[verifier::external_body]
pub struct ExOid(git2::Oid);

#[verifier::external_type_specification]
#[verifier::external_body]
pub struct ExTree<'a>(git2::Tree<'a>);

#[verifier::external_type_specification]
#[verifier::external_body]
pub struct ExSignature<'a>(git2::Signature<'a>);

#[verifier::external_type_specification]
#[verifier::external_body]
pub struct ExGitCommit<'a>(RawCommit<'a>);

#[verifier::external_type_specification]
#[verifier::external_body]
pub struct ExDiff<'a>(git2::Diff<'a>);

#[verifier::external_type_specification]
#[verifier::external_body]
pub struct ExRevwalk<'a>(git2::Revwalk<'a>);

#[verifier::external_type_specification]
#[verifier::external_body]
pub struct ExTreeEntry<'a>(git2::TreeEntry<'a>);

#[verifier::external_type_specification]
#[verifier::external_body]
pub struct ExObject<'a>(git2::Object<'a>);

#[verifier::external_type_specification]
#[verifier::external_body]
pub struct ExBlob<'a>(git2::Blob<'a>);

/// Relies on git2::Repository::discover: opens the repository at `path` or at
/// the nearest of its ancestors that holds one.
#[verifier::external_body]
fn repository_discover(path: &str) -> (r: Result<git2::Repository, git2::Error>) {
    git2::Repository::discover(path)
}

/// Relies on git2::Repository::init: creates the directories and an empty
/// repository at `path`, or opens the one already there.
#[verifier::external_body]
fn repository_init(path: &str) -> (r: Result<git2::Repository, git2::Error>) {
    git2::Repository::init(path)
}

/// Relies on git2::Repository::index: the repository's index.
#[verifier::external_body]
fn repository_index(repo: &git2::Repository) -> (r: Result<git2::Index, git2::Error>) {
    repo.index()
}

/// Relies on git2::Index::write_tree: writes the index as a tree object and
/// returns its id.
#[verifier::external_body]
fn index_write_tree(index: &mut git2::Index) -> (r: Result<git2::Oid, git2::Error>) {
    index.write_tree()
}

/// Relies on git2::Index::add_path: stages the file at `path`, relative to
/// the working directory, with its content on disk.
#[verifier::external_body]
fn index_add_path(index: &mut git2::Index, path: &str) -> (r: Result<(), git2::Error>) {
    index.add_path(Path::new(path))
}

/// Relies on git2::Index::write: saves the index to disk.
#[verifier::external_body]
fn index_write(index: &mut git2::Index) -> (r: Result<(), git2::Error>) {
    index.write()
}

/// Relies on git2::Repository::find_tree: the tree object with id `oid`.
#[verifier::external_body]
fn repository_find_tree<'r>(repo: &'r git2::Repository, oid: git2::Oid) -> (r: Result<
    git2::Tree<'r>,
    git2::Error,
>) {
    repo.find_tree(oid)
}

/// Relies on git2::Repository::is_empty: whether the repository has no
/// commit yet.
#[verifier::external_body]
fn repository_is_empty(repo: &git2::Repository) -> (r: Result<bool, git2::Error>) {
    repo.is_empty()
}

/// Relies on git2::Repository::signature: the identity that git's
/// configuration gives for new commits.
#[verifier::external_body]
fn repository_signature(repo: &git2::Repository) -> (r: Result<git2::Signature<'static>, git2::Error>) {
    repo.signature()
}

/// Relies on git2::Repository::commit: creates a commit of `tree` with the
/// given parent, if any, moves `update_ref` to it and returns its id.
#[verifier::external_body]
fn repository_commit(
    repo: &git2::Repository,
    update_ref: &str,
    author: &git2::Signature<'_>,
    committer: &git2::Signature<'_>,
    message: &str,
    tree: &git2::Tree<'_>,
    parent: Option<&RawCommit<'_>>,
) -> (r: Result<git2::Oid, git2::Error>) {
    repo.commit(Some(update_ref), author, committer, message, tree, parent.as_slice())
}

/// Relies on git2::Repository::refname_to_id: the commit id that the
/// reference `name` resolves to.
#[verifier::external_body]
fn repository_refname_to_id(repo: &git2::Repository, name: &str) -> (r: Result<git2::Oid, git2::Error>) {
    repo.refname_to_id(name)
}

/// Relies on git2::Repository::find_commit: the commit with id `oid`.
#[verifier::external_body]
fn repository_find_commit<'r>(repo: &'r git2::Repository, oid: git2::Oid) -> (r: Result<
    RawCommit<'r>,
    git2::Error,
>) {
    repo.find_commit(oid)
}

/// Relies on git2::Repository::diff_tree_to_index: the changes from `old_tree`
/// to `index`.
#[verifier::external_body]
fn repository_diff_tree_to_index<'r>(
    repo: &'r git2::Repository,
    old_tree: &git2::Tree<'_>,
    index: &git2::Index,
) -> (r: Result<git2::Diff<'r>, git2::Error>) {
    repo.diff_tree_to_index(Some(old_tree), Some(index), None)
}

/// Relies on git2::Diff::deltas: the number of changed entries of a diff.
#[verifier::external_body]
fn diff_delta_count(diff: &git2::Diff<'_>) -> (r: usize) {
    diff.deltas().len()
}

/// Relies on git2::Repository::revwalk: a walk over the repository's commits.
#[verifier::external_body]
fn repository_revwalk<'r>(repo: &'r git2::Repository) -> (r: Result<git2::Revwalk<'r>, git2::Error>) {
    repo.revwalk()
}

/// Relies on git2::Revwalk::push_head: starts the walk at HEAD.
#[verifier::external_body]
fn revwalk_push_head(walk: &mut git2::Revwalk<'_>) -> (r: Result<(), git2::Error>) {
    walk.push_head()
}

/// Relies on git2::Revwalk::simplify_first_parent: the walk follows only the
/// first parent of each commit.
#[verifier::external_body]
fn revwalk_simplify_first_parent(walk: &mut git2::Revwalk<'_>) -> (r: Result<(), git2::Error>) {
    walk.simplify_first_parent()
}

/// Relies on git2::Revwalk's `next`: the id of the walk's next commit, or
/// `None` once the walk is over.
#[verifier::external_body]
fn revwalk_next(walk: &mut git2::Revwalk<'_>) -> (r: Option<Result<git2::Oid, git2::Error>>) {
    walk.next()
}

/// Relies on git2::Oid::from_str, whose documentation says that it fails on a
/// string that is empty, longer than 40 characters or not all hexadecimal.
#[verifier::external_body]
fn oid_from_str(s: &str) -> (r: Result<git2::Oid, git2::Error>)
    ensures
        !is_hex_id(s@) ==> r is Err,
{
    git2::Oid::from_str(s)
}

/// Relies on git2::Oid's `Display`, which formats the id with libgit2's
/// `git_oid_tostr`: the 40 hexadecimal digits of a SHA-1 id.
#[verifier::external_body]
fn oid_to_string(oid: &git2::Oid) -> (r: String)
    ensures
        r@.len() == 40,
        is_hex_id(r@),
{
    oid.to_string()
}

/// Relies on git2::Commit::message: the commit's full message.
#[verifier::external_body]
fn commit_message(commit: &RawCommit<'_>) -> (r: Result<String, git2::Error>) {
    commit.message().map(|m| m.to_string())
}

/// Relies on git2::Commit::tree: the tree that the commit records.
#[verifier::external_body]
fn commit_tree<'r>(commit: &RawCommit<'r>) -> (r: Result<git2::Tree<'r>, git2::Error>) {
    commit.tree()
}

/// Relies on git2::Tree::get_path: the entry at `path` in the tree or in one of
/// its subtrees.
#[verifier::external_body]
fn tree_get_path(tree: &git2::Tree<'_>, path: &str) -> (r: Result<git2::TreeEntry<'static>, git2::Error>) {
    tree.get_path(Path::new(path))
}

/// Relies on git2::TreeEntry::to_object: the object that the entry points to.
#[verifier::external_body]
fn tree_entry_to_object<'r>(entry: &git2::TreeEntry<'_>, repo: &'r git2::Repository) -> (r: Result<
    git2::Object<'r>,
    git2::Error,
>) {
    entry.to_object(repo)
}

/// Relies on git2::Object::as_blob: the object as a blob, or `None` where it
/// is not one.
#[verifier::external_body]
fn object_as_blob<'a, 'r>(object: &'a git2::Object<'r>) -> (r: Option<&'a git2::Blob<'r>>) {
    object.as_blob()
}

/// Relies on git2::Blob::content: the blob's bytes.
#[verifier::external_body]
fn blob_content(blob: &git2::Blob<'_>) -> (r: Vec<u8>) {
    blob.content().to_vec()
}

/// Relies on git2::Error::code: whether git reported that what was asked
/// for does not exist.
#[verifier::external_body]
fn error_is_not_found(e: &git2::Error) -> (r: bool) {
    matches!(e.code(), git2::ErrorCode::NotFound)
}

/// A hexadecimal digit.
pub open spec fn is_hex_digit(c: char) -> bool {
    ('0' <= c && c <= '9') || ('a' <= c && c <= 'f') || ('A' <= c && c <= 'F')
}

/// Text that can name a commit: one to 40 hexadecimal digits.
pub open spec fn is_hex_id(s: Seq<char>) -> bool {
    0 < s.len() <= 40 && forall|i: int| 0 <= i < s.len() ==> is_hex_digit(#[trigger] s[i])
}

/// Why a repository operation failed.
#[derive(Debug)]
pub enum RepoError {
    /// The repository could not be created or opened where it was asked for.
    RepositoryInit(git2::Error),
    /// No repository holds the path.
    RepositoryNotFound(git2::Error),
    /// The project's directory holds no repository.
    ProjectNotFound { name: String },
    /// git could not stage the file, write the tree, resolve HEAD or create
    /// the commit.
    Commit(git2::Error),
    /// The hash names no commit of the repository.
    CommitNotFound { hash: String },
    /// The commit's tree has no entry at the path.
    PathNotFoundInTree { hash: String, path: String },
    /// The commit's tree has an entry at the path that is not a file.
    NotAFile { hash: String, path: String },
    /// git failed while reading the repository.
    Engine(git2::Error),
}

/// A commit of the history: its hash and its message.
#[derive(Debug)]
pub struct Commit {
    pub hash: String,
    pub message: String,
}

/// What a commit of the staged dump does.
#[derive(Debug, Clone, Copy, PartialEq, Eq)]
pub enum CommitAction {
    /// The history is empty: the commit is the root, whatever the content.
    CreateRoot,
    /// The staged content is what is recorded already: no commit.
    Skip,
    /// The content changed: a commit whose one parent is HEAD.
    CreateOnHead,
}

/// The action for a commit, from whether the history is empty and how many
/// entries the staged tree changes against the one recorded before staging.
pub open spec fn commit_action(history_empty: bool, changed_entries: nat) -> CommitAction {
    if history_empty {
        CommitAction::CreateRoot
    } else if changed_entries == 0 {
        CommitAction::Skip
    } else {
        CommitAction::CreateOnHead
    }
}

/// Decides what a commit does. An empty history always gets a root commit;
/// otherwise a commit is created exactly when the staged content changed.
pub fn decide_commit(history_empty: bool, changed_entries: usize) -> (r: CommitAction)
    ensures
        r == commit_action(history_empty, changed_entries as nat),
        history_empty ==> r == CommitAction::CreateRoot,
        !history_empty && changed_entries == 0 ==> r == CommitAction::Skip,
        !history_empty && changed_entries > 0 ==> r == CommitAction::CreateOnHead,
{
    if history_empty {
        CommitAction::CreateRoot
    } else if changed_entries == 0 {
        CommitAction::Skip
    } else {
        CommitAction::CreateOnHead
    }
}

/// `not_found` where git reported that the object does not exist
/// (`is_not_found`), otherwise the engine's error as it is: a bad reference is
/// told apart from a broken repository.
fn lookup_error(e: git2::Error, is_not_found: bool, not_found: RepoError) -> (r: RepoError)
    ensures
        is_not_found ==> r == not_found,
        !is_not_found ==> r is Engine,
{
    if is_not_found {
        not_found
    } else {
        RepoError::Engine(e)
    }
}

/// The reference that names the tip of the history.
pub const HEAD: &'static str = "HEAD";

/// A git repository holding snapshots.
pub struct GitRepo {
    repo: git2::Repository,
}

/// The history, newest commit first, as a walk from HEAD through first
/// parents down to the root.
pub struct CommitIterator<'repo> {
    git_repo: &'repo GitRepo,
    revision_walker: git2::Revwalk<'repo>,
}

impl<'repo> CommitIterator<'repo> {
    /// The next commit of the walk, or `None` after the root.
    pub fn next(&mut self) -> (r: Option<Result<Commit, RepoError>>)
        ensures
            r matches Some(Err(e)) ==> (e is Engine || e is CommitNotFound),
            r matches Some(Ok(c)) ==> c.hash@.len() == 40 && is_hex_id(c.hash@),
    {
        match revwalk_next(&mut self.revision_walker) {
            None => None,
            Some(Err(e)) => Some(Err(RepoError::Engine(e))),
            Some(Ok(oid)) => Some(self.git_repo.find_commit_by_id(oid_to_string(&oid))),
        }
    }
}

impl GitRepo {
    /// Opens the repository at `repo_path` or at the nearest ancestor that
    /// holds one.
    pub fn new(repo_path: &str) -> (r: Result<GitRepo, RepoError>)
        ensures
            r matches Err(e) ==> e is RepositoryNotFound,
    {
        match repository_discover(repo_path) {
            Ok(repo) => Ok(GitRepo { repo }),
            Err(e) => Err(RepoError::RepositoryNotFound(e)),
        }
    }

    /// Opens the repository at `repo_path`, first creating the directories
    /// and an empty repository where there is none.
    pub fn upsert(repo_path: &str) -> (r: Result<GitRepo, RepoError>)
        ensures
            r matches Err(e) ==> e is RepositoryInit,
    {
        match repository_init(repo_path) {
            Ok(repo) => Ok(GitRepo { repo }),
            Err(e) => Err(RepoError::RepositoryInit(e)),
        }
    }

    /// The commit that `hash` names.
    pub fn find_commit_by_id(&self, hash: String) -> (r: Result<Commit, RepoError>)
        ensures
            r matches Ok(c) ==> c.hash == hash,
            !is_hex_id(hash@) ==> r == Err::<Commit, RepoError>((RepoError::CommitNotFound { hash })),
            r matches Err(e) ==> (e == (RepoError::CommitNotFound { hash }) || e is Engine),
    {
        let oid = match oid_from_str(hash.as_str()) {
            Ok(oid) => oid,
            Err(_) => return Err(RepoError::CommitNotFound { hash }),
        };
        let commit = match repository_find_commit(&self.repo, oid) {
            Ok(commit) => commit,
            Err(e) => {
                let is_not_found = error_is_not_found(&e);
                return Err(lookup_error(e, is_not_found, RepoError::CommitNotFound { hash }));
            },
        };
        match commit_message(&commit) {
            Ok(message) => Ok(Commit { hash, message }),
            Err(e) => Err(RepoError::Engine(e)),
        }
    }

    /// The hash of the commit at HEAD.
    pub fn head(&self) -> (r: Result<String, RepoError>)
        ensures
            r matches Ok(h) ==> h@.len() == 40 && is_hex_id(h@),
            r matches Err(e) ==> e is Engine,
    {
        match repository_refname_to_id(&self.repo, HEAD) {
            Ok(oid) => Ok(oid_to_string(&oid)),
            Err(e) => Err(RepoError::Engine(e)),
        }
    }

    /// Stages the file at `filepath`, relative to the working directory, and
    /// commits it with `message` unless its content is recorded already.
    /// Returns the new commit's hash, or `None` where nothing changed.
    pub fn commit_file(&self, filepath: &str, message: &str) -> (r: Result<Option<String>, RepoError>)
        ensures
            r matches Ok(Some(h)) ==> h@.len() == 40 && is_hex_id(h@),
            r matches Err(e) ==> e is Commit,
    {
        let mut index = match repository_index(&self.repo) {
            Ok(index) => index,
            Err(e) => return Err(RepoError::Commit(e)),
        };
        // The tree recorded before staging, to diff the staged index against.
        let old_tree_id = match index_write_tree(&mut index) {
            Ok(oid) => oid,
            Err(e) => return Err(RepoError::Commit(e)),
        };
        let old_tree = match repository_find_tree(&self.repo, old_tree_id) {
            Ok(tree) => tree,
            Err(e) => return Err(RepoError::Commit(e)),
        };
        match index_add_path(&mut index, filepath) {
            Ok(()) => {},
            Err(e) => return Err(RepoError::Commit(e)),
        }
        match index_write(&mut index) {
            Ok(()) => {},
            Err(e) => return Err(RepoError::Commit(e)),
        }
        let current_id = match index_write_tree(&mut index) {
            Ok(oid) => oid,
            Err(e) => return Err(RepoError::Commit(e)),
        };
        let current_tree = match repository_find_tree(&self.repo, current_id) {
            Ok(tree) => tree,
            Err(e) => return Err(RepoError::Commit(e)),
        };
        let history_empty = match repository_is_empty(&self.repo) {
            Ok(empty) => empty,
            Err(e) => return Err(RepoError::Commit(e)),
        };
        let changed_entries: usize = if history_empty {
            0
        } else {
            match repository_diff_tree_to_index(&self.repo, &old_tree, &index) {
                Ok(diff) => diff_delta_count(&diff),
                Err(e) => return Err(RepoError::Commit(e)),
            }
        };
        let parent = match decide_commit(history_empty, changed_entries) {
            CommitAction::Skip => return Ok(None),
            CommitAction::CreateRoot => None,
            CommitAction::CreateOnHead => {
                let head_id = match repository_refname_to_id(&self.repo, HEAD) {
                    Ok(oid) => oid,
                    Err(e) => return Err(RepoError::Commit(e)),
                };
                match repository_find_commit(&self.repo, head_id) {
                    Ok(commit) => Some(commit),
                    Err(e) => return Err(RepoError::Commit(e)),
                }
            },
        };
        let signature = match repository_signature(&self.repo) {
            Ok(signature) => signature,
            Err(e) => return Err(RepoError::Commit(e)),
        };
        let created = repository_commit(
            &self.repo,
            HEAD,
            &signature,
            &signature,
            message,
            &current_tree,
            parent.as_ref(),
        );
        match created {
            Ok(oid) => Ok(Some(oid_to_string(&oid))),
            Err(e) => Err(RepoError::Commit(e)),
        }
    }

    /// The history from HEAD through first parents, newest first.
    pub fn commit_iterator(&self) -> (r: Result<CommitIterator<'_>, RepoError>)
        ensures
            r matches Err(e) ==> e is Engine,
    {
        let mut revision_walker = match repository_revwalk(&self.repo) {
            Ok(walk) => walk,
            Err(e) => return Err(RepoError::Engine(e)),
        };
        match revwalk_push_head(&mut revision_walker) {
            Ok(()) => {},
            Err(e) => return Err(RepoError::Engine(e)),
        }
        match revwalk_simplify_first_parent(&mut revision_walker) {
            Ok(()) => {},
            Err(e) => return Err(RepoError::Engine(e)),
        }
        Ok(CommitIterator { git_repo: self, revision_walker })
    }

    /// The bytes of the file at `filepath` as the commit `hash` recorded it.
    pub fn get_file_content_at_commit(&self, filepath: &str, hash: String) -> (r: Result<
        Vec<u8>,
        RepoError,
    >)
        ensures
            !is_hex_id(hash@) ==> r == Err::<Vec<u8>, RepoError>((RepoError::CommitNotFound { hash })),
            r matches Err(e) ==> {
                ||| e == (RepoError::CommitNotFound { hash })
                ||| (e matches RepoError::PathNotFoundInTree { hash: h, path: p } && h == hash && p@
                    == filepath@)
                ||| (e matches RepoError::NotAFile { hash: h, path: p } && h == hash && p@
                    == filepath@)
                ||| e is Engine
            },
    {
        let oid = match oid_from_str(hash.as_str()) {
            Ok(oid) => oid,
            Err(_) => return Err(RepoError::CommitNotFound { hash }),
        };
        let commit = match repository_find_commit(&self.repo, oid) {
            Ok(commit) => commit,
            Err(e) => {
                let is_not_found = error_is_not_found(&e);
                return Err(lookup_error(e, is_not_found, RepoError::CommitNotFound { hash }));
            },
        };
        let tree = match commit_tree(&commit) {
            Ok(tree) => tree,
            Err(e) => return Err(RepoError::Engine(e)),
        };
        let entry = match tree_get_path(&tree, filepath) {
            Ok(entry) => entry,
            Err(e) => {
                let path = String::from_str(filepath);
                let is_not_found = error_is_not_found(&e);
                return Err(lookup_error(e, is_not_found, RepoError::PathNotFoundInTree { hash, path }));
            },
        };
        let object = match tree_entry_to_object(&entry, &self.repo) {
            Ok(object) => object,
            Err(e) => return Err(RepoError::Engine(e)),
        };
        match object_as_blob(&object) {
            Some(blob) => Ok(blob_content(blob)),
            None => Err(RepoError::NotAFile { hash, path: String::from_str(filepath) }),
        }
    }
}

} // verus!
