//! A project: one name bound to one snapshot repository and one database.
use vstd::prelude::*;

use crate::git::GitRepo;
use crate::git::RepoError;
use crate::git::is_hex_id;
use crate::paths::join_path;
use crate::paths::joined;

verus! {

pub struct CreateInput {
    pub project_name: String,
    pub project_dir: String,
    pub db_uri: String,
}

pub struct OpenInput {
    pub project_dir: String,
    pub project_name: String,
    pub db_uri: String,
}

/// A project named `name` whose repository is the directory `name` inside
/// `project_dir`, and whose dump file is `dump.sql` in that repository.
pub struct Project {
    name: String,
    project_dir: String,
    repo_path: String,
    sql_path: String,
    db_uri: String,
}

/// The dump file's path, relative to the project's repository.
pub open spec fn default_sql_path_spec() -> Seq<char> {
    "dump.sql"@
}

impl Project {
    pub closed spec fn spec_name(&self) -> Seq<char> {
        self.name@
    }

    pub closed spec fn spec_project_dir(&self) -> Seq<char> {
        self.project_dir@
    }

    /// The project's repository: the directory named after it in its
    /// project directory.
    pub open spec fn spec_repo_path(&self) -> Seq<char> {
        joined(self.spec_project_dir(), self.spec_name())
    }

    /// The dump file's path, relative to the repository.
    pub open spec fn spec_sql_path(&self) -> Seq<char> {
        default_sql_path_spec()
    }

    pub closed spec fn spec_db_uri(&self) -> Seq<char> {
        self.db_uri@
    }

    /// The project's paths follow from its directory and its name.
    #[verifier::type_invariant]
    spec fn paths_follow_name(&self) -> bool {
        &&& self.repo_path@ == joined(self.project_dir@, self.name@)
        &&& self.sql_path@ == default_sql_path_spec()
    }

    /// Creates the project's repository, unless it exists already, and binds
    /// the project to it.
    pub fn create(input: CreateInput) -> (r: Result<Project, RepoError>)
        ensures
            r matches Ok(p) ==> {
                &&& p.spec_name() == input.project_name@
                &&& p.spec_project_dir() == input.project_dir@
                &&& p.spec_db_uri() == input.db_uri@
            },
            r matches Err(e) ==> e is RepositoryInit,
    {
        let repo_path = join_path(input.project_dir.as_str(), input.project_name.as_str());
        let _repo = GitRepo::upsert(repo_path.as_str())?;

        Project::open(
            OpenInput {
                project_dir: input.project_dir,
                project_name: input.project_name,
                db_uri: input.db_uri,
            },
        )
    }

    /// Binds a project to its repository without touching the disk; the
    /// repository is opened by the operations that need it.
    pub fn open(input: OpenInput) -> (r: Result<Project, RepoError>)
        ensures
            r matches Ok(p) && p.spec_name() == input.project_name@
                && p.spec_project_dir() == input.project_dir@ && p.spec_db_uri() == input.db_uri@,
    {
        let repo_path = join_path(input.project_dir.as_str(), input.project_name.as_str());
        Ok(
            Project {
                db_uri: input.db_uri,
                project_dir: input.project_dir,
                name: input.project_name,
                sql_path: Project::default_sql_path(),
                repo_path,
            },
        )
    }

    fn default_sql_path() -> (r: String)
        ensures
            r@ == default_sql_path_spec(),
    {
        String::from_str("dump.sql")
    }

    pub fn db_uri(&self) -> (r: &str)
        ensures
            r@ == self.spec_db_uri(),
    {
        self.db_uri.as_str()
    }

    pub fn project_dir(&self) -> (r: &str)
        ensures
            r@ == self.spec_project_dir(),
    {
        self.project_dir.as_str()
    }

    pub fn repo_path(&self) -> (r: &str)
        ensures
            r@ == self.spec_repo_path(),
    {
        proof {
            use_type_invariant(self);
        }
        self.repo_path.as_str()
    }

    pub fn sql_path(&self) -> (r: &str)
        ensures
            r@ == self.spec_sql_path(),
    {
        proof {
            use_type_invariant(self);
        }
        self.sql_path.as_str()
    }

    pub fn name(&self) -> (r: &str)
        ensures
            r@ == self.spec_name(),
    {
        self.name.as_str()
    }

    /// Where the dump file is on disk.
    pub fn absolute_sql_path(&self) -> (r: String)
        ensures
            r@ == joined(self.spec_repo_path(), self.spec_sql_path()),
    {
        proof {
            use_type_invariant(self);
        }
        join_path(self.repo_path.as_str(), self.sql_path.as_str())
    }

    /// The project's repository.
    pub fn repository(&self) -> (r: Result<GitRepo, RepoError>)
        ensures
            r matches Err(e) ==> (e matches RepoError::ProjectNotFound { name } && name@
                == self.spec_name()),
    {
        match GitRepo::new(self.repo_path.as_str()) {
            Ok(repo) => Ok(repo),
            Err(_) => Err(RepoError::ProjectNotFound { name: self.name.clone() }),
        }
    }

    /// Commits the dump file as it is on disk, unless that content is
    /// recorded already. Returns the new commit's hash, or `None` where
    /// nothing changed.
    pub fn commit(&self, message: &str) -> (r: Result<Option<String>, RepoError>)
        ensures
            r matches Err(e) ==> (e is ProjectNotFound || e is Commit),
    {
        let repo = self.repository()?;
        repo.commit_file(self.sql_path.as_str(), message)
    }

    /// The dump as the commit `hash` recorded it.
    pub fn get_dump_at_commit(&self, hash: &str) -> (r: Result<Vec<u8>, RepoError>)
        ensures
            !is_hex_id(hash@) ==> (r matches Err(e) && (e is CommitNotFound || e is ProjectNotFound)),
    {
        let repo = self.repository()?;
        repo.get_file_content_at_commit(self.sql_path.as_str(), String::from_str(hash))
    }

    /// The dump as the commit at HEAD recorded it.
    pub fn get_latest_dump(&self) -> (r: Result<Vec<u8>, RepoError>)
        ensures
            r matches Err(e) ==> (e is ProjectNotFound || e is Engine || e is CommitNotFound
                || e is PathNotFoundInTree || e is NotAFile),
    {
        let repo = self.repository()?;
        let head = repo.head()?;
        repo.get_file_content_at_commit(self.sql_path.as_str(), head)
    }
}

} // verus!
