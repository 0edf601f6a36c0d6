//! Project lifecycle against the registry: creating a project registers it,
//! opening one looks its connection string up.
use vstd::prelude::*;

use crate::config::CidConfig;
use crate::config::ProjectConfig;
use crate::config::ProjectConfigError;
use crate::git::RepoError;
use crate::project::CreateInput;
use crate::project::OpenInput;
use crate::project::Project;

verus! {

pub struct CreateProjectInput<'a> {
    pub project_dir: &'a str,
    pub project_name: &'a str,
    pub db_uri: &'a str,
}

pub struct OpenProjectInput<'a> {
    pub project_dir: &'a str,
    pub project_name: &'a str,
    pub db_uri: &'a str,
}

/// Creates, opens and lists projects over a registry of name to connection
/// string. Saving the registry after a change is the caller's part.
pub trait ProjectManager: Sized {
    /// Name to connection string of every registered project.
    spec fn registry(&self) -> Map<Seq<char>, Seq<char>>;

    spec fn wf(&self) -> bool;

    fn new(config: CidConfig) -> (r: Self)
        requires
            config.wf(),
        ensures
            r.wf(),
            r.registry() == config@,
    ;

    /// Creates the project's repository where there is none, and registers
    /// the project.
    fn create_project(&mut self, input: &CreateProjectInput) -> (r: Result<Project, RepoError>)
        requires
            old(self).wf(),
        ensures
            final(self).wf(),
            r matches Ok(p) ==> {
                &&& p.spec_name() == input.project_name@
                &&& p.spec_project_dir() == input.project_dir@
                &&& p.spec_db_uri() == input.db_uri@
                &&& final(self).registry() == old(self).registry().insert(
                    input.project_name@,
                    input.db_uri@,
                )
            },
            r matches Err(e) ==> (e is RepositoryInit && final(self).registry() == old(self).registry()),
    ;

    /// Binds a project to its repository.
    fn open_project(&self, input: &OpenProjectInput) -> (r: Result<Project, RepoError>)
        ensures
            r matches Ok(p) && p.spec_name() == input.project_name@
                && p.spec_project_dir() == input.project_dir@ && p.spec_db_uri() == input.db_uri@,
    ;

    /// The names of the registered projects, each once, in no particular
    /// order.
    fn get_project_names(&self) -> (r: Vec<&str>)
        requires
            self.wf(),
        ensures
            forall|k: Seq<char>| self.registry().dom().contains(k) <==> exists|i: int| 0 <= i < r@.len() && #[trigger] r@[i]@ == k,
            forall|i: int, j: int| 0 <= i < r@.len() && 0 <= j < r@.len() && i != j ==> #[trigger] r@[i]@ != #[trigger] r@[j]@,
    ;
}

/// The project manager over the registry file's contents.
pub struct MainProjectManager {
    cid_config: CidConfig,
}

impl MainProjectManager {
    /// The registry, as it is to be saved.
    pub fn cid_config(&self) -> (r: &CidConfig)
        ensures
            r@ == self.registry(),
    {
        &self.cid_config
    }

    /// Opens the project registered under `project_name`, whose repository
    /// is in `project_dir`.
    pub fn open_registered_project(&self, project_dir: &str, project_name: &str) -> (r: Result<
        Project,
        ProjectConfigError,
    >)
        requires
            self.wf(),
        ensures
            r is Ok <==> self.registry().dom().contains(project_name@),
            r matches Ok(p) ==> {
                &&& p.spec_name() == project_name@
                &&& p.spec_project_dir() == project_dir@
                &&& p.spec_db_uri() == self.registry()[project_name@]
            },
            r matches Err(ProjectConfigError::ProjectConfigDoesNotExist { name }) ==> name@
                == project_name@,
    {
        let project_config = self.cid_config.project_config(project_name)?;
        match self.open_project(
            &OpenProjectInput { project_dir, project_name, db_uri: project_config.db_uri.as_str() },
        ) {
            Ok(project) => Ok(project),
            Err(_) => {
                // `open_project` always succeeds.
                assert(false);
                Err(ProjectConfigError::ProjectConfigDoesNotExist { name: String::from_str(project_name) })
            },
        }
    }
}

impl ProjectManager for MainProjectManager {
    closed spec fn registry(&self) -> Map<Seq<char>, Seq<char>> {
        self.cid_config@
    }

    closed spec fn wf(&self) -> bool {
        self.cid_config.wf()
    }

    fn new(cid_config: CidConfig) -> (r: MainProjectManager) {
        MainProjectManager { cid_config }
    }

    fn create_project(&mut self, input: &CreateProjectInput) -> (r: Result<Project, RepoError>) {
        let project = Project::create(
            CreateInput {
                project_dir: String::from_str(input.project_dir),
                project_name: String::from_str(input.project_name),
                db_uri: String::from_str(input.db_uri),
            },
        )?;

        self.cid_config.register_project_config(
            ProjectConfig {
                name: String::from_str(project.name()),
                db_uri: String::from_str(project.db_uri()),
            },
        );

        Ok(project)
    }

    fn open_project(&self, input: &OpenProjectInput) -> (r: Result<Project, RepoError>) {
        Project::open(
            OpenInput {
                project_dir: String::from_str(input.project_dir),
                project_name: String::from_str(input.project_name),
                db_uri: String::from_str(input.db_uri),
            },
        )
    }

    fn get_project_names(&self) -> (r: Vec<&str>) {
        self.cid_config.project_names()
    }
}

} // verus!
