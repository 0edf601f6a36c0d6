//! The project registry: which database each named project tracks, and where
//! the registry file lives.
use vstd::prelude::*;

use crate::paths::join_path;
use crate::paths::joined;

verus! {

/// Why a registry lookup failed.
#[derive(Debug)]
pub enum ProjectConfigError {
    ProjectConfigDoesNotExist { name: String },
}

/// One registered project: its name and the connection string of its database.
#[derive(Debug)]
pub struct ProjectConfig {
    pub name: String,
    pub db_uri: String,
}

/// The registry, keyed by project name. Each name occurs at most once.
pub struct CidConfig {
    projects: Vec<ProjectConfig>,
}

/// The registry file's name inside the tool's root directory.
pub const CONFIG_FILE_NAME: &'static str = "config";

/// Name to connection string, over a list of configs; a later entry for a name
/// replaces an earlier one.
pub open spec fn configs_map(s: Seq<ProjectConfig>) -> Map<Seq<char>, Seq<char>>
    decreases s.len(),
{
    if s.len() == 0 {
        Map::empty()
    } else {
        configs_map(s.drop_last()).insert(s.last().name@, s.last().db_uri@)
    }
}

/// No two configs of `s` share a name.
pub open spec fn names_unique(s: Seq<ProjectConfig>) -> bool {
    forall|i: int, j: int|
        0 <= i < s.len() && 0 <= j < s.len() && i != j ==> #[trigger] s[i].name@ != #[trigger] s[j].name@
}

proof fn lemma_configs_map_dom(s: Seq<ProjectConfig>, k: Seq<char>)
    ensures
        configs_map(s).dom().contains(k) <==> exists|i: int| 0 <= i < s.len() && #[trigger] s[i].name@ == k,
    decreases s.len(),
{
    if s.len() > 0 {
        lemma_configs_map_dom(s.drop_last(), k);
        if configs_map(s.drop_last()).dom().contains(k) {
            let i = choose|i: int| 0 <= i < s.drop_last().len() && #[trigger] s.drop_last()[i].name@ == k;
            assert(s[i].name@ == k);
        }
        if exists|i: int| 0 <= i < s.len() && #[trigger] s[i].name@ == k {
            let i = choose|i: int| 0 <= i < s.len() && #[trigger] s[i].name@ == k;
            if i < s.len() - 1 {
                assert(s.drop_last()[i].name@ == k);
            }
        }
    }
}

proof fn lemma_configs_map_at(s: Seq<ProjectConfig>, i: int)
    requires
        names_unique(s),
        0 <= i < s.len(),
    ensures
        configs_map(s).dom().contains(s[i].name@),
        configs_map(s)[s[i].name@] == s[i].db_uri@,
    decreases s.len(),
{
    if i < s.len() - 1 {
        assert(names_unique(s.drop_last()));
        assert(s.drop_last()[i] == s[i]);
        lemma_configs_map_at(s.drop_last(), i);
        assert(s.last().name@ != s[i].name@);
    }
}

proof fn lemma_configs_map_update(s: Seq<ProjectConfig>, i: int, c: ProjectConfig)
    requires
        names_unique(s),
        0 <= i < s.len(),
        c.name@ == s[i].name@,
    ensures
        configs_map(s.update(i, c)) == configs_map(s).insert(c.name@, c.db_uri@),
    decreases s.len(),
{
    let t = s.update(i, c);
    if i == s.len() - 1 {
        assert(t.drop_last() =~= s.drop_last());
        assert(configs_map(s).insert(c.name@, c.db_uri@) =~= configs_map(s.drop_last()).insert(
            c.name@,
            c.db_uri@,
        ));
    } else {
        assert(t.drop_last() =~= s.drop_last().update(i, c));
        assert(names_unique(s.drop_last()));
        lemma_configs_map_update(s.drop_last(), i, c);
        assert(s.last().name@ != c.name@);
        assert(configs_map(t) =~= configs_map(s).insert(c.name@, c.db_uri@));
    }
}

impl View for CidConfig {
    type V = Map<Seq<char>, Seq<char>>;

    /// Name to connection string for every registered project.
    closed spec fn view(&self) -> Map<Seq<char>, Seq<char>> {
        configs_map(self.projects@)
    }
}

impl CidConfig {

    /// The registered configs, in no particular order.
    pub closed spec fn spec_entries(&self) -> Seq<ProjectConfig> {
        self.projects@
    }

    pub closed spec fn wf(&self) -> bool {
        names_unique(self.projects@)
    }

    /// A registry with no projects.
    pub fn empty() -> (r: CidConfig)
        ensures
            r.wf(),
            r@ == Map::<Seq<char>, Seq<char>>::empty(),
    {
        CidConfig { projects: Vec::new() }
    }

    /// The registry file, inside the tool's root directory.
    pub fn get_path(root_dir: &str) -> (r: String)
        ensures
            r@ == joined(root_dir@, CONFIG_FILE_NAME@),
    {
        join_path(root_dir, CONFIG_FILE_NAME)
    }

    /// The registered configs, in no particular order.
    pub fn project_configs(&self) -> (r: &Vec<ProjectConfig>)
        ensures
            r@ == self.spec_entries(),
    {
        &self.projects
    }

    /// The names of the registered projects, each once, in no particular
    /// order.
    pub fn project_names(&self) -> (r: Vec<&str>)
        requires
            self.wf(),
        ensures
            forall|k: Seq<char>| self@.dom().contains(k) <==> exists|i: int| 0 <= i < r@.len() && #[trigger] r@[i]@ == k,
            forall|i: int, j: int| 0 <= i < r@.len() && 0 <= j < r@.len() && i != j ==> #[trigger] r@[i]@ != #[trigger] r@[j]@,
    {
        let mut names: Vec<&str> = Vec::new();
        let mut i: usize = 0;
        while i < self.projects.len()
            invariant
                i <= self.projects@.len(),
                names@.len() == i,
                forall|j: int| 0 <= j < i ==> #[trigger] names@[j]@ == self.projects@[j].name@,
            decreases self.projects@.len() - i,
        {
            names.push(self.projects[i].name.as_str());
            i = i + 1;
        }
        assert forall|k: Seq<char>| self@.dom().contains(k) <==> exists|i: int| 0 <= i < names@.len() && #[trigger] names@[i]@ == k by {
            lemma_configs_map_dom(self.projects@, k);
            if exists|i: int| 0 <= i < names@.len() && #[trigger] names@[i]@ == k {
                let i = choose|i: int| 0 <= i < names@.len() && #[trigger] names@[i]@ == k;
                assert(self.projects@[i].name@ == k);
            }
            if self@.dom().contains(k) {
                let i = choose|i: int| 0 <= i < self.projects@.len() && #[trigger] self.projects@[i].name@ == k;
                assert(names@[i]@ == k);
            }
        }
        names
    }

    /// Index of the config named `name`, if there is one.
    fn position_of(&self, name: &String) -> (r: Option<usize>)
        requires
            self.wf(),
        ensures
            r matches Some(i) ==> i < self.projects@.len() && self.projects@[i as int].name@ == name@,
            r is None <==> !self@.dom().contains(name@),
    {
        let mut i: usize = 0;
        while i < self.projects.len()
            invariant
                i <= self.projects@.len(),
                forall|j: int| 0 <= j < i ==> #[trigger] self.projects@[j].name@ != name@,
            decreases self.projects@.len() - i,
        {
            if self.projects[i].name == *name {
                proof {
                    lemma_configs_map_dom(self.projects@, name@);
                }
                return Some(i);
            }
            i = i + 1;
        }
        proof {
            lemma_configs_map_dom(self.projects@, name@);
        }
        None
    }

    /// Adds `project_config`, replacing the config already registered under
    /// its name, if any.
    pub fn register_project_config(&mut self, project_config: ProjectConfig)
        requires
            old(self).wf(),
        ensures
            final(self).wf(),
            final(self)@ == old(self)@.insert(
                project_config.name@,
                project_config.db_uri@,
            ),
    {
        match self.position_of(&project_config.name) {
            Some(i) => {
                proof {
                    lemma_configs_map_update(self.projects@, i as int, project_config);
                }
                self.projects.set(i, project_config);
                assert(names_unique(self.projects@));
            },
            None => {
                proof {
                    lemma_configs_map_dom(self.projects@, project_config.name@);
                }
                self.projects.push(project_config);
                assert(self.projects@.drop_last() =~= old(self).projects@);
                assert(names_unique(self.projects@));
            },
        }
    }

    /// The config registered under `name`.
    pub fn project_config(&self, name: &str) -> (r: Result<&ProjectConfig, ProjectConfigError>)
        requires
            self.wf(),
        ensures
            self@.dom().contains(name@) <==> r is Ok,
            r matches Ok(c) ==> c.name@ == name@ && c.db_uri@ == self@[name@],
            r matches Err(ProjectConfigError::ProjectConfigDoesNotExist { name: n }) ==> n@ == name@,
    {
        let key = String::from_str(name);
        match self.position_of(&key) {
            Some(i) => {
                proof {
                    lemma_configs_map_at(self.projects@, i as int);
                }
                Ok(&self.projects[i])
            },
            None => Err(ProjectConfigError::ProjectConfigDoesNotExist { name: key }),
        }
    }
}

/// Registering a config under a name that was just registered replaces the
/// first connection string: the registry then holds that name once, with the
/// later connection string, and no other name is added.
pub proof fn lemma_register_upsert(
    before: CidConfig,
    after_first: CidConfig,
    after_second: CidConfig,
    first: ProjectConfig,
    second: ProjectConfig,
)
    requires
        before.wf(),
        first.name@ == second.name@,
        after_first.wf(),
        after_first@ == before@.insert(first.name@, first.db_uri@),
        after_second.wf(),
        after_second@ == after_first@.insert(second.name@, second.db_uri@),
    ensures
        after_second@.dom().contains(first.name@),
        after_second@[first.name@] == second.db_uri@,
        after_second@.dom() == before@.dom().insert(first.name@),
        exists|i: int| 0 <= i < after_second.spec_entries().len() && #[trigger] after_second.spec_entries()[i].name@ == first.name@,
        forall|i: int, j: int|
            0 <= i < after_second.spec_entries().len() && 0 <= j < after_second.spec_entries().len()
                && #[trigger] after_second.spec_entries()[i].name@ == first.name@
                && #[trigger] after_second.spec_entries()[j].name@ == first.name@ ==> i == j,
{
    assert(after_second@.dom() =~= before@.dom().insert(first.name@));
    lemma_configs_map_dom(after_second.projects@, first.name@);
    let i = choose|i: int| 0 <= i < after_second.projects@.len() && #[trigger] after_second.projects@[i].name@ == first.name@;
    assert(after_second.spec_entries()[i].name@ == first.name@);
}

} // verus!
