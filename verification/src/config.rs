//! Static configuration: the set of projects, the optional single-project
//! restriction, and the project that completion requests are resolved
//! against. Loaded once before the orchestrator starts and read-only for
//! its whole lifetime.

use vstd::prelude::*;

verus! {

/// An interned project identifier, unique per configured project.
pub type ProjectName = u64;

/// Per-project settings.
#[derive(Clone, Copy, PartialEq, Eq, Structural, Debug)]
pub struct ProjectConfig {
    pub name: ProjectName,
}

/// The static configuration.
pub struct Config {
    /// The configured projects, in configuration order.
    pub projects: Vec<ProjectConfig>,
    /// When set, only this project is ever built.
    pub only_project: Option<ProjectName>,
    /// The project every completion request is resolved against.
    pub completion_project: ProjectName,
}

impl Config {
    /// The names of the configured projects, in configuration order.
    pub open spec fn project_names(&self) -> Seq<ProjectName> {
        self.projects@.map_values(|p: ProjectConfig| p.name)
    }

    /// Whether a project of this name is configured.
    pub open spec fn is_configured(&self, name: ProjectName) -> bool {
        self.project_names().contains(name)
    }

    /// A valid configuration: project names are unique, and the
    /// single-project restriction and the completion project both name
    /// configured projects.
    pub open spec fn wf(&self) -> bool {
        &&& self.project_names().no_duplicates()
        &&& match self.only_project {
            Some(only) => self.is_configured(only),
            None => true,
        }
        &&& self.is_configured(self.completion_project)
    }

    /// Looks a project name up among the configured projects.
    pub fn contains_project(&self, name: ProjectName) -> (found: bool)
        ensures
            found == self.is_configured(name),
    {
        let mut i: usize = 0;
        while i < self.projects.len()
            invariant
                0 <= i <= self.projects.len(),
                forall|j: int| 0 <= j < i ==> self.project_names()[j] != name,
            decreases self.projects.len() - i,
        {
            if self.projects[i].name == name {
                assert(self.project_names()[i as int] == name);
                return true;
            }
            i += 1;
        }
        assert(forall|j: int| 0 <= j < self.project_names().len()
            ==> self.project_names()[j] != name);
        false
    }

    /// Decides validity of the configuration, so that an unverified caller
    /// can reject a bad configuration before wiring the orchestrator up.
    pub fn check_well_formed(&self) -> (valid: bool)
        ensures
            valid == self.wf(),
    {
        let mut i: usize = 0;
        while i < self.projects.len()
            invariant
                0 <= i <= self.projects.len(),
                forall|a: int, b: int|
                    0 <= a < i && 0 <= b < self.project_names().len() && a != b
                        ==> self.project_names()[a] != self.project_names()[b],
            decreases self.projects.len() - i,
        {
            let mut j: usize = 0;
            while j < self.projects.len()
                invariant
                    0 <= i < self.projects.len(),
                    0 <= j <= self.projects.len(),
                    forall|b: int| 0 <= b < j && b != i
                        ==> self.project_names()[i as int] != self.project_names()[b],
                decreases self.projects.len() - j,
            {
                if j != i && self.projects[j].name == self.projects[i].name {
                    assert(self.project_names()[i as int] == self.project_names()[j as int]);
                    return false;
                }
                j += 1;
            }
            i += 1;
        }
        let only_ok = match self.only_project {
            Some(only) => self.contains_project(only),
            None => true,
        };
        only_ok && self.contains_project(self.completion_project)
    }
}

/// Whether changes to a project's files are within the orchestrator's
/// scope: under a single-project restriction only that project is watched,
/// otherwise every configured project is.
pub open spec fn watched_project(config: Config, name: ProjectName) -> bool {
    match config.only_project {
        Some(only) => name == only,
        None => config.is_configured(name),
    }
}

impl Config {
    /// Decides whether a project is watched (see [`watched_project`]).
    pub fn is_watched(&self, name: ProjectName) -> (watched: bool)
        ensures
            watched == watched_project(*self, name),
    {
        match self.only_project {
            Some(only) => name == only,
            None => self.contains_project(name),
        }
    }
}

} // verus!
