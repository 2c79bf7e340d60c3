use vstd::prelude::*;
use crate::config::{ProjectType, Repository, default_commands_of, default_name_of, strings_view};
use crate::models::same_repository;

verus! {

/// Why a repository could not be added.
#[derive(Debug, Clone)]
pub enum RegistryError {
    /// A repository at this path is configured already.
    DuplicatePath(String),
}

/// Some repository of `s` lies at `path`.
pub open spec fn has_path(s: Seq<Repository>, path: Seq<char>) -> bool {
    exists|i: int| 0 <= i < s.len() && (#[trigger] s[i]).path@ == path
}

/// The position of the first repository of `s` named `name`.
pub open spec fn first_named(s: Seq<Repository>, name: Seq<char>, i: int) -> bool {
    0 <= i < s.len() && s[i].name@ == name && forall|j: int| 0 <= j < i ==> s[j].name@ != name
}

/// The configured repositories, kept in the order they were added.
pub struct RepositoryManager {
    repositories: Vec<Repository>,
}

impl RepositoryManager {
    pub closed spec fn repositories(&self) -> Seq<Repository> {
        self.repositories@
    }

    pub fn new() -> (r: Self)
        ensures
            r.repositories().len() == 0,
    {
        RepositoryManager { repositories: Vec::new() }
    }

    /// A manager holding the given repositories, in this order.
    pub fn from_repositories(repositories: Vec<Repository>) -> (r: Self)
        ensures
            r.repositories() == repositories@,
    {
        RepositoryManager { repositories }
    }

    /// Adds a repository at `path` of the given kind, named `name` or after its path.
    /// Fails, changing nothing, where a repository at the same path is configured.
    pub fn add_repository(&mut self, path: String, name: Option<String>, project_type: ProjectType) -> (r:
        Result<Repository, RegistryError>)
        ensures
            r is Err <==> has_path(old(self).repositories(), path@),
            match r {
                Err(RegistryError::DuplicatePath(p)) => {
                    &&& p == path
                    &&& final(self).repositories() == old(self).repositories()
                },
                Ok(repo) => {
                    &&& final(self).repositories().len() == old(self).repositories().len() + 1
                    &&& final(self).repositories().drop_last() == old(self).repositories()
                    &&& same_repository(final(self).repositories().last(), repo)
                    &&& repo.path == path
                    &&& repo.project_type == project_type
                    &&& strings_view(repo.commands@) == default_commands_of(project_type)
                    &&& repo.enabled
                    &&& match name {
                        Some(n) => repo.name == n,
                        None => repo.name@ == default_name_of(path@),
                    }
                },
            },
    {
        let mut i: usize = 0;
        while i < self.repositories.len()
            invariant
                i <= self.repositories@.len(),
                forall|j: int| 0 <= j < i ==> self.repositories@[j].path@ != path@,
            decreases self.repositories@.len() - i,
        {
            if self.repositories[i].path == path {
                return Err(RegistryError::DuplicatePath(path));
            }
            i = i + 1;
        }
        let repo = Repository::new(path, name, project_type);
        let copy = repo.clone();
        self.repositories.push(repo);
        assert(self.repositories@.drop_last() =~= old(self).repositories@);
        Ok(copy)
    }

    /// Removes the first repository named `name`; false where there is none.
    pub fn remove_repository(&mut self, name: &str) -> (r: bool)
        ensures
            r <==> exists|i: int| first_named(old(self).repositories(), name@, i),
            forall|i: int|
                first_named(old(self).repositories(), name@, i) ==> final(self).repositories()
                    == old(self).repositories().remove(i),
            !r ==> final(self).repositories() == old(self).repositories(),
    {
        let target = String::from_str(name);
        let mut i: usize = 0;
        while i < self.repositories.len()
            invariant
                i <= self.repositories@.len(),
                target@ == name@,
                self.repositories@ == old(self).repositories@,
                forall|j: int| 0 <= j < i ==> self.repositories@[j].name@ != name@,
            decreases self.repositories@.len() - i,
        {
            if self.repositories[i].name == target {
                self.repositories.remove(i);
                assert(first_named(old(self).repositories(), name@, i as int));
                assert forall|k: int| first_named(old(self).repositories@, name@, k) implies k == i by {
                    if k < i {
                    } else if k > i {
                        assert(old(self).repositories@[i as int].name@ == name@);
                    }
                }
                return true;
            }
            i = i + 1;
        }
        false
    }

    /// Copies of the configured repositories, in order.
    pub fn get_repositories(&self) -> (r: Vec<Repository>)
        ensures
            r@.len() == self.repositories().len(),
            forall|i: int| 0 <= i < r@.len() ==> same_repository(#[trigger] r@[i], self.repositories()[i]),
    {
        let mut r: Vec<Repository> = Vec::new();
        let mut i: usize = 0;
        while i < self.repositories.len()
            invariant
                i <= self.repositories@.len(),
                r@.len() == i,
                forall|j: int| 0 <= j < i ==> same_repository(#[trigger] r@[j], self.repositories@[j]),
            decreases self.repositories@.len() - i,
        {
            r.push(self.repositories[i].clone());
            i = i + 1;
        }
        r
    }
}

} // verus!
