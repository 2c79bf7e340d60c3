use vstd::prelude::*;
use vstd::string::*;
use crate::config::{Repository, copy_strings};

verus! {

/// Most builds kept in one repository's history.
pub const REPOSITORY_HISTORY_CAP: usize = 50;

/// Most builds kept in the feed across all repositories.
pub const GLOBAL_FEED_CAP: usize = 100;

/// The record of one build attempt; never changed once made.
#[derive(Debug)]
pub struct BuildResult {
    /// Sequence number, counted per repository from 1.
    pub id: u64,
    pub repository_id: u128,
    pub repository_name: String,
    pub success: bool,
    /// The executor's transcript of every step it attempted.
    pub output: String,
    /// Seconds since the Unix epoch when the build started.
    pub timestamp: u64,
    pub commit_hash: String,
    pub duration_ms: u64,
    pub repo_path: String,
    pub project_type: String,
}

impl Clone for BuildResult {
    fn clone(&self) -> (r: Self)
        ensures
            r == *self,
    {
        BuildResult {
            id: self.id,
            repository_id: self.repository_id,
            repository_name: self.repository_name.clone(),
            success: self.success,
            output: self.output.clone(),
            timestamp: self.timestamp,
            commit_hash: self.commit_hash.clone(),
            duration_ms: self.duration_ms,
            repo_path: self.repo_path.clone(),
            project_type: self.project_type.clone(),
        }
    }
}

/// The live status of a repository.
#[derive(Debug, Clone)]
pub enum Status {
    Starting,
    Idle,
    Building,
    Passing,
    Failed,
    Error(String),
}

/// The text shown to viewers for a status.
pub open spec fn status_text(s: Status) -> Seq<char> {
    match s {
        Status::Starting => "Starting..."@,
        Status::Idle => "Idle"@,
        Status::Building => "Building..."@,
        Status::Passing => "Passing"@,
        Status::Failed => "Failed"@,
        Status::Error(m) => "Error: "@ + m@,
    }
}

impl Status {
    /// The text shown to viewers for this status.
    pub fn text(&self) -> (r: String)
        ensures
            r@ == status_text(*self),
    {
        match self {
            Status::Starting => String::from_str("Starting..."),
            Status::Idle => String::from_str("Idle"),
            Status::Building => String::from_str("Building..."),
            Status::Passing => String::from_str("Passing"),
            Status::Failed => String::from_str("Failed"),
            Status::Error(m) => {
                let mut r = String::from_str("Error: ");
                r.append(m.as_str());
                r
            },
        }
    }
}

/// What is known of a repository's working copy.
#[derive(Debug, Clone)]
pub struct RepoInfo {
    pub path: String,
    pub branch: String,
    pub last_commit: String,
    pub commands: Vec<String>,
    pub project_type: String,
}

/// The live record of one repository.
#[derive(Debug, Clone)]
pub struct RepositoryState {
    pub repository: Repository,
    /// Most recent first.
    pub builds: Vec<BuildResult>,
    pub current_status: Status,
    pub repo_info: RepoInfo,
}

/// `b` put at the front of `s`, keeping at most `cap` entries (the oldest leave).
pub open spec fn push_capped(s: Seq<BuildResult>, b: BuildResult, cap: nat) -> Seq<BuildResult> {
    let t = seq![b] + s;
    if t.len() > cap {
        t.subrange(0, cap as int)
    } else {
        t
    }
}

/// The history of repository `repo_id` after `b` is appended to the store.
pub open spec fn history_after(h: Seq<BuildResult>, repo_id: u128, b: BuildResult) -> Seq<BuildResult> {
    if b.repository_id == repo_id {
        push_capped(h, b, REPOSITORY_HISTORY_CAP as nat)
    } else {
        h
    }
}

/// Two repository configurations that agree in every field.
pub open spec fn same_repository(a: Repository, b: Repository) -> bool {
    &&& a.id == b.id
    &&& a.name == b.name
    &&& a.path == b.path
    &&& a.project_type == b.project_type
    &&& a.commands@ == b.commands@
    &&& a.enabled == b.enabled
}

/// The state that a freshly registered repository starts in.
pub open spec fn fresh_state(s: RepositoryState, r: Repository) -> bool {
    &&& same_repository(s.repository, r)
    &&& s.builds@.len() == 0
    &&& s.current_status == Status::Starting
    &&& s.repo_info.path@ == r.path@
    &&& s.repo_info.branch@ == "unknown"@
    &&& s.repo_info.last_commit@ == "unknown"@
    &&& s.repo_info.commands@ == r.commands@
    &&& s.repo_info.project_type@ == crate::config::project_label(r.project_type)
}

impl RepositoryState {
    pub fn new(repository: Repository) -> (r: Self)
        ensures
            fresh_state(r, repository),
    {
        let repo_info = RepoInfo {
            path: repository.path.clone(),
            branch: String::from_str("unknown"),
            last_commit: String::from_str("unknown"),
            commands: copy_strings(&repository.commands),
            project_type: repository.project_type.label(),
        };
        RepositoryState {
            repository,
            builds: Vec::new(),
            current_status: Status::Starting,
            repo_info,
        }
    }
}

/// The record `s` with its status replaced.
pub open spec fn with_status(s: RepositoryState, status: Status) -> RepositoryState {
    RepositoryState { current_status: status, ..s }
}

/// The record `s` with its branch and last commit replaced together.
pub open spec fn with_info(s: RepositoryState, branch: String, commit: String) -> RepositoryState {
    RepositoryState { repo_info: RepoInfo { branch, last_commit: commit, ..s.repo_info }, ..s }
}

/// The first position in `s` of a build with sequence number `id`.
pub open spec fn first_build_with_id(s: Seq<BuildResult>, id: u64, i: int) -> bool {
    0 <= i < s.len() && s[i].id == id && forall|j: int| 0 <= j < i ==> s[j].id != id
}

/// The first position in `s` of a repository named `name`.
pub open spec fn first_repository_named(s: Seq<RepositoryState>, name: Seq<char>, i: int) -> bool {
    0 <= i < s.len() && s[i].repository.name@ == name && forall|j: int|
        0 <= j < i ==> s[j].repository.name@ != name
}

/// `b` is the store `a` after `repository` was registered: a fresh record at the end,
/// unless one with its id was there already.
pub open spec fn registered(a: GlobalState, b: GlobalState, repository: Repository) -> bool {
    &&& b.recent_builds@ == a.recent_builds@
    &&& a.has_repository(repository.id) ==> b.repositories@ == a.repositories@
    &&& !a.has_repository(repository.id) ==> {
        &&& b.repositories@.len() == a.repositories@.len() + 1
        &&& b.repositories@.drop_last() == a.repositories@
        &&& fresh_state(b.repositories@.last(), repository)
    }
}

/// `b` is the store `a` after `build` was appended.
pub open spec fn build_added(a: GlobalState, b: GlobalState, build: BuildResult) -> bool {
    &&& b.recent_builds@ == push_capped(a.recent_builds@, build, GLOBAL_FEED_CAP as nat)
    &&& b.repositories@.len() == a.repositories@.len()
    &&& forall|i: int|
        0 <= i < a.repositories@.len() ==> {
            let s = a.repositories@[i];
            let t = #[trigger] b.repositories@[i];
            &&& t.builds@ == history_after(s.builds@, s.repository.id, build)
            &&& t.repository == s.repository
            &&& t.current_status == s.current_status
            &&& t.repo_info == s.repo_info
        }
}

/// `b` is the store `a` after the status of repository `repo_id` was set.
pub open spec fn status_updated(a: GlobalState, b: GlobalState, repo_id: u128, status: Status) -> bool {
    &&& b.recent_builds@ == a.recent_builds@
    &&& b.repositories@.len() == a.repositories@.len()
    &&& forall|i: int|
        0 <= i < a.repositories@.len() ==> #[trigger] b.repositories@[i] == if a.repositories@[i].repository.id
            == repo_id {
            with_status(a.repositories@[i], status)
        } else {
            a.repositories@[i]
        }
}

/// `b` is the store `a` after the branch and last commit of repository `repo_id` were set.
pub open spec fn info_updated(
    a: GlobalState,
    b: GlobalState,
    repo_id: u128,
    branch: String,
    commit: String,
) -> bool {
    &&& b.recent_builds@ == a.recent_builds@
    &&& b.repositories@.len() == a.repositories@.len()
    &&& forall|i: int|
        0 <= i < a.repositories@.len() ==> #[trigger] b.repositories@[i] == if a.repositories@[i].repository.id
            == repo_id {
            with_info(a.repositories@[i], branch, commit)
        } else {
            a.repositories@[i]
        }
}

/// The state shared by all monitors and read by the status viewers.
#[derive(Debug, Clone)]
pub struct GlobalState {
    /// One record per registered repository, in order of registration.
    pub repositories: Vec<RepositoryState>,
    /// The feed of builds across all repositories, most recent first.
    pub recent_builds: Vec<BuildResult>,
}

impl GlobalState {
    /// Repository ids are unique, and both kinds of history respect their caps.
    pub open spec fn wf(&self) -> bool {
        &&& forall|i: int, j: int|
            0 <= i < j < self.repositories@.len() ==> self.repositories@[i].repository.id
                != self.repositories@[j].repository.id
        &&& forall|i: int|
            0 <= i < self.repositories@.len() ==> (#[trigger] self.repositories@[i]).builds@.len()
                <= REPOSITORY_HISTORY_CAP
        &&& self.recent_builds@.len() <= GLOBAL_FEED_CAP
    }

    /// A repository with this id is registered.
    pub open spec fn has_repository(&self, repo_id: u128) -> bool {
        exists|i: int|
            0 <= i < self.repositories@.len() && (#[trigger] self.repositories@[i]).repository.id
                == repo_id
    }

    /// Whether this repository is registered and currently building.
    pub open spec fn building(&self, repo_id: u128) -> bool {
        exists|i: int|
            0 <= i < self.repositories@.len() && (#[trigger] self.repositories@[i]).repository.id
                == repo_id && self.repositories@[i].current_status is Building
    }

    pub fn new() -> (r: Self)
        ensures
            r.wf(),
            r.repositories@.len() == 0,
            r.recent_builds@.len() == 0,
    {
        GlobalState { repositories: Vec::new(), recent_builds: Vec::new() }
    }

    /// The position of the repository with this id, if it is registered.
    pub fn index_of(&self, repo_id: u128) -> (r: Option<usize>)
        ensures
            match r {
                Some(i) => i < self.repositories@.len() && self.repositories@[i as int].repository.id
                    == repo_id,
                None => !self.has_repository(repo_id),
            },
    {
        let mut i: usize = 0;
        while i < self.repositories.len()
            invariant
                i <= self.repositories@.len(),
                forall|j: int| 0 <= j < i ==> self.repositories@[j].repository.id != repo_id,
            decreases self.repositories@.len() - i,
        {
            if self.repositories[i].repository.id == repo_id {
                return Some(i);
            }
            i = i + 1;
        }
        None
    }

    /// Registers a repository with status `Starting`; does nothing where one with the
    /// same id is registered already.
    pub fn add_repository_state(&mut self, repository: Repository)
        requires
            old(self).wf(),
        ensures
            final(self).wf(),
            registered(*old(self), *final(self), repository),
    {
        if self.index_of(repository.id).is_some() {
            return;
        }
        let state = RepositoryState::new(repository);
        self.repositories.push(state);
        assert(final(self).repositories@.drop_last() =~= old(self).repositories@);
    }

    /// Puts a build at the front of its repository's history and of the feed, each
    /// cut to its cap.
    pub fn add_build(&mut self, build: BuildResult)
        requires
            old(self).wf(),
        ensures
            final(self).wf(),
            build_added(*old(self), *final(self), build),
    {
        match self.index_of(build.repository_id) {
            Some(i) => {
                let copy = build.clone();
                let ghost h = self.repositories@[i as int].builds@;
                self.repositories[i].builds.insert(0, copy);
                if self.repositories[i].builds.len() > REPOSITORY_HISTORY_CAP {
                    self.repositories[i].builds.truncate(REPOSITORY_HISTORY_CAP);
                }
                assert(self.repositories@[i as int].builds@ =~= push_capped(
                    h,
                    build,
                    REPOSITORY_HISTORY_CAP as nat,
                ));
            },
            None => {},
        }
        let ghost f = self.recent_builds@;
        self.recent_builds.insert(0, build);
        if self.recent_builds.len() > GLOBAL_FEED_CAP {
            self.recent_builds.truncate(GLOBAL_FEED_CAP);
        }
        assert(self.recent_builds@ =~= push_capped(f, build, GLOBAL_FEED_CAP as nat));
    }

    /// Replaces the status of the repository with this id, if it is registered.
    pub fn update_repository_status(&mut self, repo_id: u128, status: Status)
        requires
            old(self).wf(),
        ensures
            final(self).wf(),
            status_updated(*old(self), *final(self), repo_id, status),
    {
        match self.index_of(repo_id) {
            Some(i) => {
                self.repositories[i].current_status = status;
            },
            None => {},
        }
    }

    /// Replaces the branch and the last commit of the repository with this id together,
    /// if it is registered.
    pub fn update_repository_info(&mut self, repo_id: u128, branch: String, commit: String)
        requires
            old(self).wf(),
        ensures
            final(self).wf(),
            info_updated(*old(self), *final(self), repo_id, branch, commit),
    {
        match self.index_of(repo_id) {
            Some(i) => {
                self.repositories[i].repo_info.branch = branch;
                self.repositories[i].repo_info.last_commit = commit;
            },
            None => {},
        }
    }

    /// Whether the repository with this id is registered and its status is `Building`.
    pub fn is_building(&self, repo_id: u128) -> (r: bool)
        requires
            self.wf(),
        ensures
            r == self.building(repo_id),
    {
        match self.index_of(repo_id) {
            Some(i) => {
                let r = matches!(self.repositories[i].current_status, Status::Building);
                proof {
                    if self.building(repo_id) {
                        let k = choose|k: int|
                            0 <= k < self.repositories@.len() && (#[trigger] self.repositories@[k]).repository.id
                                == repo_id && self.repositories@[k].current_status is Building;
                        assert(k == i);
                    }
                }
                r
            },
            None => false,
        }
    }

    /// The position of the first registered repository with this name.
    pub fn find_repository(&self, name: &str) -> (r: Option<usize>)
        ensures
            match r {
                Some(i) => first_repository_named(self.repositories@, name@, i as int),
                None => forall|j: int|
                    0 <= j < self.repositories@.len() ==> self.repositories@[j].repository.name@ != name@,
            },
    {
        let target = String::from_str(name);
        let mut i: usize = 0;
        while i < self.repositories.len()
            invariant
                i <= self.repositories@.len(),
                target@ == name@,
                forall|j: int| 0 <= j < i ==> self.repositories@[j].repository.name@ != name@,
            decreases self.repositories@.len() - i,
        {
            if self.repositories[i].repository.name == target {
                return Some(i);
            }
            i = i + 1;
        }
        None
    }

    /// The position of the first build in the feed with this sequence number. Numbers
    /// are counted per repository, so several may match: the most recent one wins.
    pub fn find_build(&self, id: u64) -> (r: Option<usize>)
        ensures
            match r {
                Some(i) => first_build_with_id(self.recent_builds@, id, i as int),
                None => forall|j: int| 0 <= j < self.recent_builds@.len() ==> self.recent_builds@[j].id != id,
            },
    {
        let mut i: usize = 0;
        while i < self.recent_builds.len()
            invariant
                i <= self.recent_builds@.len(),
                forall|j: int| 0 <= j < i ==> self.recent_builds@[j].id != id,
            decreases self.recent_builds@.len() - i,
        {
            if self.recent_builds[i].id == id {
                return Some(i);
            }
            i = i + 1;
        }
        None
    }
}

proof fn lemma_two_pushes(f: Seq<BuildResult>, a: BuildResult, b: BuildResult, cap: nat)
    requires
        cap >= 2,
    ensures
        push_capped(push_capped(f, a, cap), b, cap) == seq![b, a] + f.take(
            if f.len() + 2 > cap {
                cap - 2
            } else {
                f.len() as int
            },
        ),
{
    let n = if f.len() + 2 > cap {
        cap - 2
    } else {
        f.len() as int
    };
    assert(push_capped(push_capped(f, a, cap), b, cap) =~= seq![b, a] + f.take(n));
}

/// Two builds of different repositories appended in either order leave the store
/// alike: the feed holds the same builds, and every repository the same history.
pub proof fn lemma_append_order_independent(
    g: GlobalState,
    a: BuildResult,
    b: BuildResult,
    ga: GlobalState,
    gab: GlobalState,
    gb: GlobalState,
    gba: GlobalState,
)
    requires
        a.repository_id != b.repository_id,
        build_added(g, ga, a),
        build_added(ga, gab, b),
        build_added(g, gb, b),
        build_added(gb, gba, a),
    ensures
        gab.recent_builds@.to_set() == gba.recent_builds@.to_set(),
        gab.recent_builds@.len() == gba.recent_builds@.len(),
        gab.repositories@.len() == gba.repositories@.len(),
        forall|i: int|
            0 <= i < gab.repositories@.len() ==> {
                let s = #[trigger] gab.repositories@[i];
                let t = gba.repositories@[i];
                &&& s.builds@ == t.builds@
                &&& s.repository == t.repository
                &&& s.current_status == t.current_status
                &&& s.repo_info == t.repo_info
            },
{
    let f = g.recent_builds@;
    lemma_two_pushes(f, a, b, GLOBAL_FEED_CAP as nat);
    lemma_two_pushes(f, b, a, GLOBAL_FEED_CAP as nat);
    let x = gab.recent_builds@;
    let y = gba.recent_builds@;
    assert forall|e: BuildResult| x.contains(e) implies y.contains(e) by {
        let k = choose|k: int| 0 <= k < x.len() && x[k] == e;
        if k == 0 {
            assert(y[1] == e);
        } else if k == 1 {
            assert(y[0] == e);
        } else {
            assert(y[k] == e);
        }
    }
    assert forall|e: BuildResult| y.contains(e) implies x.contains(e) by {
        let k = choose|k: int| 0 <= k < y.len() && y[k] == e;
        if k == 0 {
            assert(x[1] == e);
        } else if k == 1 {
            assert(x[0] == e);
        } else {
            assert(x[k] == e);
        }
    }
    assert(x.to_set() =~= y.to_set());
    assert forall|i: int| 0 <= i < gab.repositories@.len() implies {
        let s = #[trigger] gab.repositories@[i];
        let t = gba.repositories@[i];
        &&& s.builds@ == t.builds@
        &&& s.repository == t.repository
        &&& s.current_status == t.current_status
        &&& s.repo_info == t.repo_info
    } by {
        let s0 = g.repositories@[i];
        assert(ga.repositories@[i].repository == s0.repository);
        assert(gb.repositories@[i].repository == s0.repository);
    }
}

} // verus!
