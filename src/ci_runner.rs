use vstd::prelude::*;
use vstd::string::*;
use crate::config::{Repository, project_label, strings_view};
use crate::executor::{CommandExecutor, all_succeeded, run_over, transcript_of};
use crate::models::{
    BuildResult,
    GlobalState,
    Status,
    build_added,
    registered,
    same_repository,
    status_updated,
    info_updated,
};

verus! {

/// A poll that fetched `fetched` (`None`: the fetch failed) starts a build: it fetched a
/// commit other than the one remembered.
pub open spec fn triggers_build(last: Option<Seq<char>>, fetched: Option<Seq<char>>) -> bool {
    match fetched {
        Some(c) => last != Some(c),
        None => false,
    }
}

/// The commit remembered after a poll that fetched `fetched` (and, where that started a
/// build, after the build was recorded).
pub open spec fn remembered_after(last: Option<Seq<char>>, fetched: Option<Seq<char>>) -> Option<
    Seq<char>,
> {
    match fetched {
        Some(c) => Some(c),
        None => last,
    }
}

/// The commit that a monitor remembers after the polls `obs`, starting from nothing.
pub open spec fn replay(obs: Seq<Option<Seq<char>>>) -> Option<Seq<char>>
    decreases obs.len(),
{
    if obs.len() == 0 {
        None
    } else {
        remembered_after(replay(obs.drop_last()), obs.last())
    }
}

/// The view of a `Result` of a fetch: the commit, or `None` for a failure.
pub open spec fn fetched_view(fetched: Result<String, String>) -> Option<Seq<char>> {
    match fetched {
        Ok(c) => Some(c@),
        Err(_) => None,
    }
}

/// The status a finished build leaves its repository in.
pub open spec fn verdict(success: bool) -> Status {
    if success {
        Status::Passing
    } else {
        Status::Failed
    }
}

/// Watches one repository: decides on each poll whether a build is due, and records
/// each build's outcome in the shared store. The caller fetches the commit, runs the
/// steps the returned executor hands out, and waits between polls.
pub struct CiRunner {
    repository: Repository,
    last_commit: Option<String>,
    pending_commit: Option<String>,
    build_counter: u64,
}

impl CiRunner {
    pub closed spec fn repository(&self) -> Repository {
        self.repository
    }

    /// The commit of the last recorded build.
    pub closed spec fn last_commit(&self) -> Option<Seq<char>> {
        match self.last_commit {
            Some(c) => Some(c@),
            None => None,
        }
    }

    /// The commit of the build in progress.
    pub closed spec fn pending_commit(&self) -> Option<Seq<char>> {
        match self.pending_commit {
            Some(c) => Some(c@),
            None => None,
        }
    }

    /// Sequence number of the latest build started.
    pub closed spec fn counter(&self) -> u64 {
        self.build_counter
    }

    /// Registers the repository in the store and starts with no commit remembered.
    pub fn new(repository: Repository, global_state: &mut GlobalState) -> (r: Self)
        requires
            old(global_state).wf(),
        ensures
            final(global_state).wf(),
            registered(*old(global_state), *final(global_state), repository),
            same_repository(r.repository(), repository),
            r.last_commit() is None,
            r.pending_commit() is None,
            r.counter() == 0,
    {
        global_state.add_repository_state(repository.clone());
        CiRunner { repository, last_commit: None, pending_commit: None, build_counter: 0 }
    }

    /// Sequence number of the latest build started.
    pub fn build_counter(&self) -> (r: u64)
        ensures
            r == self.counter(),
    {
        self.build_counter
    }

    /// The monitor begins: its repository becomes `Idle`.
    pub fn start(&self, global_state: &mut GlobalState)
        requires
            old(global_state).wf(),
        ensures
            final(global_state).wf(),
            status_updated(*old(global_state), *final(global_state), self.repository().id, Status::Idle),
    {
        global_state.update_repository_status(self.repository.id, Status::Idle);
    }

    /// After a poll with no error: a repository still shown as `Building` goes back to `Idle`.
    fn settle(&self, global_state: &mut GlobalState)
        requires
            old(global_state).wf(),
        ensures
            final(global_state).wf(),
            old(global_state).building(self.repository().id) ==> status_updated(
                *old(global_state),
                *final(global_state),
                self.repository().id,
                Status::Idle,
            ),
            !old(global_state).building(self.repository().id) ==> *final(global_state) == *old(
                global_state,
            ),
    {
        if global_state.is_building(self.repository.id) {
            global_state.update_repository_status(self.repository.id, Status::Idle);
        }
    }

    /// One poll, given what fetching the latest commit gave. A failed fetch shows as an
    /// `Error` status; the same commit as the remembered one changes nothing; any other
    /// commit starts a build: the repository shows `Building` and the returned executor
    /// holds its steps.
    pub fn poll(&mut self, global_state: &mut GlobalState, fetched: Result<String, String>) -> (r:
        Option<CommandExecutor>)
        requires
            old(global_state).wf(),
            old(self).pending_commit() is None,
            old(self).counter() < u64::MAX,
        ensures
            final(global_state).wf(),
            r is Some <==> triggers_build(old(self).last_commit(), fetched_view(fetched)),
            final(self).repository() == old(self).repository(),
            final(self).last_commit() == old(self).last_commit(),
            match fetched {
                Err(m) => {
                    &&& status_updated(
                        *old(global_state),
                        *final(global_state),
                        old(self).repository().id,
                        Status::Error(m),
                    )
                    &&& final(self).pending_commit() is None
                    &&& final(self).counter() == old(self).counter()
                },
                Ok(c) => match r {
                    Some(e) => {
                        &&& status_updated(
                            *old(global_state),
                            *final(global_state),
                            old(self).repository().id,
                            Status::Building,
                        )
                        &&& final(self).pending_commit() == Some(c@)
                        &&& final(self).counter() == old(self).counter() + 1
                        &&& e.wf()
                        &&& e.commands() == strings_view(old(self).repository().commands@)
                        &&& e.outcomes().len() == 0
                    },
                    None => {
                        &&& final(self).pending_commit() is None
                        &&& final(self).counter() == old(self).counter()
                        &&& old(global_state).building(old(self).repository().id) ==> status_updated(
                            *old(global_state),
                            *final(global_state),
                            old(self).repository().id,
                            Status::Idle,
                        )
                        &&& !old(global_state).building(old(self).repository().id)
                            ==> *final(global_state) == *old(global_state)
                    },
                },
            },
    {
        match fetched {
            Err(m) => {
                global_state.update_repository_status(self.repository.id, Status::Error(m));
                None
            },
            Ok(c) => {
                let same = match &self.last_commit {
                    Some(last) => *last == c,
                    None => false,
                };
                if same {
                    self.settle(global_state);
                    None
                } else {
                    self.build_counter = self.build_counter + 1;
                    global_state.update_repository_status(self.repository.id, Status::Building);
                    self.pending_commit = Some(c);
                    Some(CommandExecutor::new(&self.repository.commands))
                }
            },
        }
    }

    /// Records a finished build of the pending commit: appends its record to the store,
    /// shows `Passing` or `Failed`, stores the branch (where it could be read) together
    /// with the commit, and remembers the commit. Returns the record appended.
    pub fn complete(
        &mut self,
        global_state: &mut GlobalState,
        executor: &CommandExecutor,
        timestamp: u64,
        duration_ms: u64,
        branch: Option<String>,
    ) -> (r: BuildResult)
        requires
            old(global_state).wf(),
            old(self).pending_commit() is Some,
            executor.wf(),
            run_over(executor.commands(), executor.outcomes()),
        ensures
            final(global_state).wf(),
            r.id == old(self).counter(),
            r.repository_id == old(self).repository().id,
            r.repository_name == old(self).repository().name,
            r.success == all_succeeded(executor.outcomes()),
            r.output@ == transcript_of(executor.commands(), executor.outcomes()),
            r.timestamp == timestamp,
            old(self).pending_commit() == Some(r.commit_hash@),
            r.duration_ms == duration_ms,
            r.repo_path == old(self).repository().path,
            r.project_type@ == project_label(old(self).repository().project_type),
            exists|g1: GlobalState, g2: GlobalState|
                {
                    &&& build_added(*old(global_state), g1, r)
                    &&& status_updated(g1, g2, r.repository_id, verdict(r.success))
                    &&& match branch {
                        Some(b) => info_updated(
                            g2,
                            *final(global_state),
                            r.repository_id,
                            b,
                            r.commit_hash,
                        ),
                        None => *final(global_state) == g2,
                    }
                },
            final(self).repository() == old(self).repository(),
            final(self).last_commit() == old(self).pending_commit(),
            final(self).pending_commit() is None,
            final(self).counter() == old(self).counter(),
    {
        let commit = match &self.pending_commit {
            Some(c) => c.clone(),
            None => String::new(),
        };
        let success = executor.success();
        let result = BuildResult {
            id: self.build_counter,
            repository_id: self.repository.id,
            repository_name: self.repository.name.clone(),
            success,
            output: executor.transcript(),
            timestamp,
            commit_hash: commit.clone(),
            duration_ms,
            repo_path: self.repository.path.clone(),
            project_type: self.repository.project_type.label(),
        };
        let r = result.clone();
        global_state.add_build(result);
        let ghost g1 = *global_state;
        let status = if success {
            Status::Passing
        } else {
            Status::Failed
        };
        global_state.update_repository_status(self.repository.id, status);
        let ghost g2 = *global_state;
        match branch {
            Some(b) => {
                global_state.update_repository_info(self.repository.id, b, commit.clone());
            },
            None => {},
        }
        proof {
            assert(build_added(*old(global_state), g1, r));
            assert(status_updated(g1, g2, r.repository_id, verdict(r.success)));
        }
        self.last_commit = Some(commit);
        self.pending_commit = None;
        r
    }
}

/// Position of the latest successful fetch among `obs[0..i]`, or -1 where there is none.
pub open spec fn latest_fetch(obs: Seq<Option<Seq<char>>>, i: int) -> int
    decreases i,
{
    if i <= 0 {
        -1
    } else if obs[i - 1] is Some {
        i - 1
    } else {
        latest_fetch(obs, i - 1)
    }
}

proof fn lemma_latest_fetch(obs: Seq<Option<Seq<char>>>, i: int)
    requires
        0 <= i <= obs.len(),
    ensures
        -1 <= latest_fetch(obs, i) < i,
        latest_fetch(obs, i) >= 0 ==> obs[latest_fetch(obs, i)] is Some,
        forall|k: int| latest_fetch(obs, i) < k < i ==> obs[k] is None,
        replay(obs.take(i)) == if latest_fetch(obs, i) < 0 {
            None
        } else {
            obs[latest_fetch(obs, i)]
        },
    decreases i,
{
    if i > 0 {
        lemma_latest_fetch(obs, i - 1);
        assert(obs.take(i).drop_last() =~= obs.take(i - 1));
        assert(obs.take(i).last() == obs[i - 1]);
    } else {
        assert(obs.take(i).len() == 0);
    }
}

/// Over any sequence of polls (`None`: the fetch failed), each one starting from the
/// state the earlier ones left: poll `i` starts a build exactly when it fetched a commit
/// and the latest earlier successful fetch, if any, gave another commit. So the first
/// successful fetch always starts one, and fetching the same commit again starts none.
pub proof fn lemma_build_trigger(obs: Seq<Option<Seq<char>>>, i: int)
    requires
        0 <= i < obs.len(),
    ensures
        triggers_build(replay(obs.take(i)), obs[i]) <==> (obs[i] is Some && forall|j: int|
            0 <= j < i && obs[j] is Some && (forall|k: int| j < k < i ==> obs[k] is None)
                ==> obs[j] != obs[i]),
        (forall|j: int| 0 <= j < i ==> obs[j] is None) ==> (triggers_build(
            replay(obs.take(i)),
            obs[i],
        ) <==> obs[i] is Some),
        i > 0 && obs[i - 1] == obs[i] ==> !triggers_build(replay(obs.take(i)), obs[i]),
{
    lemma_latest_fetch(obs, i);
    let l = latest_fetch(obs, i);
    if triggers_build(replay(obs.take(i)), obs[i]) {
        assert forall|j: int|
            0 <= j < i && obs[j] is Some && (forall|k: int| j < k < i ==> obs[k] is None) implies obs[j]
            != obs[i] by {
            if j < l {
                assert(obs[l] is Some);
            } else if j > l {
            }
        }
    } else if obs[i] is Some && l >= 0 {
        assert(forall|k: int| l < k < i ==> obs[k] is None);
    }
}

} // verus!
