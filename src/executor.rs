use vstd::prelude::*;
use vstd::string::*;
use crate::config::{copy_strings, strings_view};

verus! {

/// What came of running one build step.
#[derive(Debug)]
pub enum CommandOutcome {
    /// The step ran to its end with this output and exit status.
    Completed { stdout: String, stderr: String, success: bool },
    /// The step could not be started.
    SpawnFailed { error: String },
}

/// The step failed: it exited without success or never started.
pub open spec fn outcome_failed(o: CommandOutcome) -> bool {
    match o {
        CommandOutcome::Completed { success, .. } => !success,
        CommandOutcome::SpawnFailed { .. } => true,
    }
}

/// The labelled transcript section of one attempted step.
pub open spec fn section(cmd: Seq<char>, o: CommandOutcome) -> Seq<char> {
    match o {
        CommandOutcome::Completed { stdout, stderr, .. } => {
            let err = if stderr@.len() == 0 {
                Seq::<char>::empty()
            } else {
                "STDERR:\n"@ + stderr@
            };
            "=== "@ + cmd + " ===\n"@ + stdout@ + err + "\n"@
        },
        CommandOutcome::SpawnFailed { error } => "Failed to execute "@ + cmd + ": "@ + error@ + "\n"@,
    }
}

/// The transcript of the steps `cmds[0..outs.len()]`, which gave `outs`, in order.
pub open spec fn transcript_of(cmds: Seq<Seq<char>>, outs: Seq<CommandOutcome>) -> Seq<char>
    decreases outs.len(),
{
    if outs.len() == 0 {
        Seq::<char>::empty()
    } else {
        transcript_of(cmds, outs.drop_last()) + section(cmds[outs.len() - 1], outs.last())
    }
}

/// No step among `outs` failed.
pub open spec fn all_succeeded(outs: Seq<CommandOutcome>) -> bool {
    forall|i: int| 0 <= i < outs.len() ==> !outcome_failed(#[trigger] outs[i])
}

/// A run that has given `outs` so far is over: a step failed, or none is left.
pub open spec fn run_over(cmds: Seq<Seq<char>>, outs: Seq<CommandOutcome>) -> bool {
    (outs.len() > 0 && outcome_failed(outs.last())) || outs.len() >= cmds.len()
}

/// Runs build steps strictly in order and stops at the first one that fails. The steps
/// themselves are run by the caller: it asks for the next step, runs it, and records
/// what came of it.
pub struct CommandExecutor {
    commands: Vec<String>,
    transcript: String,
    attempted: usize,
    failed: bool,
    outcomes: Ghost<Seq<CommandOutcome>>,
}

impl CommandExecutor {
    /// The steps to run.
    pub closed spec fn commands(&self) -> Seq<Seq<char>> {
        strings_view(self.commands@)
    }

    /// What each attempted step gave, in order.
    pub closed spec fn outcomes(&self) -> Seq<CommandOutcome> {
        self.outcomes@
    }

    pub closed spec fn wf(&self) -> bool {
        &&& self.attempted == self.outcomes@.len()
        &&& self.outcomes@.len() <= self.commands@.len()
        &&& forall|i: int|
            0 <= i < self.outcomes@.len() - 1 ==> !outcome_failed(#[trigger] self.outcomes@[i])
        &&& self.failed == !all_succeeded(self.outcomes@)
        &&& self.transcript@ == transcript_of(self.commands(), self.outcomes@)
    }

    pub fn new(commands: &Vec<String>) -> (r: Self)
        ensures
            r.wf(),
            r.commands() == strings_view(commands@),
            r.outcomes().len() == 0,
    {
        CommandExecutor {
            commands: copy_strings(commands),
            transcript: String::new(),
            attempted: 0,
            failed: false,
            outcomes: Ghost(Seq::empty()),
        }
    }

    /// The run is over: a step failed or every step was attempted.
    pub fn is_finished(&self) -> (r: bool)
        requires
            self.wf(),
        ensures
            r == run_over(self.commands(), self.outcomes()),
    {
        proof {
            if self.outcomes@.len() > 0 && !outcome_failed(self.outcomes@.last()) {
                assert forall|i: int| 0 <= i < self.outcomes@.len() implies !outcome_failed(
                    #[trigger] self.outcomes@[i],
                ) by {
                    if i < self.outcomes@.len() - 1 {
                    }
                }
            }
        }
        self.failed || self.attempted >= self.commands.len()
    }

    /// The step to run next, or `None` once the run is over.
    pub fn next_command(&self) -> (r: Option<String>)
        requires
            self.wf(),
        ensures
            r is None <==> run_over(self.commands(), self.outcomes()),
            r matches Some(c) ==> c@ == self.commands()[self.outcomes().len() as int],
    {
        if self.is_finished() {
            None
        } else {
            let n = self.attempted;
            Some(self.commands[n].clone())
        }
    }

    /// Records what came of the step that `next_command` gave.
    pub fn record(&mut self, outcome: CommandOutcome)
        requires
            old(self).wf(),
            !run_over(old(self).commands(), old(self).outcomes()),
        ensures
            final(self).wf(),
            final(self).commands() == old(self).commands(),
            final(self).outcomes() == old(self).outcomes().push(outcome),
    {
        assert(strings_view(self.commands@).len() == self.commands@.len());
        let n = self.attempted;
        let cmd = self.commands[n].as_str();
        let len = self.commands.len();
        assert(n < len);
        let next = n + 1;
        let ghost old_t = self.transcript@;
        match &outcome {
            CommandOutcome::Completed { stdout, stderr, success } => {
                self.transcript.append("=== ");
                self.transcript.append(cmd);
                self.transcript.append(" ===\n");
                self.transcript.append(stdout.as_str());
                if !stderr.as_str().is_empty() {
                    self.transcript.append("STDERR:\n");
                    self.transcript.append(stderr.as_str());
                }
                self.transcript.append("\n");
                assert(self.transcript@ =~= old_t + section(cmd@, outcome));
                if !*success {
                    self.failed = true;
                }
            },
            CommandOutcome::SpawnFailed { error } => {
                self.transcript.append("Failed to execute ");
                self.transcript.append(cmd);
                self.transcript.append(": ");
                self.transcript.append(error.as_str());
                self.transcript.append("\n");
                assert(self.transcript@ =~= old_t + section(cmd@, outcome));
                self.failed = true;
            },
        }
        let ghost old_outs = self.outcomes@;
        self.attempted = next;
        self.outcomes = Ghost(self.outcomes@.push(outcome));
        proof {
            let outs = self.outcomes@;
            assert(outs.drop_last() =~= old_outs);
            assert(strings_view(self.commands@)[n as int] == cmd@);
            assert(outs.last() == outcome);
            if !all_succeeded(old_outs) {
                let i = choose|i: int| 0 <= i < old_outs.len() && outcome_failed(#[trigger] old_outs[i]);
                assert(outs[i] == old_outs[i]);
            }
            if all_succeeded(old_outs) && !outcome_failed(outcome) {
                assert forall|i: int| 0 <= i < outs.len() implies !outcome_failed(#[trigger] outs[i]) by {
                    if i < old_outs.len() {
                        assert(outs[i] == old_outs[i]);
                    }
                }
            }
            if outcome_failed(outcome) {
                assert(outs[outs.len() - 1] == outcome);
            }
            assert(old_outs.len() == 0 || !outcome_failed(old_outs.last()));
        }
    }

    /// Every attempted step succeeded.
    pub fn success(&self) -> (r: bool)
        requires
            self.wf(),
        ensures
            r == all_succeeded(self.outcomes()),
    {
        !self.failed
    }

    /// The labelled sections of the attempted steps, in order.
    pub fn transcript(&self) -> (r: String)
        requires
            self.wf(),
        ensures
            r@ == transcript_of(self.commands(), self.outcomes()),
    {
        self.transcript.clone()
    }
}

} // verus!
