use vstd::prelude::*;

use crate::command::{plan_view, CommandView, PlannedCommand};
use crate::error::NetMgrError;

verus! {

/// The step at which a plan stopped, and what the tool said.
#[derive(Debug)]
pub struct StepFailure {
    /// The position of the failing command in its plan, from 0.
    pub step: usize,
    /// How many commands of the plan had taken effect before it.
    pub completed: usize,
    /// The error text of the failing command, verbatim.
    pub stderr: String,
}

/// A `StepFailure` as the mathematics sees it.
pub struct FailureView {
    pub step: nat,
    pub completed: nat,
    pub stderr: Seq<char>,
}

impl View for StepFailure {
    type V = FailureView;

    open spec fn view(&self) -> FailureView {
        FailureView { step: self.step as nat, completed: self.completed as nat, stderr: self.stderr@ }
    }
}

/// What one command of a plan came to.
pub struct StepResult {
    pub success: bool,
    pub stderr: Seq<char>,
}

/// Where a plan stands after the results `results` of its first commands:
/// how many of them took effect, and the first failure of a command that is
/// not best-effort, if there is one among them.
pub struct Progress {
    pub completed: nat,
    pub failure: Option<FailureView>,
}

/// The progress of `plan` after `results`, one result for each command that
/// was run, in order. A result after a failure is not looked at.
pub open spec fn progress_after(plan: Seq<CommandView>, results: Seq<StepResult>) -> Progress
    decreases results.len(),
{
    if results.len() == 0 {
        Progress { completed: 0, failure: None }
    } else {
        let before = progress_after(plan, results.drop_last());
        let step = results.len() - 1;
        if before.failure is Some || step >= plan.len() {
            before
        } else if results.last().success {
            Progress { completed: before.completed + 1, failure: None }
        } else if plan[step].best_effort {
            before
        } else {
            Progress {
                completed: before.completed,
                failure: Some(
                    FailureView {
                        step: step as nat,
                        completed: before.completed,
                        stderr: results.last().stderr,
                    },
                ),
            }
        }
    }
}

/// A plan that is being carried out, one command after another.
///
/// The caller asks for the next command, runs it, and records how it went.
/// With `dry_run` set no command is ever handed out and the plan counts as
/// carried out in full.
pub struct PlanRun {
    plan: Vec<PlannedCommand>,
    dry_run: bool,
    state: RunState,
}

/// How far a run has come.
struct RunState {
    cursor: usize,
    completed: usize,
    failure: Option<StepFailure>,
    log: Ghost<Seq<StepResult>>,
}

impl PlanRun {
    #[verifier::type_invariant]
    spec fn inv(self) -> bool {
        &&& self.state.cursor <= self.plan.len()
        &&& self.state.completed <= self.state.cursor
        &&& self.state.failure is Some ==> self.state.cursor < self.plan.len()
        &&& self.state.log@.len() == self.state.cursor + (if self.state.failure is Some {
            1nat
        } else {
            0nat
        })
        &&& progress_after(plan_view(self.plan@), self.state.log@) == Progress {
            completed: self.state.completed as nat,
            failure: match self.state.failure {
                Some(f) => Some(f@),
                None => None,
            },
        }
        &&& self.dry_run ==> self.state.cursor == 0 && self.state.failure is None
    }

    /// The plan that is carried out.
    pub closed spec fn plan(&self) -> Seq<CommandView> {
        plan_view(self.plan@)
    }

    /// Whether commands are only shown, not run.
    pub closed spec fn is_dry_run(&self) -> bool {
        self.dry_run
    }

    /// The results recorded so far, oldest first.
    pub closed spec fn results(&self) -> Seq<StepResult> {
        self.state.log@
    }

    /// Where the plan stands.
    pub open spec fn progress(&self) -> Progress {
        progress_after(self.plan(), self.results())
    }

    /// Whether a command is waiting to be run.
    pub open spec fn pending_spec(&self) -> bool {
        &&& !self.is_dry_run()
        &&& self.progress().failure is None
        &&& self.results().len() < self.plan().len()
    }

    /// Starts on `plan`; nothing has been run.
    pub fn new(plan: Vec<PlannedCommand>, dry_run: bool) -> (run: PlanRun)
        ensures
            run.plan() == plan_view(plan@),
            run.is_dry_run() == dry_run,
            run.results() == Seq::<StepResult>::empty(),
    {
        PlanRun {
            plan,
            dry_run,
            state: RunState { cursor: 0, completed: 0, failure: None, log: Ghost(Seq::empty()) },
        }
    }

    /// Whether a command is waiting to be run.
    #[verifier::when_used_as_spec(pending_spec)]
    pub fn pending(&self) -> (p: bool)
        ensures
            p == self.pending_spec(),
    {
        proof {
            use_type_invariant(self);
        }
        !self.dry_run && self.state.failure.is_none() && self.state.cursor < self.plan.len()
    }

    /// The command to run next: the one after those whose results are
    /// recorded, while none has failed and the run is not a dry run.
    pub fn next_command(&self) -> (next: Option<&PlannedCommand>)
        ensures
            next is Some <==> self.pending(),
            next matches Some(c) ==> c@ == self.plan()[self.results().len() as int],
    {
        proof {
            use_type_invariant(self);
        }
        if !self.dry_run && self.state.failure.is_none() && self.state.cursor < self.plan.len() {
            Some(&self.plan[self.state.cursor])
        } else {
            None
        }
    }

    /// Records how the command that `next_command` handed out went. Where no
    /// command is waiting, nothing changes.
    pub fn record(&mut self, success: bool, stderr: String)
        ensures
            final(self).plan() == old(self).plan(),
            final(self).is_dry_run() == old(self).is_dry_run(),
            old(self).pending() ==> final(self).results() == old(self).results().push(
                StepResult { success, stderr: stderr@ },
            ),
            !old(self).pending() ==> final(self).results() == old(self).results(),
    {
        proof {
            use_type_invariant(&*self);
        }
        if self.dry_run || self.state.failure.is_some() || self.state.cursor >= self.plan.len() {
            return ;
        }
        let ghost before = self.state.log@;
        let ghost result = StepResult { success, stderr: stderr@ };
        proof {
            assert(before.push(result).drop_last() =~= before);
        }
        let cursor = self.state.cursor;
        let completed = self.state.completed;
        let log = Ghost(before.push(result));
        if success {
            self.state = RunState { cursor: cursor + 1, completed: completed + 1, failure: None, log };
        } else if self.plan[cursor].best_effort {
            self.state = RunState { cursor: cursor + 1, completed, failure: None, log };
        } else {
            self.state = RunState {
                cursor,
                completed,
                failure: Some(StepFailure { step: cursor, completed, stderr }),
                log,
            };
        }
    }

    /// The failure that stopped the plan, if one did.
    pub fn failure(&self) -> (f: Option<&StepFailure>)
        ensures
            f is Some <==> self.progress().failure is Some,
            f matches Some(x) ==> self.progress().failure == Some(x@),
    {
        proof {
            use_type_invariant(self);
        }
        self.state.failure.as_ref()
    }

    /// How many commands have taken effect.
    pub fn completed(&self) -> (n: usize)
        ensures
            n == self.progress().completed,
    {
        proof {
            use_type_invariant(self);
        }
        self.state.completed
    }

    /// Whether every command that was run took effect: none failed, be it
    /// best-effort or not.
    pub fn all_took_effect(&self) -> (r: bool)
        ensures
            r == (self.progress().completed == self.results().len()),
    {
        proof {
            use_type_invariant(self);
        }
        self.state.failure.is_none() && self.state.completed == self.state.cursor
    }

    /// The commands of the plan that is carried out.
    pub fn commands(&self) -> (list: &Vec<PlannedCommand>)
        ensures
            plan_view(list@) == self.plan(),
    {
        &self.plan
    }

    /// How many commands have been handed out and run. In a dry run it is
    /// none, and nothing has failed.
    pub fn executed(&self) -> (n: usize)
        ensures
            n == self.results().len(),
            n <= self.plan().len(),
            self.is_dry_run() ==> n == 0 && self.progress().failure is None,
    {
        proof {
            use_type_invariant(self);
        }
        if self.state.failure.is_some() {
            self.state.cursor + 1
        } else {
            self.state.cursor
        }
    }
}

/// What a command that was run left behind.
#[derive(Debug)]
pub struct ProcessOutput {
    /// Whether the command ended with exit code nought.
    pub success: bool,
    pub stdout: String,
    pub stderr: String,
}

/// What a finished command comes to: its output where it ended with exit
/// code nought, however little it printed, and else a failure that carries
/// its error text as it came.
pub fn command_result(output: ProcessOutput) -> (r: Result<String, NetMgrError>)
    ensures
        output.success ==> r == Ok::<String, NetMgrError>(output.stdout),
        !output.success ==> r == Err::<String, NetMgrError>(
            NetMgrError::CommandFailed(output.stderr),
        ),
{
    if output.success {
        Ok(output.stdout)
    } else {
        Err(NetMgrError::CommandFailed(output.stderr))
    }
}

/// What takes the place of a command in a dry run: success without output.
pub fn dry_run_result() -> (r: Result<String, NetMgrError>)
    ensures
        r matches Ok(text) && text@ == Seq::<char>::empty(),
{
    Ok(String::new())
}

/// A plan of which nothing has been run has no failure and no command that
/// took effect.
pub proof fn lemma_nothing_run(plan: Seq<CommandView>)
    ensures
        progress_after(plan, Seq::empty()) == (Progress { completed: 0, failure: None }),
{
}

/// A plan whose every command went through, or failed where failure is passed
/// over, has no failure at any point.
pub proof fn lemma_all_passed(plan: Seq<CommandView>, results: Seq<StepResult>)
    requires
        results.len() <= plan.len(),
        forall|i: int| 0 <= i < results.len() ==> (#[trigger] results[i]).success || plan[i].best_effort,
    ensures
        progress_after(plan, results).failure is None,
    decreases results.len(),
{
    if results.len() > 0 {
        let front = results.drop_last();
        assert forall|i: int| 0 <= i < front.len() implies (#[trigger] front[i]).success
            || plan[i].best_effort by {
            assert(results[i].success || plan[i].best_effort);
        }
        lemma_all_passed(plan, front);
        assert(results[results.len() - 1].success || plan[results.len() - 1].best_effort);
    }
}

/// The first command that fails without being best-effort stops the plan: the
/// failure names its place and carries its error text, and the commands
/// before it are not taken back.
pub proof fn lemma_first_failure(plan: Seq<CommandView>, results: Seq<StepResult>)
    requires
        0 < results.len() <= plan.len(),
        forall|i: int|
            0 <= i < results.len() - 1 ==> (#[trigger] results[i]).success || plan[i].best_effort,
        !results.last().success,
        !plan[results.len() - 1].best_effort,
    ensures
        progress_after(plan, results).failure matches Some(f) && f.step == results.len() - 1
            && f.stderr == results.last().stderr && f.completed == progress_after(
            plan,
            results.drop_last(),
        ).completed,
{
    let front = results.drop_last();
    assert forall|i: int| 0 <= i < front.len() implies (#[trigger] front[i]).success
        || plan[i].best_effort by {
        assert(results[i].success || plan[i].best_effort);
    }
    lemma_all_passed(plan, front);
}

} // verus!
