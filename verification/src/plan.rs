//! The steps a command is planned into, and how a run of those steps goes on or stops.

use vstd::prelude::*;

use crate::text::string_views;

verus! {

/// The external program an `Exec` step starts.
#[derive(Debug, Clone, Copy, PartialEq, Eq, Structural)]
pub enum Program {
    Ssh,
    Scp,
}

/// One thing to do on the local machine.
#[derive(Debug)]
pub enum Action {
    /// Print a line on standard output.
    Print(String),
    /// Create the parent directory of a local path, unless the path has none.
    EnsureParentDir(String),
    /// Run `go build -o <artifact> <source>` with `GOOS=linux GOARCH=amd64`.
    GoBuild { source: String, artifact: String },
    /// Run a program with these arguments; it fails unless it exits with success.
    Exec { program: Program, args: Vec<String> },
    /// Fail unless this local file exists.
    RequireLocalFile(String),
}

/// An action with its strings taken as character sequences.
pub enum ActionModel {
    Print(Seq<char>),
    EnsureParentDir(Seq<char>),
    GoBuild { source: Seq<char>, artifact: Seq<char> },
    Exec { program: Program, args: Seq<Seq<char>> },
    RequireLocalFile(Seq<char>),
}

impl View for Action {
    type V = ActionModel;

    open spec fn view(&self) -> ActionModel {
        match self {
            Action::Print(s) => ActionModel::Print(s@),
            Action::EnsureParentDir(s) => ActionModel::EnsureParentDir(s@),
            Action::GoBuild { source, artifact } => ActionModel::GoBuild {
                source: source@,
                artifact: artifact@,
            },
            Action::Exec { program, args } => ActionModel::Exec {
                program: *program,
                args: string_views(args@),
            },
            Action::RequireLocalFile(s) => ActionModel::RequireLocalFile(s@),
        }
    }
}

/// An action, and whether the run goes on when it fails (its failure is then reported
/// once the remaining steps have run).
#[derive(Debug)]
pub struct Step {
    pub action: Action,
    pub keep_going: bool,
}

pub struct StepModel {
    pub action: ActionModel,
    pub keep_going: bool,
}

impl View for Step {
    type V = StepModel;

    open spec fn view(&self) -> StepModel {
        StepModel { action: self.action@, keep_going: self.keep_going }
    }
}

/// The models of a sequence of steps.
pub open spec fn steps_view(steps: Seq<Step>) -> Seq<StepModel> {
    steps.map_values(|s: Step| s@)
}

/// A step whose failure stops the run.
pub open spec fn stop_on_failure(action: ActionModel) -> StepModel {
    StepModel { action, keep_going: false }
}

/// A step whose failure is reported after the remaining steps.
pub open spec fn keep_going_on_failure(action: ActionModel) -> StepModel {
    StepModel { action, keep_going: true }
}

pub fn step(action: Action) -> (res: Step)
    ensures
        res@ == stop_on_failure(action@),
{
    Step { action, keep_going: false }
}

pub fn print(line: String) -> (res: Step)
    ensures
        res@ == stop_on_failure(ActionModel::Print(line@)),
{
    Step { action: Action::Print(line), keep_going: false }
}

/// Where a run of a plan stands.
#[derive(Debug, Clone, Copy, PartialEq, Eq, Structural)]
pub enum RunState {
    /// Step `next` is the one to run; `deferred` is the first keep-going step that failed.
    Running { next: usize, deferred: Option<usize> },
    /// The run is over; `failed` is the step whose error is the run's result, if any.
    Finished { failed: Option<usize> },
}

/// Where a run of `total` steps starts.
pub open spec fn spec_run_start(total: nat) -> RunState {
    if total == 0 {
        RunState::Finished { failed: None }
    } else {
        RunState::Running { next: 0, deferred: None }
    }
}

/// Where a run goes after the step it stands at ran, out of `total` steps.
pub open spec fn spec_run_after(state: RunState, total: nat, keep_going: bool, succeeded: bool) -> RunState {
    match state {
        RunState::Running { next, deferred } => {
            if !succeeded && !keep_going {
                RunState::Finished {
                    failed: if deferred is Some { deferred } else { Some(next) },
                }
            } else {
                let kept = if !succeeded && deferred is None { Some(next) } else { deferred };
                if next + 1 >= total {
                    RunState::Finished { failed: kept }
                } else {
                    RunState::Running { next: (next + 1) as usize, deferred: kept }
                }
            }
        },
        RunState::Finished { failed } => state,
    }
}

/// The step indices that `state` names all lie in a plan of `total` steps: the step to run
/// next, and any step recorded as failed (a recorded failure always comes before `next`).
pub open spec fn run_state_in_bounds(state: RunState, total: nat) -> bool {
    match state {
        RunState::Running { next, deferred } => next < total && (deferred matches Some(d) ==> d
            < next),
        RunState::Finished { failed } => failed matches Some(f) ==> f < total,
    }
}

/// A run starts at a step of the plan, or is over at once for an empty plan.
pub proof fn lemma_run_starts_in_bounds(total: usize)
    ensures
        run_state_in_bounds(spec_run_start(total as nat), total as nat),
{
}

/// Whatever the step at hand did, the state after it still names only steps of the plan, so
/// every state reached from the start can index the plan.
pub proof fn lemma_run_stays_in_bounds(state: RunState, total: usize, keep_going: bool, succeeded: bool)
    requires
        run_state_in_bounds(state, total as nat),
    ensures
        run_state_in_bounds(spec_run_after(state, total as nat, keep_going, succeeded), total as nat),
{
}

impl RunState {
    pub fn start(total: usize) -> (res: RunState)
        ensures
            res == spec_run_start(total as nat),
    {
        if total == 0 {
            RunState::Finished { failed: None }
        } else {
            RunState::Running { next: 0, deferred: None }
        }
    }

    /// The state after the current step ran, given whether it succeeded.
    pub fn after(self, total: usize, keep_going: bool, succeeded: bool) -> (res: RunState)
        ensures
            res == spec_run_after(self, total as nat, keep_going, succeeded),
    {
        match self {
            RunState::Running { next, deferred } => {
                if !succeeded && !keep_going {
                    let failed = match deferred {
                        Some(d) => Some(d),
                        None => Some(next),
                    };
                    RunState::Finished { failed }
                } else {
                    let kept = if !succeeded && deferred.is_none() {
                        Some(next)
                    } else {
                        deferred
                    };
                    if next >= total || total - next <= 1 {
                        RunState::Finished { failed: kept }
                    } else {
                        RunState::Running { next: next + 1, deferred: kept }
                    }
                }
            },
            RunState::Finished { failed } => self,
        }
    }
}

} // verus!
