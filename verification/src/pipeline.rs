//! The course of one run: connect, enumerate, filter and serialize, write.
//!
//! The library decides the next step; the program around it does the step
//! and reports how it ended.

use crate::failure::FailureKind;
use vstd::prelude::*;

verus! {

/// Where a run stands.
#[derive(Clone, Copy, Debug, PartialEq, Eq, Structural)]
pub enum Stage {
    /// Nothing has happened yet.
    Disconnected,
    /// The bus session is open.
    Connected,
    /// The service has handed over its object graph.
    Enumerated,
    /// The graph is filtered and its JSON text is at hand.
    Serialized,
    /// The text is written. The run succeeded.
    Done,
    /// A step failed. The run is over.
    Failed(FailureKind),
}

/// How a step ended.
#[derive(Clone, Copy, Debug, PartialEq, Eq, Structural)]
pub enum Outcome {
    Succeeded,
    Failed,
}

/// What is to be done at a stage.
#[derive(Clone, Copy, Debug, PartialEq, Eq, Structural)]
pub enum Action {
    /// Open a session on the system bus.
    Connect,
    /// Ask the service for all of its managed objects, once.
    Enumerate,
    /// Filter the graph and serialize what is kept.
    Serialize,
    /// Write the text and a line end to standard output.
    Write,
    /// Leave with status zero.
    Succeed,
    /// Describe the failure on the error stream, write nothing to standard
    /// output, and leave with a status other than zero.
    Report(FailureKind),
}

impl Stage {
    /// Whether the run is over at this stage.
    pub open spec fn is_final(self) -> bool {
        self is Done || self is Failed
    }

    /// How far a stage is along the run. Both ends of a run are furthest.
    pub open spec fn rank(self) -> nat {
        match self {
            Stage::Disconnected => 0,
            Stage::Connected => 1,
            Stage::Enumerated => 2,
            Stage::Serialized => 3,
            Stage::Done => 4,
            Stage::Failed(_) => 4,
        }
    }

    /// What is to be done at this stage.
    pub open spec fn action(self) -> Action {
        match self {
            Stage::Disconnected => Action::Connect,
            Stage::Connected => Action::Enumerate,
            Stage::Enumerated => Action::Serialize,
            Stage::Serialized => Action::Write,
            Stage::Done => Action::Succeed,
            Stage::Failed(kind) => Action::Report(kind),
        }
    }

    /// The class of a failure of the step that is taken at this stage, for
    /// the three steps that can fail.
    pub open spec fn failure(self) -> Option<FailureKind> {
        match self {
            Stage::Disconnected => Some(FailureKind::Connection),
            Stage::Connected => Some(FailureKind::RemoteCall),
            Stage::Enumerated => Some(FailureKind::Serialization),
            _ => None,
        }
    }

    /// The stage after this one, once its step has ended with `outcome`.
    ///
    /// A step that fails ends the run with the failure of its stage. A step
    /// that succeeds leads to the next stage. Writing the line has no failure
    /// of its own, and a run that is over stays as it is.
    pub open spec fn after(self, outcome: Outcome) -> Stage {
        match self {
            Stage::Disconnected => match outcome {
                Outcome::Succeeded => Stage::Connected,
                Outcome::Failed => Stage::Failed(FailureKind::Connection),
            },
            Stage::Connected => match outcome {
                Outcome::Succeeded => Stage::Enumerated,
                Outcome::Failed => Stage::Failed(FailureKind::RemoteCall),
            },
            Stage::Enumerated => match outcome {
                Outcome::Succeeded => Stage::Serialized,
                Outcome::Failed => Stage::Failed(FailureKind::Serialization),
            },
            Stage::Serialized => Stage::Done,
            Stage::Done => Stage::Done,
            Stage::Failed(kind) => Stage::Failed(kind),
        }
    }

    /// The stage at which every run begins.
    pub fn start() -> (stage: Stage)
        ensures
            stage == Stage::Disconnected,
    {
        Stage::Disconnected
    }

    /// Whether the run is over at this stage.
    pub fn finished(&self) -> (over: bool)
        ensures
            over == self.is_final(),
    {
        match self {
            Stage::Done => true,
            Stage::Failed(_) => true,
            _ => false,
        }
    }

    /// What is to be done at this stage.
    pub fn next_action(&self) -> (action: Action)
        ensures
            action == self.action(),
    {
        match self {
            Stage::Disconnected => Action::Connect,
            Stage::Connected => Action::Enumerate,
            Stage::Enumerated => Action::Serialize,
            Stage::Serialized => Action::Write,
            Stage::Done => Action::Succeed,
            Stage::Failed(kind) => Action::Report(*kind),
        }
    }

    /// The stage after this one, once its step has ended with `outcome`.
    pub fn advance(&self, outcome: Outcome) -> (next: Stage)
        ensures
            next == self.after(outcome),
            self.is_final() ==> next == *self,
            !self.is_final() ==> next.rank() > self.rank(),
            outcome is Failed && self.failure() is Some ==> next == Stage::Failed(self.failure()->0),
    {
        match self {
            Stage::Disconnected => match outcome {
                Outcome::Succeeded => Stage::Connected,
                Outcome::Failed => Stage::Failed(FailureKind::Connection),
            },
            Stage::Connected => match outcome {
                Outcome::Succeeded => Stage::Enumerated,
                Outcome::Failed => Stage::Failed(FailureKind::RemoteCall),
            },
            Stage::Enumerated => match outcome {
                Outcome::Succeeded => Stage::Serialized,
                Outcome::Failed => Stage::Failed(FailureKind::Serialization),
            },
            Stage::Serialized => Stage::Done,
            Stage::Done => Stage::Done,
            Stage::Failed(kind) => Stage::Failed(*kind),
        }
    }

    /// The status with which the process leaves, once the run is over: zero
    /// after success, one after a failure.
    pub fn exit_status(&self) -> (status: Option<u8>)
        ensures
            *self is Done ==> status == Some(0u8),
            *self is Failed ==> status == Some(1u8),
            !self.is_final() ==> status is None,
    {
        match self {
            Stage::Done => Some(0),
            Stage::Failed(_) => Some(1),
            _ => None,
        }
    }
}

/// The stage that a run reaches from `stage` when its steps end with the
/// given outcomes, in order.
pub open spec fn run(stage: Stage, outcomes: Seq<Outcome>) -> Stage
    decreases outcomes.len(),
{
    if outcomes.len() == 0 {
        stage
    } else {
        run(stage.after(outcomes.first()), outcomes.drop_first())
    }
}

/// A run never goes back: whatever the outcomes, the stage reached is at
/// least as far along as the stage it set out from.
pub proof fn run_is_one_way(stage: Stage, outcomes: Seq<Outcome>)
    ensures
        run(stage, outcomes).rank() >= stage.rank(),
    decreases outcomes.len(),
{
    if outcomes.len() > 0 {
        run_is_one_way(stage.after(outcomes.first()), outcomes.drop_first());
    }
}

/// A run that is over stays over, in the same state.
pub proof fn run_stays_finished(stage: Stage, outcomes: Seq<Outcome>)
    requires
        stage.is_final(),
    ensures
        run(stage, outcomes) == stage,
    decreases outcomes.len(),
{
    if outcomes.len() > 0 {
        run_stays_finished(stage.after(outcomes.first()), outcomes.drop_first());
    }
}

/// Four steps end every run.
pub proof fn run_ends_within_four_steps(outcomes: Seq<Outcome>)
    requires
        outcomes.len() >= 4,
    ensures
        run(Stage::Disconnected, outcomes).is_final(),
{
    let first = Stage::Disconnected.after(outcomes[0]);
    let second = first.after(outcomes[1]);
    let third = second.after(outcomes[2]);
    let fourth = third.after(outcomes[3]);
    let rest = outcomes.skip(4);
    assert(outcomes.drop_first().drop_first().drop_first().drop_first() =~= rest);
    reveal_with_fuel(run, 5);
    run_stays_finished(fourth, rest);
}

/// The first step that fails decides how the run ends: if the steps before
/// position `at` succeed and the step at `at` fails, the run ends with the
/// failure of the stage that `at` steps of success lead to, whatever
/// follows. Only the first three steps can fail.
pub proof fn first_failure_decides(outcomes: Seq<Outcome>, at: int)
    requires
        0 <= at < 3,
        at < outcomes.len(),
        forall|i: int| 0 <= i < at ==> outcomes[i] is Succeeded,
        outcomes[at] is Failed,
    ensures
        at == 0 ==> run(Stage::Disconnected, outcomes) == Stage::Failed(FailureKind::Connection),
        at == 1 ==> run(Stage::Disconnected, outcomes) == Stage::Failed(FailureKind::RemoteCall),
        at == 2 ==> run(Stage::Disconnected, outcomes) == Stage::Failed(FailureKind::Serialization),
{
    reveal_with_fuel(run, 4);
    let second = outcomes.drop_first();
    let third = second.drop_first();
    if at == 0 {
        run_stays_finished(Stage::Failed(FailureKind::Connection), second);
    } else if at == 1 {
        assert(second[0] == outcomes[1]);
        run_stays_finished(Stage::Failed(FailureKind::RemoteCall), third);
    } else {
        assert(second[0] == outcomes[1]);
        assert(third[0] == outcomes[2]);
        run_stays_finished(Stage::Failed(FailureKind::Serialization), third.drop_first());
    }
}

} // verus!
