//! The lifecycle states of a query execution and the table that moves an
//! execution from one state to the next.

use aws_sdk_athena::types::QueryExecutionState;
use vstd::prelude::*;

verus! {

/// Where a query execution stands in its lifecycle.
#[derive(Clone, Copy, Debug, PartialEq, Eq, Structural)]
pub enum ExecutionState {
    /// Accepted and waiting to run.
    Queued,
    /// Being executed.
    Running,
    /// Finished; no further transition follows.
    Succeeded,
}

/// What one advancement step does with the record it found.
#[derive(Clone, Copy, Debug, PartialEq, Eq, Structural)]
pub enum Action {
    /// Replace the record with this state, then publish.
    Write(ExecutionState),
    /// The execution is complete: write nothing and stop.
    Terminate,
}

/// The transition table: the action that follows from the record that a step
/// read, `None` standing for "no record yet".
pub open spec fn action_for(current: Option<ExecutionState>) -> Action {
    match current {
        None => Action::Write(ExecutionState::Queued),
        Some(ExecutionState::Queued) => Action::Write(ExecutionState::Running),
        Some(ExecutionState::Running) => Action::Write(ExecutionState::Succeeded),
        Some(ExecutionState::Succeeded) => Action::Terminate,
    }
}

/// The record that is in place once a step that read `current` has finished.
pub open spec fn record_after_step(current: Option<ExecutionState>) -> Option<ExecutionState> {
    match action_for(current) {
        Action::Write(next) => Some(next),
        Action::Terminate => current,
    }
}

/// The record of an execution whose advancer has completed `steps` steps,
/// starting from no record at all.
pub open spec fn record_after(steps: nat) -> Option<ExecutionState>
    decreases steps,
{
    if steps == 0 {
        None
    } else {
        record_after_step(record_after((steps - 1) as nat))
    }
}

/// How far a record has come: nothing, then each state in turn.
pub open spec fn progress(record: Option<ExecutionState>) -> nat {
    match record {
        None => 0,
        Some(state) => state.rank() + 1,
    }
}

impl ExecutionState {
    /// Position of the state in the progression `Queued`, `Running`, `Succeeded`.
    pub open spec fn rank(self) -> nat {
        match self {
            ExecutionState::Queued => 0,
            ExecutionState::Running => 1,
            ExecutionState::Succeeded => 2,
        }
    }

    /// The name of the state in the protocol's status vocabulary.
    pub open spec fn name(self) -> Seq<char> {
        match self {
            ExecutionState::Queued => "QUEUED"@,
            ExecutionState::Running => "RUNNING"@,
            ExecutionState::Succeeded => "SUCCEEDED"@,
        }
    }

    /// The state that a protocol name stands for, if it is one of the three.
    pub open spec fn from_name(text: Seq<char>) -> Option<ExecutionState> {
        if text == "QUEUED"@ {
            Some(ExecutionState::Queued)
        } else if text == "RUNNING"@ {
            Some(ExecutionState::Running)
        } else if text == "SUCCEEDED"@ {
            Some(ExecutionState::Succeeded)
        } else {
            None
        }
    }

    /// Whether no transition leaves this state.
    pub fn is_terminal(self) -> (terminal: bool)
        ensures
            terminal == (self == ExecutionState::Succeeded),
            terminal == (action_for(Some(self)) == Action::Terminate),
    {
        match self {
            ExecutionState::Succeeded => true,
            _ => false,
        }
    }

    /// The protocol name of the state, as the service's own vocabulary spells it.
    pub fn to_name(self) -> (text: String)
        ensures
            text@ == self.name(),
    {
        vocabulary_name(self)
    }

    /// Reads a protocol name; any text outside the three names gives `None`.
    pub fn parse(text: &str) -> (state: Option<ExecutionState>)
        ensures
            state == ExecutionState::from_name(text@),
    {
        vocabulary_state(text)
    }
}

/// Calls `QueryExecutionState::as_str` of aws-sdk-athena on the variant of the
/// same name. Its source returns the upper-case literal of each known variant,
/// which is what `name` spells out.
#[verifier::external_body]
fn vocabulary_name(state: ExecutionState) -> (text: String)
    ensures
        text@ == state.name(),
{
    let outside = match state {
        ExecutionState::Queued => QueryExecutionState::Queued,
        ExecutionState::Running => QueryExecutionState::Running,
        ExecutionState::Succeeded => QueryExecutionState::Succeeded,
    };
    outside.as_str().to_string()
}

/// Calls `QueryExecutionState::from(&str)` of aws-sdk-athena. Its source maps
/// each upper-case literal to its variant, exactly, and every other text to the
/// unknown variant; the three states kept here come back as themselves and
/// every other variant as `None`.
#[verifier::external_body]
fn vocabulary_state(text: &str) -> (state: Option<ExecutionState>)
    ensures
        state == ExecutionState::from_name(text@),
{
    match QueryExecutionState::from(text) {
        QueryExecutionState::Queued => Some(ExecutionState::Queued),
        QueryExecutionState::Running => Some(ExecutionState::Running),
        QueryExecutionState::Succeeded => Some(ExecutionState::Succeeded),
        QueryExecutionState::Cancelled => None,
        QueryExecutionState::Failed => None,
        _ => None,
    }
}

/// Decides what an advancement step does, from the record it read.
pub fn next_action(current: Option<ExecutionState>) -> (action: Action)
    ensures
        action == action_for(current),
{
    match current {
        None => Action::Write(ExecutionState::Queued),
        Some(ExecutionState::Queued) => Action::Write(ExecutionState::Running),
        Some(ExecutionState::Running) => Action::Write(ExecutionState::Succeeded),
        Some(ExecutionState::Succeeded) => Action::Terminate,
    }
}

/// The lifecycle from no record on: queued after the first step, running
/// after the second, succeeded after the third and after every later one.
pub proof fn lifecycle_runs_to_success(steps: nat)
    ensures
        record_after(0) == None::<ExecutionState>,
        record_after(1) == Some(ExecutionState::Queued),
        record_after(2) == Some(ExecutionState::Running),
        steps >= 3 ==> record_after(steps) == Some(ExecutionState::Succeeded),
    decreases steps,
{
    reveal_with_fuel(record_after, 4);
    if steps > 3 {
        lifecycle_runs_to_success((steps - 1) as nat);
    }
}

/// A record never goes back: what is seen after more steps has come at least
/// as far as what was seen after fewer.
pub proof fn lifecycle_never_regresses(earlier: nat, later: nat)
    requires
        earlier <= later,
    ensures
        progress(record_after(earlier)) <= progress(record_after(later)),
    decreases later,
{
    if earlier < later {
        lifecycle_never_regresses(earlier, (later - 1) as nat);
    }
}

/// The three protocol names differ from one another.
pub proof fn names_are_distinct(a: ExecutionState, b: ExecutionState)
    ensures
        a.name() == b.name() <==> a == b,
{
    reveal_strlit("QUEUED");
    reveal_strlit("RUNNING");
    reveal_strlit("SUCCEEDED");
    if a != b {
        assert(a.name().len() != b.name().len());
    }
}

/// Reading back the name of a state gives that state, and a text that reads as
/// a state is that state's name.
pub proof fn name_round_trip(state: ExecutionState, text: Seq<char>)
    ensures
        ExecutionState::from_name(state.name()) == Some(state),
        ExecutionState::from_name(text) == Some(state) ==> text == state.name(),
{
    names_are_distinct(state, ExecutionState::Queued);
    names_are_distinct(state, ExecutionState::Running);
    names_are_distinct(state, ExecutionState::Succeeded);
}

} // verus!
