//! One step of the lifecycle advancer: read the published record of an
//! execution, decide by the transition table, write and publish.
//!
//! The advancer of an execution repeats `advance` with a pause of one tick
//! after each step that wrote, and stops at the first step that did not. Many
//! advancers share one writer; the order in which their steps reach it is a
//! schedule, a sequence of identifiers with one entry for each step.

use crate::state::{action_for, progress, record_after, record_after_step, Action, ExecutionState};
use crate::store::{lookup, StateWriter};
use vstd::prelude::*;

verus! {

/// The records after one step on `id`.
pub open spec fn step_records(records: Map<Seq<char>, ExecutionState>, id: Seq<char>) -> Map<
    Seq<char>,
    ExecutionState,
> {
    match action_for(lookup(records, id)) {
        Action::Write(next) => records.insert(id, next),
        Action::Terminate => records,
    }
}

/// The records after the steps of a schedule, taken in order.
pub open spec fn run_schedule(records: Map<Seq<char>, ExecutionState>, schedule: Seq<Seq<char>>) -> Map<
    Seq<char>,
    ExecutionState,
>
    decreases schedule.len(),
{
    if schedule.len() == 0 {
        records
    } else {
        step_records(run_schedule(records, schedule.drop_last()), schedule.last())
    }
}

/// How many steps of a schedule belong to `id`.
pub open spec fn steps_of(schedule: Seq<Seq<char>>, id: Seq<char>) -> nat
    decreases schedule.len(),
{
    if schedule.len() == 0 {
        0
    } else if schedule.last() == id {
        steps_of(schedule.drop_last(), id) + 1
    } else {
        steps_of(schedule.drop_last(), id)
    }
}

/// Performs one step for `id` and reports what it did.
///
/// The step reads the published record of `id`. Where the table asks for a
/// write, it replaces the record and publishes; the caller pauses for one tick
/// and calls again. Where the execution has succeeded, it changes nothing and
/// the caller stops. With nothing left unpublished before the step, the
/// published records move by exactly one `step_records`.
pub fn advance(writer: &mut StateWriter, id: &str) -> (action: Action)
    requires
        old(writer).wf(),
    ensures
        final(writer).wf(),
        action == action_for(lookup(old(writer).published(), id@)),
        final(writer).pending() == match action {
            Action::Write(next) => old(writer).pending().insert(id@, next),
            Action::Terminate => old(writer).pending(),
        },
        final(writer).published() == match action {
            Action::Write(next) => final(writer).pending(),
            Action::Terminate => old(writer).published(),
        },
        old(writer).pending() == old(writer).published() ==> {
            &&& final(writer).published() == step_records(old(writer).published(), id@)
            &&& final(writer).pending() == final(writer).published()
        },
{
    let current = writer.read(id);
    let action = crate::state::next_action(current);
    match action {
        Action::Write(next) => {
            writer.write(id, next);
            writer.publish();
        },
        Action::Terminate => {},
    }
    action
}

/// A step moves the record of its identifier by the transition table and in
/// no other way: afterwards there is a record, it has not gone back, it has
/// gone forward by one state at most, and a succeeded execution is left as it
/// is.
pub proof fn step_follows_table(records: Map<Seq<char>, ExecutionState>, id: Seq<char>)
    ensures
        lookup(step_records(records, id), id) == record_after_step(lookup(records, id)),
        lookup(step_records(records, id), id) is Some,
        progress(lookup(records, id)) <= progress(lookup(step_records(records, id), id))
            <= progress(lookup(records, id)) + 1,
        lookup(records, id) == Some(ExecutionState::Succeeded) ==> step_records(records, id)
            == records,
{
}

/// A step on one identifier leaves the record of every other identifier as it
/// was: no step creates, changes or removes a record that is not its own.
pub proof fn step_keeps_other_records(
    records: Map<Seq<char>, ExecutionState>,
    id: Seq<char>,
    other: Seq<char>,
)
    requires
        other != id,
    ensures
        lookup(step_records(records, id), other) == lookup(records, other),
{
}

/// Whatever the order in which the advancers take their steps, an execution
/// that started with no record has the record that the lifecycle gives for
/// the number of steps that were its own.
pub proof fn schedule_follows_lifecycle(
    records: Map<Seq<char>, ExecutionState>,
    schedule: Seq<Seq<char>>,
    id: Seq<char>,
)
    requires
        !records.dom().contains(id),
    ensures
        lookup(run_schedule(records, schedule), id) == record_after(steps_of(schedule, id)),
    decreases schedule.len(),
{
    if schedule.len() > 0 {
        let before = run_schedule(records, schedule.drop_last());
        schedule_follows_lifecycle(records, schedule.drop_last(), id);
        if schedule.last() == id {
            step_follows_table(before, id);
        } else {
            step_keeps_other_records(before, schedule.last(), id);
        }
    }
}

/// Whatever the records at the start and whatever the schedule, the record
/// of an identifier after the first `seen` steps has come no further than its
/// record after all of them: a reader that looks twice never sees an
/// execution go back.
pub proof fn schedule_never_regresses(
    records: Map<Seq<char>, ExecutionState>,
    schedule: Seq<Seq<char>>,
    seen: int,
    id: Seq<char>,
)
    requires
        0 <= seen <= schedule.len(),
    ensures
        progress(lookup(run_schedule(records, schedule.take(seen)), id)) <= progress(
            lookup(run_schedule(records, schedule), id),
        ),
    decreases schedule.len(),
{
    if seen == schedule.len() {
        assert(schedule.take(seen) =~= schedule);
    } else {
        let shorter = schedule.drop_last();
        assert(shorter.take(seen) =~= schedule.take(seen));
        schedule_never_regresses(records, shorter, seen, id);
        let before = run_schedule(records, shorter);
        if schedule.last() == id {
            step_follows_table(before, id);
        } else {
            step_keeps_other_records(before, schedule.last(), id);
        }
    }
}

} // verus!
