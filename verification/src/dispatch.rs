//! The operation dispatcher: from the target header and the typed input of a
//! request to the reply that the service gives.
//!
//! The header is looked at first. Only `GetQueryExecution` looks at the input,
//! only it reads the store, and only `StartQueryExecution` mints an
//! identifier; an unrecognized target touches neither.

use crate::advancer::{run_schedule, schedule_follows_lifecycle, steps_of};
use crate::identifier::{is_identifier, mint_identifier};
use crate::state::{lifecycle_runs_to_success, ExecutionState};
use crate::store::{lookup, StateReader};
use crate::text::same_text;
use vstd::prelude::*;
use vstd::string::StringExecFns;

verus! {

/// The operations that a target header can name.
#[derive(Clone, Copy, Debug, PartialEq, Eq, Structural)]
pub enum Operation {
    /// Start an execution and return its identifier.
    StartQueryExecution,
    /// Report the state of an execution.
    GetQueryExecution,
    /// Fetch results; reserved and not implemented.
    GetQueryResults,
}

/// The reply to a request.
#[derive(Clone, Debug, PartialEq, Eq)]
pub enum Reply {
    /// An execution was started under this identifier; its advancer is to be
    /// spawned.
    Started { query_execution_id: String },
    /// The published state of an execution.
    Execution { query_execution_id: String, state: ExecutionState },
    /// The target header is missing or names no operation.
    ProtocolError { message: String },
    /// The operation needs an input that the request did not carry.
    InvalidInput { message: String },
    /// The store has no record of the identifier.
    NotFound { message: String },
    /// The operation is reserved and not implemented.
    NotImplemented { message: String },
}

/// A reply as plain values.
pub enum ReplyView {
    Started { query_execution_id: Seq<char> },
    Execution { query_execution_id: Seq<char>, state: ExecutionState },
    ProtocolError { message: Seq<char> },
    InvalidInput { message: Seq<char> },
    NotFound { message: Seq<char> },
    NotImplemented { message: Seq<char> },
}

impl View for Reply {
    type V = ReplyView;

    open spec fn view(&self) -> ReplyView {
        match self {
            Reply::Started { query_execution_id } => ReplyView::Started {
                query_execution_id: query_execution_id@,
            },
            Reply::Execution { query_execution_id, state } => ReplyView::Execution {
                query_execution_id: query_execution_id@,
                state: *state,
            },
            Reply::ProtocolError { message } => ReplyView::ProtocolError { message: message@ },
            Reply::InvalidInput { message } => ReplyView::InvalidInput { message: message@ },
            Reply::NotFound { message } => ReplyView::NotFound { message: message@ },
            Reply::NotImplemented { message } => ReplyView::NotImplemented { message: message@ },
        }
    }
}

/// The name of the header that carries the operation.
pub open spec fn target_header() -> Seq<char> {
    "X-Amz-Target"@
}

/// The HTTP status that goes with a reply.
pub open spec fn status_of(reply: ReplyView) -> int {
    match reply {
        ReplyView::Started { .. } => 200,
        ReplyView::Execution { .. } => 200,
        ReplyView::ProtocolError { .. } => 400,
        ReplyView::InvalidInput { .. } => 400,
        ReplyView::NotFound { .. } => 400,
        ReplyView::NotImplemented { .. } => 501,
    }
}

/// The reply to a request without a target header.
pub open spec fn missing_target_reply() -> ReplyView {
    ReplyView::ProtocolError { message: "'"@ + target_header() + "' not found"@ }
}

/// The reply to a target that names no operation.
pub open spec fn unknown_target_reply(target: Seq<char>) -> ReplyView {
    ReplyView::ProtocolError { message: "unexpected target: \""@ + target + "\""@ }
}

/// The reply to the reserved operation.
pub open spec fn not_implemented_reply(target: Seq<char>) -> ReplyView {
    ReplyView::NotImplemented { message: "not implemented yet: \""@ + target + "\""@ }
}

/// The reply to `GetQueryExecution` without an identifier.
pub open spec fn invalid_input_reply() -> ReplyView {
    ReplyView::InvalidInput { message: "unexpected input"@ }
}

/// The reply to `GetQueryExecution` for `id`, given the record that was read.
pub open spec fn execution_reply_for(id: Seq<char>, record: Option<ExecutionState>) -> ReplyView {
    match record {
        Some(state) => ReplyView::Execution { query_execution_id: id, state },
        None => ReplyView::NotFound { message: "query execution not found: "@ + id },
    }
}

impl Operation {
    /// The exact, case-sensitive header value that names the operation.
    pub open spec fn target(self) -> Seq<char> {
        match self {
            Operation::StartQueryExecution => "AmazonAthena.StartQueryExecution"@,
            Operation::GetQueryExecution => "AmazonAthena.GetQueryExecution"@,
            Operation::GetQueryResults => "AmazonAthena.GetQueryResults"@,
        }
    }

    /// The operation that a header value names, if any.
    pub open spec fn from_target(target: Seq<char>) -> Option<Operation> {
        if target == Operation::StartQueryExecution.target() {
            Some(Operation::StartQueryExecution)
        } else if target == Operation::GetQueryExecution.target() {
            Some(Operation::GetQueryExecution)
        } else if target == Operation::GetQueryResults.target() {
            Some(Operation::GetQueryResults)
        } else {
            None
        }
    }

    /// The header value that names the operation.
    pub fn target_name(self) -> (name: &'static str)
        ensures
            name@ == self.target(),
    {
        match self {
            Operation::StartQueryExecution => "AmazonAthena.StartQueryExecution",
            Operation::GetQueryExecution => "AmazonAthena.GetQueryExecution",
            Operation::GetQueryResults => "AmazonAthena.GetQueryResults",
        }
    }

    /// Reads a header value: an exact match names an operation, anything else
    /// names none.
    pub fn parse(target: &str) -> (operation: Option<Operation>)
        ensures
            operation == Operation::from_target(target@),
    {
        if same_text(target, Operation::StartQueryExecution.target_name()) {
            Some(Operation::StartQueryExecution)
        } else if same_text(target, Operation::GetQueryExecution.target_name()) {
            Some(Operation::GetQueryExecution)
        } else if same_text(target, Operation::GetQueryResults.target_name()) {
            Some(Operation::GetQueryResults)
        } else {
            None
        }
    }
}

/// The name of the header that carries the operation.
pub fn target_header_name() -> (name: &'static str)
    ensures
        name@ == target_header(),
{
    "X-Amz-Target"
}

impl Reply {
    /// The HTTP status that goes with the reply.
    pub fn status(&self) -> (code: u16)
        ensures
            code == status_of(self@),
    {
        match self {
            Reply::Started { .. } => 200,
            Reply::Execution { .. } => 200,
            Reply::ProtocolError { .. } => 400,
            Reply::InvalidInput { .. } => 400,
            Reply::NotFound { .. } => 400,
            Reply::NotImplemented { .. } => 501,
        }
    }
}

/// The reply to a request without a target header.
pub fn missing_target() -> (reply: Reply)
    ensures
        reply@ == missing_target_reply(),
{
    let message = String::from_str("'").concat(target_header_name()).concat("' not found");
    Reply::ProtocolError { message }
}

/// The reply to a target that names no operation.
pub fn unknown_target(target: &str) -> (reply: Reply)
    ensures
        reply@ == unknown_target_reply(target@),
{
    let message = String::from_str("unexpected target: \"").concat(target).concat("\"");
    Reply::ProtocolError { message }
}

/// The reply to the reserved operation.
pub fn not_implemented(target: &str) -> (reply: Reply)
    ensures
        reply@ == not_implemented_reply(target@),
{
    let message = String::from_str("not implemented yet: \"").concat(target).concat("\"");
    Reply::NotImplemented { message }
}

/// The reply to `GetQueryExecution` without an identifier.
pub fn invalid_input() -> (reply: Reply)
    ensures
        reply@ == invalid_input_reply(),
{
    Reply::InvalidInput { message: String::from_str("unexpected input") }
}

/// The reply to `GetQueryExecution` for `id`, given the record that was read:
/// the state where there is a record, and a not-found error, never a state of
/// its own choosing, where there is none.
pub fn execution_reply(id: &str, record: Option<ExecutionState>) -> (reply: Reply)
    ensures
        reply@ == execution_reply_for(id@, record),
{
    match record {
        Some(state) => Reply::Execution { query_execution_id: String::from_str(id), state },
        None => Reply::NotFound {
            message: String::from_str("query execution not found: ").concat(id),
        },
    }
}

/// Answers one request.
///
/// `target` is the value of the target header, if the request has one, and
/// `input` the identifier that its body carries, if it carries one. A start
/// mints the identifier at random, and a status request reads what the writer
/// of the store has published by then, so for these two the reply is stated as
/// far as the request alone decides it.
pub fn handle_request(target: Option<&str>, input: Option<&str>, reader: &StateReader) -> (reply:
    Reply)
    ensures
        match target {
            None => reply@ == missing_target_reply(),
            Some(name) => match Operation::from_target(name@) {
                None => reply@ == unknown_target_reply(name@),
                Some(Operation::GetQueryResults) => reply@ == not_implemented_reply(name@),
                Some(Operation::StartQueryExecution) => {
                    &&& reply@ is Started
                    &&& is_identifier(reply@->Started_query_execution_id)
                },
                Some(Operation::GetQueryExecution) => match input {
                    None => reply@ == invalid_input_reply(),
                    Some(id) => exists|record: Option<ExecutionState>|
                        reply@ == #[trigger] execution_reply_for(id@, record),
                },
            },
        },
{
    let name = match target {
        Some(name) => name,
        None => {
            return missing_target();
        },
    };
    match Operation::parse(name) {
        Some(Operation::StartQueryExecution) => Reply::Started {
            query_execution_id: mint_identifier(),
        },
        Some(Operation::GetQueryExecution) => match input {
            Some(id) => execution_reply(id, reader.read(id)),
            None => invalid_input(),
        },
        Some(Operation::GetQueryResults) => not_implemented(name),
        None => unknown_target(name),
    }
}

/// Each operation is named by its own header value and by no other text.
pub proof fn target_round_trip(operation: Operation, target: Seq<char>)
    ensures
        Operation::from_target(operation.target()) == Some(operation),
        Operation::from_target(target) == Some(operation) ==> target == operation.target(),
{
    reveal_strlit("AmazonAthena.StartQueryExecution");
    reveal_strlit("AmazonAthena.GetQueryExecution");
    reveal_strlit("AmazonAthena.GetQueryResults");
    assert(Operation::StartQueryExecution.target().len() == 32);
    assert(Operation::GetQueryExecution.target().len() == 30);
    assert(Operation::GetQueryResults.target().len() == 28);
}

/// The reply to a request without a target header spells out the name of
/// the header that is missing.
pub proof fn missing_target_names_the_header()
    ensures
        missing_target_reply() matches ReplyView::ProtocolError { message }
            && message.subrange(1, 1 + target_header().len() as int) == target_header(),
{
    reveal_strlit("'");
    reveal_strlit("X-Amz-Target");
    reveal_strlit("' not found");
    let message = "'"@ + target_header() + "' not found"@;
    assert(message.subrange(1, 1 + target_header().len() as int) =~= target_header());
}

/// A status request for an identifier that had no record at the start and
/// for which no advancer ever took a step is answered with not-found, never
/// with a state, whatever steps were taken for other identifiers.
pub proof fn unstarted_identifier_is_not_found(
    records: Map<Seq<char>, ExecutionState>,
    schedule: Seq<Seq<char>>,
    id: Seq<char>,
)
    requires
        !records.dom().contains(id),
        steps_of(schedule, id) == 0,
    ensures
        execution_reply_for(id, lookup(run_schedule(records, schedule), id)) is NotFound,
        status_of(execution_reply_for(id, lookup(run_schedule(records, schedule), id))) == 400,
{
    schedule_follows_lifecycle(records, schedule, id);
}

/// A status request for an identifier that had no record at the start is
/// answered by the number of steps that its advancer has taken, in whatever
/// order the advancers ran: queued after the first step, running after the
/// second, succeeded after the third and ever after.
pub proof fn status_follows_lifecycle(
    records: Map<Seq<char>, ExecutionState>,
    schedule: Seq<Seq<char>>,
    id: Seq<char>,
)
    requires
        !records.dom().contains(id),
        steps_of(schedule, id) >= 1,
    ensures
        execution_reply_for(id, lookup(run_schedule(records, schedule), id))
            == (ReplyView::Execution {
            query_execution_id: id,
            state: if steps_of(schedule, id) == 1 {
                ExecutionState::Queued
            } else if steps_of(schedule, id) == 2 {
                ExecutionState::Running
            } else {
                ExecutionState::Succeeded
            },
        }),
{
    schedule_follows_lifecycle(records, schedule, id);
    lifecycle_runs_to_success(steps_of(schedule, id));
}

} // verus!
