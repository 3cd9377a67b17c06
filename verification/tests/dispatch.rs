use athena_mock::advancer::advance;
use athena_mock::dispatch::{
    execution_reply, handle_request, invalid_input, missing_target, not_implemented,
    target_header_name, unknown_target, Operation, Reply,
};
use athena_mock::identifier::mint_identifier;
use athena_mock::state::ExecutionState;
use athena_mock::store::new_store;

const START: &str = "AmazonAthena.StartQueryExecution";
const GET: &str = "AmazonAthena.GetQueryExecution";
const RESULTS: &str = "AmazonAthena.GetQueryResults";

fn is_uuid_shaped(text: &str) -> bool {
    let bytes = text.as_bytes();
    bytes.len() == 36
        && bytes.iter().enumerate().all(|(i, b)| match i {
            8 | 13 | 18 | 23 => *b == b'-',
            _ => b.is_ascii_digit() || (b'a'..=b'f').contains(b),
        })
        && bytes[14] == b'4'
        && matches!(bytes[19], b'8' | b'9' | b'a' | b'b')
}

#[test]
fn operation_names_are_exact() {
    assert_eq!(Operation::StartQueryExecution.target_name(), START);
    assert_eq!(Operation::GetQueryExecution.target_name(), GET);
    assert_eq!(Operation::GetQueryResults.target_name(), RESULTS);
    assert_eq!(Operation::parse(START), Some(Operation::StartQueryExecution));
    assert_eq!(Operation::parse(GET), Some(Operation::GetQueryExecution));
    assert_eq!(Operation::parse(RESULTS), Some(Operation::GetQueryResults));
    assert_eq!(Operation::parse("amazonathena.startqueryexecution"), None);
    assert_eq!(Operation::parse("AmazonAthena.StartQueryExecution "), None);
    assert_eq!(Operation::parse("StartQueryExecution"), None);
    assert_eq!(Operation::parse(""), None);
    assert_eq!(target_header_name(), "X-Amz-Target");
}

#[test]
fn start_returns_a_uuid_shaped_identifier() {
    let (reader, _writer) = new_store();
    let reply = handle_request(Some(START), None, &reader);
    assert_eq!(reply.status(), 200);
    match reply {
        Reply::Started { query_execution_id } => {
            assert_eq!(query_execution_id.len(), 36);
            assert!(is_uuid_shaped(&query_execution_id));
            assert!(uuid::Uuid::parse_str(&query_execution_id).is_ok());
        }
        other => panic!("unexpected reply: {:?}", other),
    }
}

#[test]
fn start_ignores_the_input() {
    let (reader, _writer) = new_store();
    let reply = handle_request(Some(START), Some("ignored"), &reader);
    assert_eq!(reply.status(), 200);
    assert!(matches!(reply, Reply::Started { .. }));
}

#[test]
fn start_does_not_wait_for_any_state() {
    let (reader, _writer) = new_store();
    let reply = handle_request(Some(START), None, &reader);
    let id = match reply {
        Reply::Started { query_execution_id } => query_execution_id,
        other => panic!("unexpected reply: {:?}", other),
    };
    assert_eq!(reader.read(&id), None);
}

#[test]
fn status_right_after_the_first_step_is_queued() {
    let (reader, mut writer) = new_store();
    let id = match handle_request(Some(START), None, &reader) {
        Reply::Started { query_execution_id } => query_execution_id,
        other => panic!("unexpected reply: {:?}", other),
    };
    advance(&mut writer, &id);
    let reply = handle_request(Some(GET), Some(&id), &reader);
    assert_eq!(reply.status(), 200);
    assert_eq!(
        reply,
        Reply::Execution {
            query_execution_id: id.clone(),
            state: ExecutionState::Queued
        }
    );
}

#[test]
fn status_after_two_ticks_is_succeeded() {
    let (reader, mut writer) = new_store();
    let id = match handle_request(Some(START), None, &reader) {
        Reply::Started { query_execution_id } => query_execution_id,
        other => panic!("unexpected reply: {:?}", other),
    };
    advance(&mut writer, &id);
    advance(&mut writer, &id);
    assert_eq!(
        handle_request(Some(GET), Some(&id), &reader),
        Reply::Execution {
            query_execution_id: id.clone(),
            state: ExecutionState::Running
        }
    );
    advance(&mut writer, &id);
    let reply = handle_request(Some(GET), Some(&id), &reader);
    assert_eq!(reply.status(), 200);
    assert_eq!(
        reply,
        Reply::Execution {
            query_execution_id: id.clone(),
            state: ExecutionState::Succeeded
        }
    );
}

#[test]
fn status_of_an_unused_identifier_is_not_found() {
    let (reader, mut writer) = new_store();
    let known = mint_identifier();
    advance(&mut writer, &known);
    let unused = mint_identifier();
    let reply = handle_request(Some(GET), Some(&unused), &reader);
    assert_eq!(reply.status(), 400);
    assert_eq!(
        reply,
        Reply::NotFound {
            message: format!("query execution not found: {}", unused)
        }
    );
}

#[test]
fn status_without_an_identifier_is_invalid_input() {
    let (reader, _writer) = new_store();
    let reply = handle_request(Some(GET), None, &reader);
    assert_eq!(reply.status(), 400);
    assert_eq!(
        reply,
        Reply::InvalidInput {
            message: "unexpected input".to_string()
        }
    );
}

#[test]
fn a_request_without_target_is_rejected_first() {
    let (reader, _writer) = new_store();
    for input in [None, Some("3f2c1c1e-0d6b-4d0a-9a53-2f0c8d1e7b11")] {
        let reply = handle_request(None, input, &reader);
        assert_eq!(reply.status(), 400);
        match reply {
            Reply::ProtocolError { message } => {
                assert_eq!(message, "'X-Amz-Target' not found");
                assert!(message.contains("X-Amz-Target"));
            }
            other => panic!("unexpected reply: {:?}", other),
        }
    }
}

#[test]
fn get_query_results_is_not_implemented() {
    let (reader, _writer) = new_store();
    let reply = handle_request(Some(RESULTS), None, &reader);
    assert_eq!(reply.status(), 501);
    assert_eq!(
        reply,
        Reply::NotImplemented {
            message: "not implemented yet: \"AmazonAthena.GetQueryResults\"".to_string()
        }
    );
    let with_input = handle_request(Some(RESULTS), Some("x"), &reader);
    assert_eq!(with_input.status(), 501);
}

#[test]
fn an_unknown_target_is_named_in_the_reply() {
    let (reader, _writer) = new_store();
    let reply = handle_request(Some("AmazonAthena.StopQueryExecution"), Some("x"), &reader);
    assert_eq!(reply.status(), 400);
    assert_eq!(
        reply,
        Reply::ProtocolError {
            message: "unexpected target: \"AmazonAthena.StopQueryExecution\"".to_string()
        }
    );
    let lower = handle_request(Some("amazonathena.getqueryexecution"), Some("x"), &reader);
    assert!(matches!(lower, Reply::ProtocolError { .. }));
}

#[test]
fn reply_builders_give_the_stated_replies() {
    assert_eq!(
        missing_target(),
        Reply::ProtocolError {
            message: "'X-Amz-Target' not found".to_string()
        }
    );
    assert_eq!(
        unknown_target("x"),
        Reply::ProtocolError {
            message: "unexpected target: \"x\"".to_string()
        }
    );
    assert_eq!(
        not_implemented("y"),
        Reply::NotImplemented {
            message: "not implemented yet: \"y\"".to_string()
        }
    );
    assert_eq!(
        invalid_input(),
        Reply::InvalidInput {
            message: "unexpected input".to_string()
        }
    );
    assert_eq!(
        execution_reply("id", Some(ExecutionState::Running)),
        Reply::Execution {
            query_execution_id: "id".to_string(),
            state: ExecutionState::Running
        }
    );
    assert_eq!(
        execution_reply("id", None),
        Reply::NotFound {
            message: "query execution not found: id".to_string()
        }
    );
}

#[test]
fn every_reply_has_its_status() {
    assert_eq!(
        Reply::Started {
            query_execution_id: String::new()
        }
        .status(),
        200
    );
    assert_eq!(execution_reply("id", Some(ExecutionState::Queued)).status(), 200);
    assert_eq!(execution_reply("id", None).status(), 400);
    assert_eq!(invalid_input().status(), 400);
    assert_eq!(missing_target().status(), 400);
    assert_eq!(unknown_target("x").status(), 400);
    assert_eq!(not_implemented("x").status(), 501);
}

#[test]
fn minted_identifiers_are_pairwise_distinct() {
    let mut seen = std::collections::HashSet::new();
    for _ in 0..10_000 {
        let id = mint_identifier();
        assert!(is_uuid_shaped(&id));
        assert!(seen.insert(id));
    }
}

#[test]
fn started_identifiers_are_pairwise_distinct() {
    let (reader, _writer) = new_store();
    let mut seen = std::collections::HashSet::new();
    for _ in 0..1_000 {
        match handle_request(Some(START), None, &reader) {
            Reply::Started { query_execution_id } => assert!(seen.insert(query_execution_id)),
            other => panic!("unexpected reply: {:?}", other),
        }
    }
}
