use athena_mock::advancer::advance;
use athena_mock::state::{next_action, Action, ExecutionState};
use athena_mock::store::new_store;

#[test]
fn state_names_are_the_protocol_vocabulary() {
    assert_eq!(ExecutionState::Queued.to_name(), "QUEUED");
    assert_eq!(ExecutionState::Running.to_name(), "RUNNING");
    assert_eq!(ExecutionState::Succeeded.to_name(), "SUCCEEDED");
}

#[test]
fn parse_reads_the_three_names_only() {
    assert_eq!(ExecutionState::parse("QUEUED"), Some(ExecutionState::Queued));
    assert_eq!(ExecutionState::parse("RUNNING"), Some(ExecutionState::Running));
    assert_eq!(ExecutionState::parse("SUCCEEDED"), Some(ExecutionState::Succeeded));
    assert_eq!(ExecutionState::parse("FAILED"), None);
    assert_eq!(ExecutionState::parse("CANCELLED"), None);
    assert_eq!(ExecutionState::parse("queued"), None);
    assert_eq!(ExecutionState::parse(""), None);
    assert_eq!(ExecutionState::parse("QUEUED "), None);
}

#[test]
fn parse_undoes_to_name() {
    for state in [
        ExecutionState::Queued,
        ExecutionState::Running,
        ExecutionState::Succeeded,
    ] {
        assert_eq!(ExecutionState::parse(&state.to_name()), Some(state));
    }
}

#[test]
fn only_succeeded_is_terminal() {
    assert!(!ExecutionState::Queued.is_terminal());
    assert!(!ExecutionState::Running.is_terminal());
    assert!(ExecutionState::Succeeded.is_terminal());
}

#[test]
fn next_action_follows_the_table() {
    assert_eq!(next_action(None), Action::Write(ExecutionState::Queued));
    assert_eq!(
        next_action(Some(ExecutionState::Queued)),
        Action::Write(ExecutionState::Running)
    );
    assert_eq!(
        next_action(Some(ExecutionState::Running)),
        Action::Write(ExecutionState::Succeeded)
    );
    assert_eq!(next_action(Some(ExecutionState::Succeeded)), Action::Terminate);
}

#[test]
fn advance_walks_the_whole_lifecycle() {
    let (reader, mut writer) = new_store();
    let id = "3f2c1c1e-0d6b-4d0a-9a53-2f0c8d1e7b11";
    assert_eq!(reader.read(id), None);

    assert_eq!(advance(&mut writer, id), Action::Write(ExecutionState::Queued));
    assert_eq!(reader.read(id), Some(ExecutionState::Queued));

    assert_eq!(advance(&mut writer, id), Action::Write(ExecutionState::Running));
    assert_eq!(reader.read(id), Some(ExecutionState::Running));

    assert_eq!(advance(&mut writer, id), Action::Write(ExecutionState::Succeeded));
    assert_eq!(reader.read(id), Some(ExecutionState::Succeeded));

    assert_eq!(advance(&mut writer, id), Action::Terminate);
    assert_eq!(reader.read(id), Some(ExecutionState::Succeeded));
}

#[test]
fn succeeded_stays_succeeded() {
    let (reader, mut writer) = new_store();
    let id = "done";
    for _ in 0..3 {
        advance(&mut writer, id);
    }
    for _ in 0..10 {
        assert_eq!(advance(&mut writer, id), Action::Terminate);
        assert_eq!(reader.read(id), Some(ExecutionState::Succeeded));
        assert_eq!(writer.read(id), Some(ExecutionState::Succeeded));
    }
}

#[test]
fn advance_touches_no_other_identifier() {
    let (reader, mut writer) = new_store();
    advance(&mut writer, "first");
    advance(&mut writer, "first");
    assert_eq!(reader.read("second"), None);

    advance(&mut writer, "second");
    assert_eq!(reader.read("first"), Some(ExecutionState::Running));
    assert_eq!(reader.read("second"), Some(ExecutionState::Queued));

    advance(&mut writer, "first");
    advance(&mut writer, "first");
    assert_eq!(reader.read("first"), Some(ExecutionState::Succeeded));
    assert_eq!(reader.read("second"), Some(ExecutionState::Queued));
}

#[test]
fn observed_states_never_go_back() {
    fn progress(record: Option<ExecutionState>) -> u8 {
        match record {
            None => 0,
            Some(ExecutionState::Queued) => 1,
            Some(ExecutionState::Running) => 2,
            Some(ExecutionState::Succeeded) => 3,
        }
    }
    let (reader, mut writer) = new_store();
    let id = "monotone";
    let mut last = progress(reader.read(id));
    for _ in 0..8 {
        advance(&mut writer, id);
        let now = progress(reader.read(id));
        assert!(now >= last);
        assert!(now <= last + 1);
        last = now;
    }
    assert_eq!(last, 3);
}
