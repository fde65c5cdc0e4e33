use fabseal_worker::store::submission_group_name;
use fabseal_worker::store::submission_queue_name;
use fabseal_worker::store::DeliveredEntry;
use fabseal_worker::store::StoreReply;
use fabseal_worker::worker::consumer_name;
use fabseal_worker::worker::entries_to_dispatch;
use fabseal_worker::worker::interpret_ack_reply;
use fabseal_worker::worker::interpret_deregister_reply;
use fabseal_worker::worker::AckOutcome;
use fabseal_worker::worker::DeregisterOutcome;
use fabseal_worker::worker::ReadOutcome;
use fabseal_worker::worker::ReadParameters;

#[test]
fn queue_and_group_names_are_fixed() {
    assert_eq!(submission_queue_name(), "fs_submission");
    assert_eq!(submission_group_name(), "fs_submission_group");
}

#[test]
fn consumer_names_carry_the_prefix_and_a_hex_suffix() {
    let name = consumer_name();
    assert_eq!(name.len(), "fs_consumer_".len() + 8);
    assert!(name.starts_with("fs_consumer_"));
    let suffix = &name["fs_consumer_".len()..];
    assert!(suffix.chars().all(|c| c.is_ascii_hexdigit() && !c.is_ascii_lowercase()));
}

#[test]
fn read_parameters_are_one_entry_and_a_bounded_block() {
    let params = ReadParameters::new("fs_consumer_0A0B0C0D".to_string());
    assert_eq!(params.count, 1);
    assert_eq!(params.block_ms, 1000);
    assert_eq!(params.group, "fs_submission_group");
    assert_eq!(params.consumer, "fs_consumer_0A0B0C0D");
}

#[test]
fn a_failed_read_yields_no_entries_and_no_failure() {
    let entries = entries_to_dispatch(ReadOutcome::ReadFailed);
    assert!(entries.is_empty());
}

#[test]
fn a_successful_read_hands_its_entries_through() {
    let entry = DeliveredEntry {
        entry_id: "1-1".to_string(),
        fields: vec![("request_id".to_string(), StoreReply::Bytes(vec![1, 2, 3, 4]))],
    };
    let entries = entries_to_dispatch(ReadOutcome::Entries(vec![entry]));
    assert_eq!(entries.len(), 1);
    assert_eq!(entries[0].entry_id, "1-1");
}

#[test]
fn only_the_integer_one_confirms_an_acknowledgment() {
    assert_eq!(interpret_ack_reply(&StoreReply::Int(1)), AckOutcome::Confirmed);
    assert_eq!(interpret_ack_reply(&StoreReply::Int(0)), AckOutcome::Inconsistent);
    assert_eq!(interpret_ack_reply(&StoreReply::Int(2)), AckOutcome::Inconsistent);
    assert_eq!(interpret_ack_reply(&StoreReply::Okay), AckOutcome::Inconsistent);
    assert_eq!(interpret_ack_reply(&StoreReply::Nil), AckOutcome::Inconsistent);
}

#[test]
fn deregistration_reports_the_pending_count_or_an_unexpected_reply() {
    assert_eq!(interpret_deregister_reply(&StoreReply::Int(0)), DeregisterOutcome::Removed(0));
    assert_eq!(interpret_deregister_reply(&StoreReply::Int(3)), DeregisterOutcome::Removed(3));
    assert_eq!(interpret_deregister_reply(&StoreReply::Okay), DeregisterOutcome::Unexpected);
    assert_eq!(
        interpret_deregister_reply(&StoreReply::Bytes(vec![1])),
        DeregisterOutcome::Unexpected
    );
}
