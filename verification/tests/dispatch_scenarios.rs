use fabseal_worker::dispatch::ConversionOutcome;
use fabseal_worker::dispatch::Dispatch;
use fabseal_worker::dispatch::DispatchPhase;
use fabseal_worker::dispatch::ProtocolError;
use fabseal_worker::dispatch::StoreWriteReply;
use fabseal_worker::dispatch::WorkerAction;
use fabseal_worker::store::DeliveredEntry;
use fabseal_worker::store::StoreReply;
use fabseal_worker::TryFromRequestIdError;

fn entry_for(value: u32, entry_id: &str) -> DeliveredEntry {
    DeliveredEntry {
        entry_id: entry_id.to_string(),
        fields: vec![(
            "request_id".to_string(),
            StoreReply::Bytes(value.to_le_bytes().to_vec()),
        )],
    }
}

fn ack_count(actions: &[WorkerAction]) -> usize {
    actions.iter().filter(|a| matches!(a, WorkerAction::Ack(_))).count()
}

#[test]
fn scenario_conversion_succeeds_and_result_is_stored() {
    // An entry for 0xDEADBEEF; the image exists; the engine exits 0 with a
    // non-empty output: the worker stores it under the result key with the
    // configured time-to-live, then acknowledges.
    let entry = entry_for(0xDEAD_BEEF, "1-1");
    let mut actions: Vec<WorkerAction> = Vec::new();

    let step = Dispatch::begin(&entry, 600).unwrap();
    match &step.action {
        WorkerAction::FetchImage(key) => assert_eq!(key, "fsdata_v1:image:DEADBEEF"),
        other => panic!("expected an image fetch, got {:?}", other),
    }

    let step = step.next.on_image_reply(StoreReply::Bytes(b"IMGDATA".to_vec())).unwrap();
    match &step.action {
        WorkerAction::RunConversion(payload) => assert_eq!(payload, b"IMGDATA"),
        other => panic!("expected a conversion, got {:?}", other),
    }
    actions.push(step.action);

    let step = step.next.on_conversion(ConversionOutcome::Completed(b"MODEL-X".to_vec()));
    match &step.action {
        WorkerAction::StoreResult { key, data, ttl_seconds } => {
            assert_eq!(key, "fsdata_v1:result:DEADBEEF");
            assert_eq!(data, b"MODEL-X");
            assert_eq!(*ttl_seconds, 600);
        },
        other => panic!("expected a result write, got {:?}", other),
    }
    actions.push(step.action);

    let step = step.next.on_store_reply(StoreWriteReply::Confirmed);
    match &step.action {
        WorkerAction::Ack(id) => assert_eq!(id, "1-1"),
        other => panic!("expected the acknowledgment, got {:?}", other),
    }
    actions.push(step.action);

    assert_eq!(step.next.phase, DispatchPhase::Done);
    assert!(step.next.acked);
    assert_eq!(ack_count(&actions), 1);
}

#[test]
fn scenario_expired_image_is_acknowledged_without_conversion() {
    // An entry for 0xCAFEF00D; no image exists at the image key: the
    // worker acknowledges at once, runs no conversion, writes no result.
    let entry = entry_for(0xCAFE_F00D, "2-0");

    let step = Dispatch::begin(&entry, 600).unwrap();
    match &step.action {
        WorkerAction::FetchImage(key) => assert_eq!(key, "fsdata_v1:image:CAFEF00D"),
        other => panic!("expected an image fetch, got {:?}", other),
    }

    let step = step.next.on_image_reply(StoreReply::Nil).unwrap();
    match &step.action {
        WorkerAction::Ack(id) => assert_eq!(id, "2-0"),
        other => panic!("expected the acknowledgment, got {:?}", other),
    }
    assert_eq!(step.next.phase, DispatchPhase::Done);
    assert!(step.next.acked);
}

#[test]
fn scenario_failed_conversion_is_acknowledged_without_result() {
    // The image exists but the engine exits with status 1: the worker
    // acknowledges; no result write is ever asked for.
    let entry = entry_for(0xDEAD_BEEF, "3-7");

    let step = Dispatch::begin(&entry, 600).unwrap();
    let step = step.next.on_image_reply(StoreReply::Bytes(b"IMGDATA".to_vec())).unwrap();
    let step = step.next.on_conversion(ConversionOutcome::Failed);
    match &step.action {
        WorkerAction::Ack(id) => assert_eq!(id, "3-7"),
        other => panic!("expected the acknowledgment, got {:?}", other),
    }
    assert_eq!(step.next.phase, DispatchPhase::Done);
    assert!(step.next.acked);
}

#[test]
fn every_complete_dispatch_acknowledges_exactly_once() {
    // Whatever mix of outcomes ends the dispatch, the trace holds exactly
    // one acknowledgment, and it names the entry.
    let runs: Vec<(Option<StoreReply>, Option<ConversionOutcome>, Option<StoreWriteReply>)> = vec![
        (Some(StoreReply::Nil), None, None),
        (Some(StoreReply::Bytes(b"I".to_vec())), Some(ConversionOutcome::Failed), None),
        (
            Some(StoreReply::Bytes(b"I".to_vec())),
            Some(ConversionOutcome::Completed(b"O".to_vec())),
            Some(StoreWriteReply::Confirmed),
        ),
        (
            Some(StoreReply::Bytes(b"I".to_vec())),
            Some(ConversionOutcome::Completed(b"O".to_vec())),
            Some(StoreWriteReply::Failed),
        ),
    ];
    for (image, conversion, write) in runs {
        let entry = entry_for(0x0BAD_F00D, "9-9");
        let mut actions: Vec<WorkerAction> = Vec::new();
        let step = Dispatch::begin(&entry, 60).unwrap();
        let mut step = step.next.on_image_reply(image.unwrap()).unwrap();
        actions.push(step.action.clone());
        if let Some(outcome) = conversion {
            step = step.next.on_conversion(outcome);
            actions.push(step.action.clone());
        }
        if let Some(reply) = write {
            step = step.next.on_store_reply(reply);
            actions.push(step.action.clone());
        }
        assert_eq!(step.next.phase, DispatchPhase::Done);
        assert!(step.next.acked);
        assert_eq!(ack_count(&actions), 1);
        assert!(actions.iter().all(|a| match a {
            WorkerAction::Ack(id) => id == "9-9",
            _ => true,
        }));
    }
}

#[test]
fn a_missing_request_id_field_is_a_protocol_error() {
    let entry = DeliveredEntry { entry_id: "4-0".to_string(), fields: vec![] };
    assert!(matches!(
        Dispatch::begin(&entry, 600),
        Err(ProtocolError::MissingRequestId)
    ));
}

#[test]
fn a_non_byte_request_id_field_is_a_protocol_error() {
    let entry = DeliveredEntry {
        entry_id: "4-1".to_string(),
        fields: vec![("request_id".to_string(), StoreReply::Int(7))],
    };
    assert!(matches!(
        Dispatch::begin(&entry, 600),
        Err(ProtocolError::RequestIdNotBytes)
    ));
}

#[test]
fn a_malformed_request_id_field_is_a_protocol_error() {
    let entry = DeliveredEntry {
        entry_id: "4-2".to_string(),
        fields: vec![("request_id".to_string(), StoreReply::Bytes(vec![1, 2, 3]))],
    };
    assert!(matches!(
        Dispatch::begin(&entry, 600),
        Err(ProtocolError::BadRequestId(TryFromRequestIdError::LengthError(3)))
    ));
}

#[test]
fn an_out_of_protocol_image_reply_is_an_error() {
    let entry = entry_for(0xDEAD_BEEF, "5-0");
    let step = Dispatch::begin(&entry, 600).unwrap();
    assert!(matches!(
        step.next.on_image_reply(StoreReply::Okay),
        Err(ProtocolError::UnexpectedReply)
    ));
}

#[test]
fn the_first_request_id_field_wins() {
    let entry = DeliveredEntry {
        entry_id: "6-0".to_string(),
        fields: vec![
            ("other".to_string(), StoreReply::Int(1)),
            ("request_id".to_string(), StoreReply::Bytes(1u32.to_le_bytes().to_vec())),
            ("request_id".to_string(), StoreReply::Bytes(2u32.to_le_bytes().to_vec())),
        ],
    };
    let step = Dispatch::begin(&entry, 600).unwrap();
    assert_eq!(step.next.request_id.hex_string(), "00000001");
}
