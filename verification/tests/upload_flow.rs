use ne_s3::chunk::PartRange;
use ne_s3::error::TransferError;
use ne_s3::params::S3Params;
use ne_s3::upload::PartResult;
use ne_s3::upload::UploadAction;
use ne_s3::upload::UploadCoordinator;
use ne_s3::upload::UploadEvent;
use ne_s3::upload::UploadPhase;

fn request() -> S3Params {
    S3Params {
        bucket: String::from("photos"),
        object: String::from("2024/summer.raw"),
        access_key_id: String::from("AK"),
        secret_access_key: String::from("SK"),
        session_token: String::from("ST"),
        security_token: String::from("opaque"),
        file_path: String::from("/tmp/summer.raw"),
        region: None,
        tries: None,
        endpoint: None,
        ca_cert_path: None,
    }
}

const MIB: u64 = 1024 * 1024;

fn in_flight(file_size: u64) -> (UploadCoordinator, Vec<PartRange>) {
    let (coordinator, _) = UploadCoordinator::begin(&request());
    let (coordinator, _) =
        coordinator.step(UploadEvent::SessionOpened { upload_id: Some(String::from("session-1")) });
    let (coordinator, action) = coordinator.step(UploadEvent::FileMeasured { file_size });
    match action {
        UploadAction::DispatchParts { upload_id, parts } => {
            assert_eq!(upload_id, "session-1");
            (coordinator, parts)
        }
        other => panic!("parts were not dispatched: {:?}", other),
    }
}

fn uploaded(part_number: i32) -> UploadEvent {
    UploadEvent::PartUploaded { part_number, entity_tag: Some(format!("etag-{}", part_number)) }
}

#[test]
fn an_upload_starts_by_asking_for_a_session() {
    let (coordinator, action) = UploadCoordinator::begin(&request());
    assert_eq!(coordinator.phase(), UploadPhase::Idle);
    assert!(!coordinator.is_finished());
    assert_eq!(
        action,
        UploadAction::InitiateSession {
            bucket: String::from("photos"),
            key: String::from("2024/summer.raw"),
            security_token: String::from("opaque"),
        }
    );
}

#[test]
fn an_open_session_asks_for_the_file_size() {
    let (coordinator, _) = UploadCoordinator::begin(&request());
    let (coordinator, action) =
        coordinator.step(UploadEvent::SessionOpened { upload_id: Some(String::from("s")) });
    assert_eq!(coordinator.phase(), UploadPhase::SessionInitiated);
    assert_eq!(action, UploadAction::MeasureFile { path: String::from("/tmp/summer.raw") });
}

#[test]
fn a_session_without_identifier_ends_the_upload() {
    let (coordinator, _) = UploadCoordinator::begin(&request());
    let (coordinator, action) = coordinator.step(UploadEvent::SessionOpened { upload_id: None });
    assert_eq!(coordinator.phase(), UploadPhase::Aborted);
    assert!(coordinator.is_finished());
    assert_eq!(
        action,
        UploadAction::Finish {
            outcome: Err(TransferError::SessionInit { cause: String::from("upload_id is none") })
        }
    );
}

#[test]
fn a_refused_session_ends_the_upload() {
    let (coordinator, _) = UploadCoordinator::begin(&request());
    let (coordinator, action) =
        coordinator.step(UploadEvent::SessionRefused { cause: String::from("access denied") });
    assert_eq!(coordinator.phase(), UploadPhase::Aborted);
    assert_eq!(
        action,
        UploadAction::Finish {
            outcome: Err(TransferError::SessionInit { cause: String::from("access denied") })
        }
    );
}

#[test]
fn an_empty_file_is_rejected() {
    let (coordinator, _) = UploadCoordinator::begin(&request());
    let (coordinator, _) =
        coordinator.step(UploadEvent::SessionOpened { upload_id: Some(String::from("s")) });
    let (coordinator, action) = coordinator.step(UploadEvent::FileMeasured { file_size: 0 });
    assert_eq!(coordinator.phase(), UploadPhase::Aborted);
    assert_eq!(coordinator.pending_parts(), 0);
    assert_eq!(action, UploadAction::Finish { outcome: Err(TransferError::EmptyFile) });
}

#[test]
fn an_unreadable_file_ends_the_upload() {
    let (coordinator, _) = UploadCoordinator::begin(&request());
    let (coordinator, _) =
        coordinator.step(UploadEvent::SessionOpened { upload_id: Some(String::from("s")) });
    let (coordinator, action) =
        coordinator.step(UploadEvent::FileUnreadable { cause: String::from("no such file") });
    assert_eq!(coordinator.phase(), UploadPhase::Aborted);
    assert_eq!(
        action,
        UploadAction::Finish {
            outcome: Err(TransferError::LocalIo { cause: String::from("no such file") })
        }
    );
}

#[test]
fn the_parts_of_the_file_are_dispatched() {
    let (coordinator, parts) = in_flight(12 * MIB);
    assert_eq!(coordinator.phase(), UploadPhase::PartsInFlight);
    assert_eq!(coordinator.file_size(), 12 * MIB);
    assert_eq!(coordinator.pending_parts(), 3);
    assert_eq!(
        parts,
        vec![
            PartRange { part_number: 1, offset: 0, length: 5 * MIB },
            PartRange { part_number: 2, offset: 5 * MIB, length: 5 * MIB },
            PartRange { part_number: 3, offset: 10 * MIB, length: 2 * MIB },
        ]
    );
}

#[test]
fn the_manifest_is_ascending_whatever_the_order_of_arrival() {
    let (coordinator, _) = in_flight(12 * MIB);
    let (coordinator, action) = coordinator.step(uploaded(3));
    assert_eq!(action, UploadAction::AwaitParts);
    assert_eq!(coordinator.pending_parts(), 2);
    let (coordinator, action) = coordinator.step(uploaded(1));
    assert_eq!(action, UploadAction::AwaitParts);
    let (coordinator, action) = coordinator.step(uploaded(2));
    assert_eq!(coordinator.phase(), UploadPhase::Completing);
    assert_eq!(
        action,
        UploadAction::Finalize {
            upload_id: String::from("session-1"),
            manifest: vec![
                PartResult { part_number: 1, entity_tag: String::from("etag-1") },
                PartResult { part_number: 2, entity_tag: String::from("etag-2") },
                PartResult { part_number: 3, entity_tag: String::from("etag-3") },
            ],
        }
    );
    let (coordinator, action) = coordinator.step(UploadEvent::Finalized);
    assert_eq!(coordinator.phase(), UploadPhase::Completed);
    assert!(coordinator.is_finished());
    assert_eq!(action, UploadAction::Finish { outcome: Ok(12 * MIB) });
}

#[test]
fn the_manifest_of_a_large_file_lists_every_part_once() {
    let file_size = 5 * MIB * 40 + 1;
    let (mut coordinator, parts) = in_flight(file_size);
    assert_eq!(parts.len(), 41);
    let mut last = UploadAction::AwaitParts;
    for part in parts.iter().rev() {
        let (next, action) = coordinator.step(uploaded(part.part_number));
        coordinator = next;
        last = action;
    }
    match last {
        UploadAction::Finalize { manifest, .. } => {
            assert_eq!(manifest.len(), 41);
            for (index, entry) in manifest.iter().enumerate() {
                assert_eq!(entry.part_number, index as i32 + 1);
                assert_eq!(entry.entity_tag, format!("etag-{}", index + 1));
            }
        }
        other => panic!("completion was not asked for: {:?}", other),
    }
}

#[test]
fn a_single_part_upload_completes() {
    let (coordinator, parts) = in_flight(17);
    assert_eq!(parts, vec![PartRange { part_number: 1, offset: 0, length: 17 }]);
    let (coordinator, action) = coordinator.step(uploaded(1));
    assert_eq!(
        action,
        UploadAction::Finalize {
            upload_id: String::from("session-1"),
            manifest: vec![PartResult { part_number: 1, entity_tag: String::from("etag-1") }],
        }
    );
    let (_, action) = coordinator.step(UploadEvent::Finalized);
    assert_eq!(action, UploadAction::Finish { outcome: Ok(17) });
}

#[test]
fn a_part_without_entity_tag_is_listed_with_an_empty_one() {
    let (coordinator, _) = in_flight(17);
    let (_, action) =
        coordinator.step(UploadEvent::PartUploaded { part_number: 1, entity_tag: None });
    assert_eq!(
        action,
        UploadAction::Finalize {
            upload_id: String::from("session-1"),
            manifest: vec![PartResult { part_number: 1, entity_tag: String::new() }],
        }
    );
}

#[test]
fn a_failed_part_is_reported_when_the_others_are_back() {
    let (coordinator, _) = in_flight(12 * MIB);
    let (coordinator, action) = coordinator
        .step(UploadEvent::PartFailed { part_number: 2, cause: String::from("timed out") });
    assert_eq!(action, UploadAction::AwaitParts);
    assert_eq!(coordinator.phase(), UploadPhase::PartsInFlight);
    let (coordinator, action) = coordinator.step(uploaded(1));
    assert_eq!(action, UploadAction::AwaitParts);
    let (coordinator, action) = coordinator
        .step(UploadEvent::PartFailed { part_number: 3, cause: String::from("reset") });
    assert_eq!(coordinator.phase(), UploadPhase::Aborted);
    assert_eq!(
        action,
        UploadAction::Finish {
            outcome: Err(TransferError::PartTransfer {
                part_number: 2,
                cause: String::from("timed out")
            })
        }
    );
}

#[test]
fn a_part_that_is_not_awaited_changes_nothing() {
    let (coordinator, _) = in_flight(12 * MIB);
    let (coordinator, action) = coordinator.step(uploaded(0));
    assert_eq!(action, UploadAction::Ignore);
    let (coordinator, action) = coordinator.step(uploaded(4));
    assert_eq!(action, UploadAction::Ignore);
    let (coordinator, action) = coordinator.step(uploaded(-1));
    assert_eq!(action, UploadAction::Ignore);
    let (coordinator, _) = coordinator.step(uploaded(1));
    let (coordinator, action) = coordinator.step(uploaded(1));
    assert_eq!(action, UploadAction::Ignore);
    let (coordinator, action) = coordinator
        .step(UploadEvent::PartFailed { part_number: 1, cause: String::from("late") });
    assert_eq!(action, UploadAction::Ignore);
    assert_eq!(coordinator.pending_parts(), 2);
    assert_eq!(coordinator.phase(), UploadPhase::PartsInFlight);
}

#[test]
fn a_refused_completion_ends_the_upload() {
    let (coordinator, _) = in_flight(17);
    let (coordinator, _) = coordinator.step(uploaded(1));
    let (coordinator, action) = coordinator
        .step(UploadEvent::FinalizeRefused { cause: String::from("invalid part") });
    assert_eq!(coordinator.phase(), UploadPhase::Aborted);
    assert_eq!(
        action,
        UploadAction::Finish {
            outcome: Err(TransferError::Completion { cause: String::from("invalid part") })
        }
    );
}

#[test]
fn an_event_out_of_its_phase_changes_nothing() {
    let (coordinator, _) = UploadCoordinator::begin(&request());
    let (coordinator, action) = coordinator.step(UploadEvent::FileMeasured { file_size: 5 });
    assert_eq!(action, UploadAction::Ignore);
    assert_eq!(coordinator.phase(), UploadPhase::Idle);
    let (coordinator, action) = coordinator.step(UploadEvent::Finalized);
    assert_eq!(action, UploadAction::Ignore);
    let (coordinator, _) =
        coordinator.step(UploadEvent::SessionOpened { upload_id: Some(String::from("s")) });
    let (coordinator, action) =
        coordinator.step(UploadEvent::SessionOpened { upload_id: Some(String::from("t")) });
    assert_eq!(action, UploadAction::Ignore);
    assert_eq!(coordinator.phase(), UploadPhase::SessionInitiated);
    let (coordinator, _) = coordinator.step(UploadEvent::FileMeasured { file_size: 0 });
    let (coordinator, action) = coordinator.step(UploadEvent::FileMeasured { file_size: 9 });
    assert_eq!(action, UploadAction::Ignore);
    assert_eq!(coordinator.phase(), UploadPhase::Aborted);
}

#[test]
fn a_file_beyond_the_default_layout_gets_larger_parts() {
    let file_size = 5 * MIB * 10000 + 1;
    let (coordinator, parts) = in_flight(file_size);
    assert_eq!(parts.len(), 10000);
    assert_eq!(coordinator.pending_parts(), 10000);
    assert_eq!(parts[0], PartRange { part_number: 1, offset: 0, length: 5243404 });
    let last = parts[9999];
    assert_eq!(last.part_number, 10000);
    assert_eq!(last.offset + last.length, file_size);
}
