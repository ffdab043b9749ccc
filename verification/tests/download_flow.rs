use ne_s3::download::DownloadAction;
use ne_s3::download::DownloadEvent;
use ne_s3::download::DownloadPhase;
use ne_s3::download::DownloadStreamer;
use ne_s3::error::TransferError;
use ne_s3::params::S3Params;

fn request() -> S3Params {
    S3Params {
        bucket: String::from("photos"),
        object: String::from("2024/summer.raw"),
        access_key_id: String::from("AK"),
        secret_access_key: String::from("SK"),
        session_token: String::from("ST"),
        security_token: String::from("opaque"),
        file_path: String::from("/tmp/copy.raw"),
        region: None,
        tries: None,
        endpoint: None,
        ca_cert_path: None,
    }
}

fn streaming() -> DownloadStreamer {
    let (streamer, _) = DownloadStreamer::begin(&request());
    let (streamer, _) = streamer.step(DownloadEvent::FileCreated);
    let (streamer, action) = streamer.step(DownloadEvent::ResponseOpened);
    assert_eq!(action, DownloadAction::ReadNext);
    streamer
}

#[test]
fn a_download_starts_by_creating_the_file() {
    let (streamer, action) = DownloadStreamer::begin(&request());
    assert_eq!(streamer.phase(), DownloadPhase::Preparing);
    assert_eq!(streamer.byte_count(), 0);
    assert_eq!(action, DownloadAction::CreateFile { path: String::from("/tmp/copy.raw") });
}

#[test]
fn a_created_file_asks_for_the_object() {
    let (streamer, _) = DownloadStreamer::begin(&request());
    let (streamer, action) = streamer.step(DownloadEvent::FileCreated);
    assert_eq!(streamer.phase(), DownloadPhase::Requesting);
    assert_eq!(
        action,
        DownloadAction::GetObject {
            bucket: String::from("photos"),
            key: String::from("2024/summer.raw")
        }
    );
}

#[test]
fn a_file_that_cannot_be_created_ends_the_download() {
    let (streamer, _) = DownloadStreamer::begin(&request());
    let (streamer, action) =
        streamer.step(DownloadEvent::FileRefused { cause: String::from("read-only") });
    assert_eq!(streamer.phase(), DownloadPhase::Aborted);
    assert_eq!(
        action,
        DownloadAction::Finish {
            outcome: Err(TransferError::LocalIo { cause: String::from("read-only") })
        }
    );
}

#[test]
fn a_refused_request_ends_the_download() {
    let (streamer, _) = DownloadStreamer::begin(&request());
    let (streamer, _) = streamer.step(DownloadEvent::FileCreated);
    let (streamer, action) =
        streamer.step(DownloadEvent::RequestRefused { cause: String::from("no such key") });
    assert_eq!(streamer.phase(), DownloadPhase::Aborted);
    assert_eq!(
        action,
        DownloadAction::Finish {
            outcome: Err(TransferError::Download { cause: String::from("no such key") })
        }
    );
}

#[test]
fn a_download_counts_the_bytes_of_every_piece() {
    let mut streamer = streaming();
    let mut total = 0u64;
    for len in [4096u64, 1, 0, 65536, 17] {
        assert!(streamer.can_count(len));
        let (next, action) = streamer.step(DownloadEvent::ChunkWritten { len });
        assert_eq!(action, DownloadAction::ReadNext);
        streamer = next;
        total += len;
        assert_eq!(streamer.byte_count(), total);
    }
    let (streamer, action) = streamer.step(DownloadEvent::StreamEnded);
    assert_eq!(streamer.phase(), DownloadPhase::Completed);
    assert_eq!(action, DownloadAction::Finish { outcome: Ok(69650) });
}

#[test]
fn an_empty_object_downloads_as_no_bytes() {
    let streamer = streaming();
    let (_, action) = streamer.step(DownloadEvent::StreamEnded);
    assert_eq!(action, DownloadAction::Finish { outcome: Ok(0) });
}

#[test]
fn a_count_at_the_limit_takes_no_more() {
    let streamer = streaming();
    let (streamer, _) = streamer.step(DownloadEvent::ChunkWritten { len: u64::MAX - 1 });
    assert!(streamer.can_count(1));
    assert!(!streamer.can_count(2));
    let (streamer, _) = streamer.step(DownloadEvent::ChunkWritten { len: 1 });
    assert_eq!(streamer.byte_count(), u64::MAX);
    assert!(streamer.can_count(0));
    assert!(!streamer.can_count(1));
}

#[test]
fn a_failed_write_ends_the_download() {
    let streamer = streaming();
    let (streamer, _) = streamer.step(DownloadEvent::ChunkWritten { len: 10 });
    let (streamer, action) =
        streamer.step(DownloadEvent::WriteFailed { cause: String::from("disk full") });
    assert_eq!(streamer.phase(), DownloadPhase::Aborted);
    assert_eq!(streamer.byte_count(), 10);
    assert_eq!(
        action,
        DownloadAction::Finish {
            outcome: Err(TransferError::LocalIo { cause: String::from("disk full") })
        }
    );
}

#[test]
fn a_broken_body_ends_the_download() {
    let streamer = streaming();
    let (streamer, action) =
        streamer.step(DownloadEvent::StreamFailed { cause: String::from("connection reset") });
    assert_eq!(streamer.phase(), DownloadPhase::Aborted);
    assert_eq!(
        action,
        DownloadAction::Finish {
            outcome: Err(TransferError::Download { cause: String::from("connection reset") })
        }
    );
}

#[test]
fn a_download_event_out_of_its_phase_changes_nothing() {
    let (streamer, _) = DownloadStreamer::begin(&request());
    let (streamer, action) = streamer.step(DownloadEvent::ChunkWritten { len: 5 });
    assert_eq!(action, DownloadAction::Ignore);
    assert_eq!(streamer.byte_count(), 0);
    assert_eq!(streamer.phase(), DownloadPhase::Preparing);
    let streamer = streaming();
    let (streamer, _) = streamer.step(DownloadEvent::StreamEnded);
    let (streamer, action) = streamer.step(DownloadEvent::ChunkWritten { len: 5 });
    assert_eq!(action, DownloadAction::Ignore);
    assert_eq!(streamer.byte_count(), 0);
    assert_eq!(streamer.phase(), DownloadPhase::Completed);
}
