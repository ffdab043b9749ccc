use ne_s3::progress::Progress;
use ne_s3::progress::ProgressBody;
use ne_s3::progress::ProgressTracker;
use ne_s3::progress::Pulled;
use ne_s3::progress::EMIT_INTERVAL_MS;

#[test]
fn a_new_tracker_has_counted_nothing() {
    let tracker = ProgressTracker::new(1000, 42);
    assert_eq!(tracker.bytes_transferred(), 0);
    assert_eq!(tracker.content_length(), 1000);
    assert_eq!(tracker.last_emitted_at(), 42);
    assert_eq!(EMIT_INTERVAL_MS, 500);
}

#[test]
fn an_update_inside_the_interval_is_dropped() {
    let mut tracker = ProgressTracker::new(1000, 0);
    assert_eq!(tracker.track(100, 499), None);
    assert_eq!(tracker.bytes_transferred(), 100);
    assert_eq!(tracker.last_emitted_at(), 0);
}

#[test]
fn an_update_after_the_interval_is_notified() {
    let mut tracker = ProgressTracker::new(1000, 0);
    assert_eq!(
        tracker.track(100, 500),
        Some(Progress { bytes_transferred: 100, content_length: 1000 })
    );
    assert_eq!(tracker.last_emitted_at(), 500);
    assert_eq!(tracker.track(100, 999), None);
    assert_eq!(tracker.last_emitted_at(), 500);
    assert_eq!(
        tracker.track(100, 1000),
        Some(Progress { bytes_transferred: 300, content_length: 1000 })
    );
    assert_eq!(tracker.last_emitted_at(), 1000);
}

#[test]
fn completion_is_notified_inside_the_interval() {
    let mut tracker = ProgressTracker::new(1000, 0);
    assert_eq!(tracker.track(999, 1), None);
    assert_eq!(
        tracker.track(1, 2),
        Some(Progress { bytes_transferred: 1000, content_length: 1000 })
    );
    assert_eq!(tracker.last_emitted_at(), 2);
}

#[test]
fn a_part_sent_again_overruns_the_content_length() {
    let mut tracker = ProgressTracker::new(10, 0);
    assert_eq!(tracker.track(10, 1), Some(Progress { bytes_transferred: 10, content_length: 10 }));
    assert_eq!(tracker.track(5, 2), Some(Progress { bytes_transferred: 15, content_length: 10 }));
}

#[test]
fn a_clock_that_went_back_does_not_notify() {
    let mut tracker = ProgressTracker::new(1000, 5000);
    assert_eq!(tracker.track(1, 100), None);
    assert_eq!(tracker.last_emitted_at(), 5000);
}

#[test]
fn a_tracker_of_no_content_notifies_every_update() {
    let mut tracker = ProgressTracker::new(0, 0);
    assert_eq!(tracker.track(0, 0), Some(Progress { bytes_transferred: 0, content_length: 0 }));
}

#[test]
fn notified_counts_never_go_down_and_end_at_the_content_length() {
    let content_length = 10_000u64;
    let mut tracker = ProgressTracker::new(content_length, 0);
    let mut seen: Vec<u64> = Vec::new();
    let mut now = 0u64;
    let mut sent = 0u64;
    let mut step = 1u64;
    while sent < content_length {
        let len = step.min(content_length - sent);
        now += (step * 37) % 301;
        if let Some(progress) = tracker.track(len, now) {
            assert_eq!(progress.content_length, content_length);
            seen.push(progress.bytes_transferred);
        }
        sent += len;
        step = step % 97 + 13;
    }
    assert!(seen.windows(2).all(|pair| pair[0] <= pair[1]));
    assert_eq!(seen.last(), Some(&content_length));
    assert!(seen.len() > 1);
}

#[test]
fn the_body_reports_the_length_of_each_piece() {
    let body = ProgressBody::new("inner", 100);
    assert_eq!(body.observe(Pulled::Data { len: 7 }), Some(7));
    assert_eq!(body.observe(Pulled::Data { len: 0 }), Some(0));
    assert_eq!(body.observe(Pulled::End), None);
    assert_eq!(body.observe(Pulled::Failed), None);
    assert_eq!(body.observe(Pulled::Pending), None);
}

#[test]
fn the_body_reports_a_fixed_size() {
    let body = ProgressBody::new(vec![1u8, 2, 3], 3);
    assert_eq!(body.size_hint(), 3);
    body.observe(Pulled::Data { len: 2 });
    assert_eq!(body.size_hint(), 3);
    assert_eq!(body.content_length, 3);
    assert_eq!(body.inner, vec![1u8, 2, 3]);
    assert_eq!(body.into_inner(), vec![1u8, 2, 3]);
}
