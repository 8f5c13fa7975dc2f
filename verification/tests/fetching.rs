use quilt_installer::batch::{Batch, BatchAction};
use quilt_installer::fetch::{
    Artifact, FetchError, FetchEvent, FetchStep, Source, BACKOFF_MS, MAX_ATTEMPTS,
};

fn artifact(checksum: Option<&str>) -> Artifact {
    Artifact::new(
        Source {
            url: "https://example.org/a.jar".to_string(),
            checksum: checksum.map(|text| text.to_string()),
        },
        "libraries/a.jar".to_string(),
    )
}

fn responded(status: u16, checksum: &str) -> FetchEvent {
    FetchEvent::Responded { status, checksum: checksum.to_string() }
}

#[test]
fn artifact_takes_over_its_source() {
    let built = artifact(Some("abc"));
    assert_eq!(built.source_url, "https://example.org/a.jar");
    assert_eq!(built.destination_path, "libraries/a.jar");
    assert_eq!(built.expected_checksum, Some("abc".to_string()));
}

#[test]
fn missing_destination_is_requested_at_once() {
    let step = artifact(Some("abc")).step(0, FetchEvent::Probed { existing: None });
    assert!(matches!(step, FetchStep::Request { delay_ms: 0 }));
}

#[test]
fn matching_destination_is_skipped() {
    let step =
        artifact(Some("abc")).step(0, FetchEvent::Probed { existing: Some("abc".to_string()) });
    assert!(matches!(step, FetchStep::Skip));
}

#[test]
fn differing_destination_is_fetched_again() {
    let step =
        artifact(Some("abc")).step(0, FetchEvent::Probed { existing: Some("abd".to_string()) });
    assert!(matches!(step, FetchStep::Request { delay_ms: 0 }));
}

#[test]
fn destination_without_known_checksum_is_fetched_again() {
    let step = artifact(None).step(0, FetchEvent::Probed { existing: Some("abc".to_string()) });
    assert!(matches!(step, FetchStep::Request { delay_ms: 0 }));
}

#[test]
fn verified_body_is_promoted() {
    assert!(matches!(artifact(Some("abc")).step(1, responded(200, "abc")), FetchStep::Promote));
    assert!(matches!(artifact(None).step(1, responded(200, "whatever")), FetchStep::Promote));
    assert!(matches!(artifact(Some("abc")).step(3, responded(299, "abc")), FetchStep::Promote));
}

#[test]
fn mismatched_body_is_rejected_for_its_integrity() {
    let step = artifact(Some("abc")).step(1, responded(200, "xyz"));
    match step {
        FetchStep::Reject(FetchError::Integrity { expected, actual }) => {
            assert_eq!(expected, "abc");
            assert_eq!(actual, "xyz");
        }
        _ => panic!("a body with the wrong checksum was not rejected"),
    }
}

#[test]
fn mismatch_is_not_retried() {
    let step = artifact(Some("abc")).step(1, responded(200, "ABC"));
    assert!(matches!(step, FetchStep::Reject(FetchError::Integrity { .. })));
}

#[test]
fn server_failure_is_retried_with_growing_delay() {
    let target = artifact(Some("abc"));
    assert!(matches!(
        target.step(1, responded(503, "")),
        FetchStep::Request { delay_ms } if delay_ms == BACKOFF_MS
    ));
    assert!(matches!(
        target.step(2, responded(500, "")),
        FetchStep::Request { delay_ms } if delay_ms == 2 * BACKOFF_MS
    ));
    assert!(matches!(
        target.step(MAX_ATTEMPTS, responded(599, "")),
        FetchStep::Reject(FetchError::Status(599))
    ));
}

#[test]
fn transport_failure_is_retried_until_attempts_run_out() {
    let target = artifact(None);
    assert!(matches!(
        target.step(1, FetchEvent::TransportFailed),
        FetchStep::Request { delay_ms: 500 }
    ));
    assert!(matches!(
        target.step(2, FetchEvent::TransportFailed),
        FetchStep::Request { delay_ms: 1000 }
    ));
    assert!(matches!(
        target.step(3, FetchEvent::TransportFailed),
        FetchStep::Reject(FetchError::Network)
    ));
    assert!(matches!(
        target.step(u32::MAX, FetchEvent::TransportFailed),
        FetchStep::Reject(FetchError::Network)
    ));
}

#[test]
fn refusal_is_final() {
    let target = artifact(Some("abc"));
    assert!(matches!(
        target.step(1, responded(404, "")),
        FetchStep::Reject(FetchError::Status(404))
    ));
    assert!(matches!(
        target.step(1, responded(400, "abc")),
        FetchStep::Reject(FetchError::Status(400))
    ));
    assert!(matches!(
        target.step(1, responded(499, "")),
        FetchStep::Reject(FetchError::Status(499))
    ));
    assert!(matches!(
        target.step(1, responded(302, "")),
        FetchStep::Reject(FetchError::Status(302))
    ));
    assert!(matches!(
        target.step(1, responded(600, "")),
        FetchStep::Reject(FetchError::Status(600))
    ));
}

#[test]
fn fetch_errors_have_their_words() {
    let integrity =
        FetchError::Integrity { expected: "abc".to_string(), actual: "xyz".to_string() };
    assert_eq!(integrity.to_string(), "checksum mismatch: expected abc, found xyz");
    assert_eq!(FetchError::Status(404).to_string(), "the server answered with status 404");
    assert_eq!(FetchError::Status(0).to_string(), "the server answered with status 0");
    assert_eq!(FetchError::Network.to_string(), "the server could not be reached");
    assert_eq!(integrity.clone().to_string(), integrity.to_string());
}

#[test]
fn batch_starts_no_more_than_its_limit() {
    let mut batch = Batch::new(5, 2);
    assert!(matches!(batch.next(), BatchAction::Start(0)));
    assert!(matches!(batch.next(), BatchAction::Start(1)));
    assert!(matches!(batch.next(), BatchAction::Wait));
    batch.record(Ok(()));
    assert!(matches!(batch.next(), BatchAction::Start(2)));
    assert!(matches!(batch.next(), BatchAction::Wait));
    assert_eq!(batch.started, 3);
    assert_eq!(batch.completed, 1);
}

#[test]
fn batch_ends_when_all_are_fetched() {
    let mut batch = Batch::new(2, 4);
    assert!(matches!(batch.next(), BatchAction::Start(0)));
    assert!(matches!(batch.next(), BatchAction::Start(1)));
    assert!(matches!(batch.next(), BatchAction::Wait));
    batch.record(Ok(()));
    assert_eq!(batch.progress(), 500);
    assert!(matches!(batch.next(), BatchAction::Wait));
    batch.record(Ok(()));
    assert!(matches!(batch.next(), BatchAction::Done));
    assert_eq!(batch.progress(), 1000);
}

#[test]
fn batch_aborts_with_the_first_failure() {
    let mut batch = Batch::new(3, 3);
    batch.next();
    batch.next();
    batch.next();
    batch.record(Err(FetchError::Status(404)));
    batch.record(Err(FetchError::Network));
    batch.record(Ok(()));
    assert!(matches!(batch.next(), BatchAction::Abort(FetchError::Status(404))));
    assert!(matches!(batch.next(), BatchAction::Abort(FetchError::Status(404))));
    assert_eq!(batch.completed, 1);
    assert_eq!(batch.ended, 3);
    assert_eq!(batch.progress(), 333);
}

#[test]
fn batch_starts_nothing_after_a_failure() {
    let mut batch = Batch::new(4, 1);
    assert!(matches!(batch.next(), BatchAction::Start(0)));
    batch.record(Err(FetchError::Network));
    assert!(matches!(batch.next(), BatchAction::Abort(FetchError::Network)));
    assert_eq!(batch.started, 1);
}

#[test]
fn empty_batch_is_done_at_once() {
    let mut batch = Batch::new(0, 3);
    assert_eq!(batch.progress(), 1000);
    assert!(matches!(batch.next(), BatchAction::Done));
}

#[test]
fn batch_without_limit_fetches_one_at_a_time() {
    let mut batch = Batch::new(2, 0);
    assert_eq!(batch.limit, 1);
    assert!(matches!(batch.next(), BatchAction::Start(0)));
    assert!(matches!(batch.next(), BatchAction::Wait));
}

#[test]
fn record_without_running_fetch_changes_nothing() {
    let mut batch = Batch::new(2, 2);
    batch.record(Ok(()));
    batch.record(Err(FetchError::Network));
    assert_eq!(batch.completed, 0);
    assert_eq!(batch.ended, 0);
    assert!(batch.failure.is_none());
    assert_eq!(batch.progress(), 0);
}

#[test]
fn progress_is_the_share_in_thousandths() {
    let mut batch = Batch::new(3, 3);
    let mut seen = vec![batch.progress()];
    for _ in 0..3 {
        batch.next();
    }
    for _ in 0..3 {
        batch.record(Ok(()));
        seen.push(batch.progress());
    }
    assert_eq!(seen, vec![0, 333, 666, 1000]);
    let mut large = Batch::new(usize::MAX, usize::MAX);
    large.next();
    large.record(Ok(()));
    assert_eq!(large.progress(), 0);
}

#[test]
fn cancelled_batch_aborts_and_starts_nothing() {
    let mut batch = Batch::new(3, 2);
    assert!(matches!(batch.next(), BatchAction::Start(0)));
    batch.cancel();
    assert!(matches!(batch.next(), BatchAction::Abort(FetchError::Cancelled)));
    batch.record(Ok(()));
    assert!(matches!(batch.next(), BatchAction::Abort(FetchError::Cancelled)));
    assert_eq!(batch.started, 1);
    assert_eq!(FetchError::Cancelled.to_string(), "the installation was cancelled");
}

#[test]
fn cancelling_keeps_an_earlier_failure() {
    let mut batch = Batch::new(2, 2);
    batch.next();
    batch.record(Err(FetchError::Status(410)));
    batch.cancel();
    assert!(matches!(batch.next(), BatchAction::Abort(FetchError::Status(410))));
}
