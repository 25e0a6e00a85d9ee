use jamf_package_updater::digest::PackageDigestSnapshot;
use jamf_package_updater::poll::{
    conclude_availability, conclude_change, decide_poll, payload_matches, replay_poll,
    PollDecision, PollMode,
};
use jamf_package_updater::error::{ErrorKind, UpdateError};
use jamf_package_updater::policy::{find_policies_with_package, Fetched, PolicySummary, ScannedPolicy};
use jamf_package_updater::request::{accept, Operation, Response};
use jamf_package_updater::upload::{decide_upload, replay_upload, UploadDecision};
use jamf_package_updater::workflow::{Event, Step, ValidationError, Workflow};

fn md5(s: &str) -> PackageDigestSnapshot {
    PackageDigestSnapshot { md5_hash: Some(s.to_string()), hash_type: None, hash_value: None, file_size: None }
}

fn response(status: u16, body: &str) -> Response {
    Response { status, body: body.to_string() }
}

#[test]
fn upload_succeeds_on_the_third_attempt_after_two_backoffs() {
    let report = replay_upload(&vec![response(500, "a"), response(503, "b"), response(200, "ok")]).unwrap();
    assert_eq!(report.attempts, 3);
    assert_eq!(report.backoff_seconds, 20);
    assert!(report.outcome.is_ok());
}

#[test]
fn upload_aborts_at_once_on_a_client_error() {
    let report = replay_upload(&vec![response(404, "not found"), response(200, "ok")]).unwrap();
    assert_eq!(report.attempts, 1);
    assert_eq!(report.backoff_seconds, 0);
    let e = report.outcome.unwrap_err();
    assert_eq!(e.status, 404);
    assert_eq!(e.body, "not found");
    assert_eq!(e.attempts, 1);
    assert!(!e.exhausted);
}

#[test]
fn upload_gives_up_after_three_server_errors() {
    let report = replay_upload(&vec![
        response(500, "first"),
        response(502, "second"),
        response(503, "third"),
        response(200, "never seen"),
    ])
    .unwrap();
    assert_eq!(report.attempts, 3);
    assert_eq!(report.backoff_seconds, 20);
    let e = report.outcome.unwrap_err();
    assert_eq!(e.status, 503);
    assert_eq!(e.body, "third");
    assert_eq!(e.attempts, 3);
    assert!(e.exhausted);
}

#[test]
fn upload_replay_needs_enough_answers() {
    assert!(replay_upload(&vec![]).is_none());
    assert!(replay_upload(&vec![response(500, "a"), response(500, "b")]).is_none());
    let first = replay_upload(&vec![response(201, "")]).unwrap();
    assert_eq!(first.attempts, 1);
    assert_eq!(first.backoff_seconds, 0);
    assert!(first.outcome.is_ok());
}

#[test]
fn upload_decisions_one_by_one() {
    assert!(matches!(decide_upload(1, &response(204, "")), UploadDecision::Complete));
    assert!(matches!(
        decide_upload(1, &response(500, "")),
        UploadDecision::RetryAfter { seconds: 10, next_attempt: 2 }
    ));
    assert!(matches!(
        decide_upload(2, &response(599, "")),
        UploadDecision::RetryAfter { seconds: 10, next_attempt: 3 }
    ));
    assert!(matches!(decide_upload(3, &response(500, "")), UploadDecision::Abort(_)));
    assert!(matches!(decide_upload(1, &response(401, "")), UploadDecision::Abort(_)));
    assert!(matches!(decide_upload(1, &response(302, "")), UploadDecision::Abort(_)));
}

fn poll_all(
    mode: &PollMode,
    polls: Vec<Option<PackageDigestSnapshot>>,
) -> (u32, u64, Result<PackageDigestSnapshot, Option<PackageDigestSnapshot>>) {
    let mut attempt = 1;
    let mut waited = 0;
    let mut latest = None;
    for current in polls {
        match decide_poll(mode, attempt, latest, current) {
            PollDecision::Converged(s) => return (attempt, waited, Ok(s)),
            PollDecision::Wait { seconds, next_attempt, latest: seen } => {
                waited += seconds;
                attempt = next_attempt;
                latest = seen;
            }
            PollDecision::Exhausted { latest: seen } => return (attempt, waited, Err(seen)),
        }
    }
    panic!("the polls ran out before the poller stopped");
}

#[test]
fn digest_change_is_seen_on_the_third_poll() {
    let mode = PollMode::Change(md5("a"));
    let (attempts, waited, outcome) = poll_all(&mode, vec![Some(md5("a")), Some(md5("a")), Some(md5("b"))]);
    assert_eq!(attempts, 3);
    assert_eq!(waited, 10);
    assert_eq!(outcome.unwrap().md5_hash.as_deref(), Some("b"));
}

#[test]
fn unchanged_digest_with_identical_content_still_succeeds() {
    let mode = PollMode::Change(md5("0cc175b9c0f1b6a831c399e269772661"));
    let polls: Vec<_> = (0..12).map(|_| Some(md5("0cc175b9c0f1b6a831c399e269772661"))).collect();
    let (attempts, waited, outcome) = poll_all(&mode, polls);
    assert_eq!(attempts, 12);
    assert_eq!(waited, 55);
    let latest = outcome.unwrap_err();
    assert_eq!(latest.as_ref().unwrap().md5_hash.as_deref(), Some("0cc175b9c0f1b6a831c399e269772661"));
    let local = "0CC175B9C0F1B6A831C399E269772661".to_string();
    assert!(conclude_change(md5("0cc175b9c0f1b6a831c399e269772661"), latest, local).is_ok());
}

#[test]
fn unchanged_digest_with_other_content_is_a_mismatch() {
    let mode = PollMode::Change(md5("aaa"));
    let polls: Vec<_> = (0..12).map(|_| Some(md5("aaa"))).collect();
    let (_, _, outcome) = poll_all(&mode, polls);
    let e = conclude_change(md5("aaa"), outcome.unwrap_err(), "bbb".to_string()).unwrap_err();
    assert_eq!(e.seconds, 60);
    assert_eq!(e.local_md5, "bbb");
    assert_eq!(e.remote_md5.as_deref(), Some("aaa"));
    assert_eq!(
        e.message(),
        "Upload completed but Jamf digest metadata did not update after 60 seconds and the remote MD5 (aaa) does not match the local file MD5 (bbb). Previous digest: md5=aaa, hash=unknown unknown, file_size=unknown. Latest digest: md5=aaa, hash=unknown unknown, file_size=unknown."
    );
}

#[test]
fn mismatch_without_any_remote_digest() {
    let e = conclude_change(md5("aaa"), None, "bbb".to_string()).unwrap_err();
    assert_eq!(e.remote_md5, None);
    assert_eq!(
        e.message(),
        "Upload completed but Jamf digest metadata did not update after 60 seconds and the remote MD5 (unavailable) does not match the local file MD5 (bbb). Previous digest: md5=aaa, hash=unknown unknown, file_size=unknown. Latest digest: unavailable."
    );
}

#[test]
fn unavailable_polls_keep_the_last_digest_seen() {
    let mode = PollMode::Change(md5("a"));
    let d = decide_poll(&mode, 4, Some(md5("a")), None);
    match d {
        PollDecision::Wait { seconds, next_attempt, latest } => {
            assert_eq!(seconds, 5);
            assert_eq!(next_attempt, 5);
            assert_eq!(latest.unwrap().md5_hash.as_deref(), Some("a"));
        }
        _ => panic!("expected a wait"),
    }
    assert!(matches!(decide_poll(&mode, 12, None, None), PollDecision::Exhausted { latest: None }));
    assert!(matches!(decide_poll(&mode, 11, None, None), PollDecision::Wait { .. }));
}

#[test]
fn availability_waits_for_a_checksum() {
    let size_only = PackageDigestSnapshot { md5_hash: None, hash_type: None, hash_value: None, file_size: Some(3) };
    let (attempts, waited, outcome) =
        poll_all(&PollMode::Availability, vec![None, Some(size_only.clone()), Some(md5("abc"))]);
    assert_eq!(attempts, 3);
    assert_eq!(waited, 10);
    assert_eq!(outcome.unwrap().md5_hash.as_deref(), Some("abc"));

    let polls: Vec<_> = (0..12).map(|_| Some(size_only.clone())).collect();
    let (attempts, _, outcome) = poll_all(&PollMode::Availability, polls);
    assert_eq!(attempts, 12);
    let e = conclude_availability(outcome.unwrap_err());
    assert_eq!(e.seconds, 60);
    assert_eq!(
        e.message(),
        "Upload completed but Jamf digest fields remained incomplete after 60 seconds. Latest digest: md5=unknown, hash=unknown unknown, file_size=3."
    );
    assert_eq!(
        conclude_availability(None).message(),
        "Upload completed but Jamf digest metadata remained unavailable after 60 seconds."
    );
}

#[test]
fn payload_match_ignores_case_only() {
    assert!(payload_matches(&Some("ABCDEF".to_string()), "abcdef"));
    assert!(!payload_matches(&Some("abcdef".to_string()), "abcde0"));
    assert!(!payload_matches(&None, "abcdef"));
}

fn steps(mut w: Workflow, events: Vec<Event>) -> Vec<Step> {
    let mut seen = vec![w.step];
    for e in events {
        w = w.advance(e).expect("the event fits the step");
        seen.push(w.step);
    }
    seen
}

#[test]
fn validation_before_any_step() {
    assert!(matches!(Workflow::begin("pkg", true), Ok(Workflow { step: Step::LoadCredentials, is_new: false, previous: None })));
    assert!(Workflow::begin("dmg", true).is_ok());
    assert!(Workflow::begin("PKG", true).is_ok());
    assert!(Workflow::begin("Dmg", true).is_ok());
    match Workflow::begin("ZIP", true) {
        Err(ValidationError::UnsupportedExtension(e)) => assert_eq!(e, "zip"),
        _ => panic!("expected an unsupported extension"),
    }
    assert!(matches!(Workflow::begin("", false), Err(ValidationError::UnsupportedExtension(_))));
    assert!(matches!(Workflow::begin("pkg", false), Err(ValidationError::FileNotFound)));
    assert!(matches!(Workflow::begin_lowered("PKG".to_string(), true), Err(ValidationError::UnsupportedExtension(_))));
}

#[test]
fn new_package_is_created_and_uploaded() {
    let w = Workflow::begin("pkg", true).unwrap();
    let seen = steps(
        w,
        vec![
            Event::Completed,
            Event::Completed,
            Event::PackageAbsent,
            Event::Completed,
            Event::Completed,
            Event::Completed,
            Event::Completed,
        ],
    );
    assert_eq!(
        seen,
        vec![
            Step::LoadCredentials,
            Step::Authenticate,
            Step::FindPackage,
            Step::CreatePackage,
            Step::UploadFile,
            Step::TriggerReindex,
            Step::AwaitAvailability,
            Step::ReportCreated,
        ]
    );
}

#[test]
fn unchanged_payload_exits_before_any_write() {
    let w = Workflow::begin("pkg", true).unwrap();
    let seen = steps(
        w,
        vec![
            Event::Completed,
            Event::Completed,
            Event::PackageFound,
            Event::DigestRead(Some(md5("900150983CD24FB0D6963F7D28E17F72"))),
            Event::LocalHash("900150983cd24fb0d6963f7d28e17f72".to_string()),
        ],
    );
    assert_eq!(
        seen,
        vec![
            Step::LoadCredentials,
            Step::Authenticate,
            Step::FindPackage,
            Step::ReadDigest,
            Step::HashLocalFile,
            Step::ReportUpToDate,
        ]
    );
    assert!(!seen.contains(&Step::UpdateMetadata));
    assert!(!seen.contains(&Step::UploadFile));
}

#[test]
fn changed_payload_runs_the_whole_pipeline() {
    let w = Workflow::begin("dmg", true).unwrap();
    let seen = steps(
        w,
        vec![
            Event::Completed,
            Event::Completed,
            Event::PackageFound,
            Event::DigestRead(Some(md5("aaa"))),
            Event::LocalHash("bbb".to_string()),
            Event::Completed,
            Event::Completed,
            Event::Completed,
            Event::Completed,
            Event::Completed,
        ],
    );
    assert_eq!(
        seen,
        vec![
            Step::LoadCredentials,
            Step::Authenticate,
            Step::FindPackage,
            Step::ReadDigest,
            Step::HashLocalFile,
            Step::ScanPolicies,
            Step::UpdateMetadata,
            Step::UploadFile,
            Step::TriggerReindex,
            Step::AwaitChange,
            Step::ReportUpdated,
        ]
    );
}

#[test]
fn existing_package_without_a_digest_waits_for_availability() {
    let w = Workflow::begin("pkg", true).unwrap();
    let seen = steps(
        w,
        vec![
            Event::Completed,
            Event::Completed,
            Event::PackageFound,
            Event::DigestRead(None),
            Event::Completed,
            Event::Completed,
            Event::Completed,
            Event::Completed,
            Event::Completed,
        ],
    );
    assert_eq!(seen[4], Step::ScanPolicies);
    assert_eq!(seen[8], Step::AwaitAvailability);
    assert_eq!(seen[9], Step::ReportUpdated);
}

#[test]
fn events_that_do_not_fit_are_refused() {
    let w = Workflow::begin("pkg", true).unwrap();
    assert!(w.advance(Event::PackageFound).is_none());
    let done = Workflow { step: Step::ReportUpdated, is_new: false, previous: None };
    assert!(done.is_finished());
    assert!(done.advance(Event::Completed).is_none());
    let w = Workflow { step: Step::FindPackage, is_new: false, previous: None };
    assert!(!w.is_finished());
    assert!(w.advance(Event::Completed).is_none());
}

#[test]
fn replayed_polls_agree_with_single_decisions() {
    let mode = PollMode::Change(md5("a"));
    let report = replay_poll(&mode, vec![Some(md5("a")), None, Some(md5("b")), Some(md5("c"))]).unwrap();
    assert_eq!(report.attempts, 3);
    assert_eq!(report.waited_seconds, 10);
    assert_eq!(report.outcome.unwrap().md5_hash.as_deref(), Some("b"));

    let unchanged: Vec<_> = (0..12).map(|i| if i == 11 { None } else { Some(md5("a")) }).collect();
    let report = replay_poll(&mode, unchanged).unwrap();
    assert_eq!(report.attempts, 12);
    assert_eq!(report.waited_seconds, 55);
    assert_eq!(report.outcome.unwrap_err().unwrap().md5_hash.as_deref(), Some("a"));

    let too_few: Vec<_> = (0..11).map(|_| Some(md5("a"))).collect();
    assert!(replay_poll(&mode, too_few).is_none());
    assert!(replay_poll(&PollMode::Availability, vec![]).is_none());

    let never: Vec<_> = (0..20).map(|_| None).collect();
    let report = replay_poll(&PollMode::Availability, never).unwrap();
    assert_eq!(report.attempts, 12);
    assert!(report.outcome.unwrap_err().is_none());
}

#[test]
fn final_reports() {
    let created = Workflow { step: Step::ReportCreated, is_new: true, previous: None };
    assert_eq!(
        created.report("Demo", "42").unwrap(),
        "Package 'Demo' (ID: 42) created and uploaded successfully."
    );
    let updated = Workflow { step: Step::ReportUpdated, is_new: false, previous: None };
    assert_eq!(updated.report("Demo", "42").unwrap(), "Package 'Demo' (ID: 42) updated successfully.");
    let same = Workflow { step: Step::ReportUpToDate, is_new: false, previous: Some(md5("a")) };
    assert_eq!(
        same.report("Demo", "42").unwrap(),
        "Package 'Demo' (ID: 42) is already up to date. Skipping update."
    );
    let running = Workflow { step: Step::UploadFile, is_new: false, previous: None };
    assert!(running.report("Demo", "42").is_none());
}

#[test]
fn validation_messages() {
    let e = Workflow::begin("TXT", true).unwrap_err();
    assert_eq!(e.message("/tmp/demo.TXT"), "File must be a .pkg or .dmg (got .txt)");
    let e = Workflow::begin("pkg", false).unwrap_err();
    assert_eq!(e.message("/tmp/demo.pkg"), "File not found: /tmp/demo.pkg");
    let e = Workflow::begin("", true).unwrap_err();
    assert_eq!(e.message("/tmp/demo"), "File must be a .pkg or .dmg (got .)");
}

#[test]
fn new_package_end_to_end() {
    // The search finds nothing, the package is created with the id 42, the upload
    // succeeds at once, and the first digest that carries a checksum ends the wait.
    let mut w = Workflow::begin("pkg", true).unwrap();
    for e in [Event::Completed, Event::Completed, Event::PackageAbsent] {
        w = w.advance(e).unwrap();
    }
    assert_eq!(w.step, Step::CreatePackage);
    assert!(w.is_new);
    w = w.advance(Event::Completed).unwrap();
    assert_eq!(w.step, Step::UploadFile);
    let upload = replay_upload(&vec![response(200, "")]).unwrap();
    assert!(upload.outcome.is_ok());
    w = w.advance(Event::Completed).unwrap();
    w = w.advance(Event::Completed).unwrap();
    assert_eq!(w.step, Step::AwaitAvailability);
    let poll = replay_poll(&PollMode::Availability, vec![None, Some(md5("abc"))]).unwrap();
    assert_eq!(poll.attempts, 2);
    assert!(poll.outcome.is_ok());
    w = w.advance(Event::Completed).unwrap();
    assert!(w.is_finished());
    assert!(w.report("Demo", "42").unwrap().contains("created and uploaded"));
}

#[test]
fn every_failure_has_a_kind_and_one_line() {
    let e = UpdateError::Validation {
        error: Workflow::begin("zip", true).unwrap_err(),
        path: "/tmp/demo.zip".to_string(),
    };
    assert_eq!(e.kind(), ErrorKind::Validation);
    assert_eq!(e.message(), "File must be a .pkg or .dmg (got .zip)");

    let refused = |operation| {
        UpdateError::Remote(
            accept(operation, Response { status: 403, body: "no".to_string() }).unwrap_err(),
        )
    };
    assert_eq!(refused(Operation::Authenticate).kind(), ErrorKind::Authentication);
    assert_eq!(refused(Operation::UpdatePackage).kind(), ErrorKind::MetadataUpdate);
    assert_eq!(refused(Operation::UploadFile).kind(), ErrorKind::Upload);
    assert_eq!(refused(Operation::ReadPolicy).kind(), ErrorKind::PolicyScan);
    assert_eq!(refused(Operation::FindPackage).kind(), ErrorKind::Service);
    assert_eq!(refused(Operation::TriggerReindex).kind(), ErrorKind::Service);
    assert_eq!(
        refused(Operation::UpdatePackage).message(),
        "Failed to update package metadata (HTTP 403): no"
    );

    let upload = replay_upload(&vec![response(413, "too large")]).unwrap().outcome.unwrap_err();
    let e = UpdateError::Upload(upload);
    assert_eq!(e.kind(), ErrorKind::Upload);
    assert_eq!(e.message(), "Failed to upload package (HTTP 413): too large");

    let e = UpdateError::ConvergenceTimeout(conclude_availability(None));
    assert_eq!(e.kind(), ErrorKind::ConvergenceTimeout);
    assert_eq!(
        e.message(),
        "Upload completed but Jamf digest metadata remained unavailable after 60 seconds."
    );

    let e = UpdateError::ContentMismatch(
        conclude_change(md5("a"), Some(md5("a")), "b".to_string()).unwrap_err(),
    );
    assert_eq!(e.kind(), ErrorKind::ContentMismatch);
    assert!(e.message().contains("remote MD5 (a)"));
    assert!(e.message().contains("local file MD5 (b)"));

    let e = UpdateError::UnreadableAnswer {
        operation: Operation::ReadDigest,
        cause: PackageDigestSnapshot::from_body("<html>").unwrap_err(),
    };
    assert_eq!(e.kind(), ErrorKind::Service);
    assert_eq!(e.message(), "Failed to read package details: the answer is not a JSON document");
}

#[test]
fn policy_scan_failure_names_the_policy() {
    let scanned = vec![ScannedPolicy {
        policy: PolicySummary { id: -5, name: "Odd".to_string() },
        fetched: Fetched::Refused { status: 500, body: "boom".to_string() },
    }];
    let e = UpdateError::PolicyScan(find_policies_with_package(&scanned, "Demo", "demo.pkg").unwrap_err());
    assert_eq!(e.kind(), ErrorKind::PolicyScan);
    assert_eq!(e.message(), "Failed to fetch policy -5 (HTTP 500): boom");
}
