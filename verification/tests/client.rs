use libwindi::client::{
    classify_status, decode_batch, next_cursor, pull_request_body, pull_step, run_pull, Attempt,
    Backoff, ClientConfig, RawEntryOutcome, RawLogEntryWithSeq, StatusClass, Step,
};
use libwindi::error::SyncError;
use libwindi::types::{LogContent, LogEntry};

fn raw(seq: &str, value: &str, parsed: Option<LogEntry>) -> RawEntryOutcome {
    RawEntryOutcome {
        raw: RawLogEntryWithSeq { seq: seq.to_string(), value: value.to_string() },
        parsed,
    }
}

fn sample_event(ts: u64) -> LogEntry {
    LogEntry {
        ts,
        data: LogContent::UserSyncCreateToken { user: "someone".to_string(), token_ts: ts },
    }
}

#[test]
fn status_classes() {
    assert_eq!(classify_status(200), StatusClass::Success);
    assert_eq!(classify_status(204), StatusClass::Success);
    assert_eq!(classify_status(400), StatusClass::Permanent);
    assert_eq!(classify_status(404), StatusClass::Permanent);
    assert_eq!(classify_status(499), StatusClass::Permanent);
    assert_eq!(classify_status(500), StatusClass::Transient);
    assert_eq!(classify_status(503), StatusClass::Transient);
    assert_eq!(classify_status(302), StatusClass::Transient);
}

#[test]
fn client_rejection_is_immediate_and_final() {
    let run = run_pull(vec![
        Attempt::Status(403, "denied".to_string()),
        Attempt::Network,
        Attempt::Batch(vec![]),
    ]);
    assert_eq!(run.attempts_used, 1);
    assert!(run.delays.is_empty());
    assert_eq!(
        run.result,
        Some(Err(SyncError::ClientRejected(403, "denied".to_string())))
    );
}

#[test]
fn transient_errors_retry_until_success() {
    let run = run_pull(vec![
        Attempt::Status(500, "boom".to_string()),
        Attempt::Network,
        Attempt::BadBody,
        Attempt::Batch(vec![raw("01", "junk", None)]),
    ]);
    assert_eq!(run.attempts_used, 4);
    assert_eq!(run.delays, vec![500, 750, 1125]);
    for w in run.delays.windows(2) {
        assert!(w[0] < w[1]);
    }
    match run.result {
        Some(Ok(batch)) => {
            assert_eq!(batch.len(), 1);
            assert_eq!(batch[0].seq, 1);
            assert_eq!(batch[0].log, Err("junk".to_string()));
        }
        other => panic!("expected a batch, got {:?}", other),
    }
}

#[test]
fn retries_exhaust_once_the_budget_is_spent() {
    let attempts: Vec<Attempt> = (0..40).map(|_| Attempt::Network).collect();
    let run = run_pull(attempts);
    assert_eq!(run.result, Some(Err(SyncError::RetriesExhausted)));
    assert_eq!(run.attempts_used, run.delays.len() + 1);
    assert!(run.attempts_used < 40);
    let total: u64 = run.delays.iter().sum();
    assert!(total <= 900000);
    for w in run.delays.windows(2) {
        assert!(w[0] <= w[1]);
        assert!(w[1] <= 60000);
        if w[0] < 60000 {
            assert!(w[0] < w[1]);
        }
    }
}

#[test]
fn malformed_payload_degrades_only_its_entry() {
    let batch = decode_batch(vec![
        raw("01", "{\"ts\":1}", Some(sample_event(1))),
        raw("02", "not json at all", None),
        raw("03", "{\"ts\":3}", Some(sample_event(3))),
    ])
    .unwrap();
    assert_eq!(batch.len(), 3);
    assert_eq!(batch[0].log, Ok(sample_event(1)));
    assert_eq!(batch[1].log, Err("not json at all".to_string()));
    assert_eq!(batch[2].log, Ok(sample_event(3)));
    assert_eq!(batch[0].seq, 1);
    assert_eq!(batch[1].seq, 2);
    assert_eq!(batch[2].seq, 3);
}

#[test]
fn malformed_wire_cursor_fails_the_pull() {
    let mut b = Backoff::new();
    let r = pull_step(&mut b, Attempt::Batch(vec![raw("xyz", "{}", None)]));
    assert_eq!(r, Step::Fail(SyncError::MalformedCursor));
}

#[test]
fn structured_batch_advances_cursor() {
    let ev = sample_event(1);
    let run = run_pull(vec![Attempt::Batch(vec![raw(
        "00000000000000000000000000000001",
        "{\"ts\":1,\"data\":{\"type\":\"user_sync_create_token\",\"user\":\"someone\",\"tokenTs\":1}}",
        Some(ev.clone()),
    )])]);
    assert_eq!(run.attempts_used, 1);
    let batch = match run.result {
        Some(Ok(b)) => b,
        other => panic!("expected a batch, got {:?}", other),
    };
    assert_eq!(batch.len(), 1);
    assert_eq!(batch[0].seq, 1);
    assert_eq!(batch[0].log, Ok(ev));
    // the next pull starts one past the last entry
    assert_eq!(next_cursor(&batch), Some(2));
}

#[test]
fn empty_batch_means_caught_up() {
    let run = run_pull(vec![Attempt::Batch(vec![])]);
    assert_eq!(run.attempts_used, 1);
    let batch = match run.result {
        Some(Ok(b)) => b,
        other => panic!("expected a batch, got {:?}", other),
    };
    assert!(batch.is_empty());
    // no cursor to advance to: the driving loop stops here
    assert_eq!(next_cursor(&batch), None);
}

#[test]
fn request_body_is_canonical_fixed_width_json() {
    assert_eq!(
        pull_request_body(1),
        "{\"fromSeq\":\"00000000000000000000000000000001\"}"
    );
    assert_eq!(
        pull_request_body(0xdeadbeef),
        "{\"fromSeq\":\"000000000000000000000000deadbeef\"}"
    );
}

#[test]
fn pull_url_appends_endpoint_path() {
    let cfg = ClientConfig {
        url: Some("http://localhost:8080".to_string()),
        token: "t".to_string(),
    };
    assert_eq!(cfg.pull_url(), "http://localhost:8080/api/v1/sync/pull");
    let cfg = ClientConfig { url: None, token: "t".to_string() };
    assert_eq!(cfg.pull_url(), "https://bluebird.ink/api/v1/sync/pull");
}

#[test]
fn token_must_form_a_valid_header_value() {
    let ok = ClientConfig { url: None, token: "abcDEF123-._~+/=".to_string() };
    assert_eq!(ok.validate(), Ok(()));
    let tab = ClientConfig { url: None, token: "with\ttab".to_string() };
    assert_eq!(tab.validate(), Ok(()));
    let newline = ClientConfig { url: None, token: "bad\ntoken".to_string() };
    assert_eq!(newline.validate(), Err(SyncError::InvalidCredential));
    let ctl = ClientConfig { url: None, token: "bad\u{1}token".to_string() };
    assert_eq!(ctl.validate(), Err(SyncError::InvalidCredential));
}
