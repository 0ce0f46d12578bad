use speech_backend::synthesis::{
    next_step, AttemptFailure, AttemptOutcome, RetryStep, SynthesisConfig, SynthesisError,
    DEFAULT_VOICE, MAX_ATTEMPTS, TTS_MODEL,
};

fn run(upstream: Vec<AttemptOutcome>) -> (Result<Vec<u8>, SynthesisError>, usize) {
    let mut attempts = 0usize;
    let mut upstream = upstream.into_iter();
    let mut attempt: u8 = 1;
    loop {
        attempts += 1;
        let outcome = upstream.next().expect("upstream ran out");
        match next_step(attempt, outcome) {
            RetryStep::Retry(_) => attempt += 1,
            RetryStep::Done(r) => return (r, attempts),
        }
    }
}

fn request_failure(cause: &str) -> AttemptOutcome {
    AttemptOutcome::Failed(AttemptFailure::Request { cause: cause.to_string() })
}

#[test]
fn one_failure_then_success_takes_two_attempts() {
    let (r, attempts) = run(vec![request_failure("timeout"), AttemptOutcome::Audio(vec![1, 2, 3])]);
    assert_eq!(r.unwrap(), vec![1, 2, 3]);
    assert_eq!(attempts, 2);
}

#[test]
fn two_failures_fail_naming_attempt_two() {
    let (r, attempts) = run(vec![
        request_failure("timeout"),
        AttemptOutcome::Failed(AttemptFailure::Status {
            status: "500 Internal Server Error".to_string(),
            body: "oops".to_string(),
        }),
        AttemptOutcome::Audio(vec![9]),
    ]);
    assert_eq!(attempts, 2);
    let err = r.unwrap_err();
    assert!(matches!(err, SynthesisError::Attempt { attempt: 2, .. }));
    assert_eq!(err.message(), "TTS request failed (attempt #2): 500 Internal Server Error - oops");
    assert!(err.message().contains("attempt #2"));
}

#[test]
fn first_success_takes_one_attempt() {
    let (r, attempts) = run(vec![AttemptOutcome::Audio(vec![7])]);
    assert_eq!(r.unwrap(), vec![7]);
    assert_eq!(attempts, 1);
    assert_eq!(MAX_ATTEMPTS, 2);
}

#[test]
fn first_failure_is_retried() {
    match next_step(1, request_failure("reset")) {
        RetryStep::Retry(e) => assert_eq!(e.message(), "Request error (attempt #1): reset"),
        other => panic!("expected a retry, got {:?}", other),
    }
}

#[test]
fn unreadable_body_on_last_attempt_fails() {
    let outcome = AttemptOutcome::Failed(AttemptFailure::Body { cause: "eof".to_string() });
    match next_step(2, outcome) {
        RetryStep::Done(Err(e)) => {
            assert_eq!(e.message(), "Unable to read TTS response bytes (attempt #2): eof")
        }
        other => panic!("expected a failure, got {:?}", other),
    }
}

#[test]
fn missing_key_is_fatal() {
    let err = SynthesisConfig::new(None, DEFAULT_VOICE.to_string()).unwrap_err();
    assert!(matches!(err, SynthesisError::MissingApiKey));
    assert_eq!(err.message(), "Missing OPENAI_API_KEY environment variable");
    let cfg = SynthesisConfig::new(Some("k".to_string()), "onyx".to_string()).unwrap();
    assert_eq!(cfg.api_key, "k");
    assert_eq!(cfg.voice, "onyx");
    assert_eq!(cfg.model, TTS_MODEL);
    assert_eq!(TTS_MODEL, "tts-1");
}
