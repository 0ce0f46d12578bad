//! Decisions of the speech synthesis client: at most two attempts per chunk,
//! one retry on any failure of the first, and a descriptive error naming the
//! attempt that failed last. The caller performs each attempt and reports
//! what happened; this module says what to do next.
use crate::text::{decimal, decimal_spec};
use vstd::prelude::*;

verus! {

/// How many attempts a chunk gets in total.
pub const MAX_ATTEMPTS: u8 = 2;

/// The speech model asked for.
pub const TTS_MODEL: &'static str = "tts-1";

/// The endpoint of the speech API.
pub const TTS_ENDPOINT: &'static str = "https://api.openai.com/v1/audio/speech";

/// The voice used for every request.
pub const DEFAULT_VOICE: &'static str = "onyx";

/// What went wrong in one attempt.
#[derive(Debug, Clone)]
pub enum AttemptFailure {
    /// The request could not be sent or no response came back.
    Request { cause: String },
    /// The service answered with a non-success status and this body text.
    Status { status: String, body: String },
    /// The status was a success but the body could not be read.
    Body { cause: String },
}

/// What one attempt produced.
#[derive(Debug, Clone)]
pub enum AttemptOutcome {
    Failed(AttemptFailure),
    Audio(Vec<u8>),
}

/// Why synthesis of a chunk failed.
#[derive(Debug, Clone)]
pub enum SynthesisError {
    /// No API key is configured; nothing was sent.
    MissingApiKey,
    /// The attempt numbered `attempt` failed and no attempt is left.
    Attempt { attempt: u8, failure: AttemptFailure },
}

/// What the client does after an attempt.
#[derive(Debug)]
pub enum RetryStep {
    /// Make the next attempt; the failure is reported for logging only.
    Retry(SynthesisError),
    /// Stop with this result.
    Done(Result<Vec<u8>, SynthesisError>),
}

/// The decision after attempt number `attempt` ended with `outcome`.
pub open spec fn step_spec(attempt: u8, outcome: AttemptOutcome) -> RetryStep {
    match outcome {
        AttemptOutcome::Audio(bytes) => RetryStep::Done(Ok(bytes)),
        AttemptOutcome::Failed(failure) => {
            let err = SynthesisError::Attempt { attempt, failure };
            if attempt < MAX_ATTEMPTS {
                RetryStep::Retry(err)
            } else {
                RetryStep::Done(Err(err))
            }
        },
    }
}

/// Running the client against an upstream whose successive attempts end
/// with `outcomes`, starting at attempt number `attempt`: the result and the
/// number of attempts made, or `None` if the upstream ran out first.
pub open spec fn run_spec(outcomes: Seq<AttemptOutcome>, attempt: u8) -> Option<
    (Result<Vec<u8>, SynthesisError>, nat),
>
    decreases outcomes.len(),
{
    if outcomes.len() == 0 {
        None
    } else {
        match step_spec(attempt, outcomes[0]) {
            RetryStep::Done(r) => Some((r, 1)),
            RetryStep::Retry(_) => match run_spec(outcomes.drop_first(), (attempt + 1) as u8) {
                Some((r, k)) => Some((r, k + 1)),
                None => None,
            },
        }
    }
}

/// Decides what follows attempt number `attempt` (counted from one).
pub fn next_step(attempt: u8, outcome: AttemptOutcome) -> (r: RetryStep)
    requires
        1 <= attempt <= MAX_ATTEMPTS,
    ensures
        r == step_spec(attempt, outcome),
{
    match outcome {
        AttemptOutcome::Audio(bytes) => RetryStep::Done(Ok(bytes)),
        AttemptOutcome::Failed(failure) => {
            let err = SynthesisError::Attempt { attempt, failure };
            if attempt < MAX_ATTEMPTS {
                RetryStep::Retry(err)
            } else {
                RetryStep::Done(Err(err))
            }
        },
    }
}

/// An upstream that fails once and then delivers audio gives that audio
/// after exactly two attempts.
pub proof fn retry_recovers_after_one_failure(
    first: AttemptFailure,
    bytes: Vec<u8>,
    rest: Seq<AttemptOutcome>,
)
    ensures
        run_spec(seq![AttemptOutcome::Failed(first), AttemptOutcome::Audio(bytes)] + rest, 1)
            == Some((Ok::<Vec<u8>, SynthesisError>(bytes), 2nat)),
{
    let s = seq![AttemptOutcome::Failed(first), AttemptOutcome::Audio(bytes)] + rest;
    assert(s[0] == AttemptOutcome::Failed(first));
    assert(s.drop_first()[0] == AttemptOutcome::Audio(bytes));
    assert(run_spec(s.drop_first(), 2) == Some((Ok::<Vec<u8>, SynthesisError>(bytes), 1nat)));
}

/// An upstream that fails twice makes the client fail after exactly two
/// attempts, with an error that names attempt two and its failure.
pub proof fn retry_gives_up_after_second_failure(
    first: AttemptFailure,
    second: AttemptFailure,
    rest: Seq<AttemptOutcome>,
)
    ensures
        run_spec(seq![AttemptOutcome::Failed(first), AttemptOutcome::Failed(second)] + rest, 1)
            == Some(
            (
                Err::<Vec<u8>, SynthesisError>(
                    SynthesisError::Attempt { attempt: 2, failure: second },
                ),
                2nat,
            ),
        ),
{
    let s = seq![AttemptOutcome::Failed(first), AttemptOutcome::Failed(second)] + rest;
    let err = SynthesisError::Attempt { attempt: 2, failure: second };
    assert(s[0] == AttemptOutcome::Failed(first));
    assert(s.drop_first()[0] == AttemptOutcome::Failed(second));
    assert(run_spec(s.drop_first(), 2) == Some((Err::<Vec<u8>, SynthesisError>(err), 1nat)));
}

/// Whatever the upstream does, an upstream that can answer twice sees at
/// most two attempts, and a finished run is never left undecided.
pub proof fn retry_is_bounded(outcomes: Seq<AttemptOutcome>)
    requires
        outcomes.len() >= 2,
    ensures
        run_spec(outcomes, 1) is Some,
        1 <= run_spec(outcomes, 1)->Some_0.1 <= 2,
{
    let rest = outcomes.drop_first();
    assert(rest[0] == outcomes[1]);
    assert(rest.len() > 0);
    match step_spec(1, outcomes[0]) {
        RetryStep::Done(_) => {},
        RetryStep::Retry(_) => {
            assert(step_spec(2, rest[0]) is Done);
            assert(run_spec(rest, 2) is Some && run_spec(rest, 2)->Some_0.1 == 1);
        },
    }
}

/// The human-readable text of a synthesis error.
pub open spec fn error_message(e: SynthesisError) -> Seq<char> {
    match e {
        SynthesisError::MissingApiKey => "Missing OPENAI_API_KEY environment variable"@,
        SynthesisError::Attempt { attempt, failure } => {
            let n = decimal_spec(attempt as nat);
            match failure {
                AttemptFailure::Request { cause } => "Request error (attempt #"@ + n + "): "@
                    + cause@,
                AttemptFailure::Status { status, body } => "TTS request failed (attempt #"@ + n
                    + "): "@ + status@ + " - "@ + body@,
                AttemptFailure::Body { cause } => "Unable to read TTS response bytes (attempt #"@
                    + n + "): "@ + cause@,
            }
        },
    }
}

impl SynthesisError {
    /// Describes the error, naming the attempt and its cause.
    pub fn message(&self) -> (r: String)
        ensures
            r@ == error_message(*self),
    {
        match self {
            SynthesisError::MissingApiKey => String::from_str(
                "Missing OPENAI_API_KEY environment variable",
            ),
            SynthesisError::Attempt { attempt, failure } => {
                let n = decimal(*attempt as u64);
                match failure {
                    AttemptFailure::Request { cause } => {
                        let r = String::from_str("Request error (attempt #");
                        r.concat(n.as_str()).concat("): ").concat(cause.as_str())
                    },
                    AttemptFailure::Status { status, body } => {
                        let r = String::from_str("TTS request failed (attempt #");
                        r.concat(n.as_str()).concat("): ").concat(status.as_str()).concat(
                            " - ",
                        ).concat(body.as_str())
                    },
                    AttemptFailure::Body { cause } => {
                        let r = String::from_str("Unable to read TTS response bytes (attempt #");
                        r.concat(n.as_str()).concat("): ").concat(cause.as_str())
                    },
                }
            },
        }
    }
}

/// What every synthesis request is made with. The key is handed in by the
/// caller rather than read from the process environment.
#[derive(Debug, Clone)]
pub struct SynthesisConfig {
    pub api_key: String,
    pub voice: String,
    pub model: String,
}

impl SynthesisConfig {
    /// A configuration for `voice`; a missing key is an error that no retry
    /// can mend.
    pub fn new(api_key: Option<String>, voice: String) -> (r: Result<
        SynthesisConfig,
        SynthesisError,
    >)
        ensures
            api_key is None ==> r is Err && r->Err_0 is MissingApiKey,
            api_key is Some ==> r is Ok && r->Ok_0.api_key == api_key->Some_0 && r->Ok_0.voice
                == voice && r->Ok_0.model@ == TTS_MODEL@,
    {
        match api_key {
            None => Err(SynthesisError::MissingApiKey),
            Some(key) => Ok(SynthesisConfig { api_key: key, voice, model: String::from_str(TTS_MODEL) }),
        }
    }
}

} // verus!
