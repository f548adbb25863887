//! Classification of request failures and the bounded-backoff retry policy.
//!
//! A failed attempt to reach the chat-completion service is classified into a
//! small set of categories; the classification alone decides whether the
//! request is sent again.  Up to three retries follow the first attempt, with
//! delays of 1s, 2s and 4s before them.  The policy itself is a pure decision
//! function from the number of retries already taken and the outcome of the
//! last attempt; the host drives the network loop with it.

use vstd::prelude::*;

verus! {

/// Retry-relevant category of a failure.
#[derive(Debug, Clone, Copy, PartialEq, Eq, Structural)]
pub enum ErrorCategory {
    Authentication,
    RateLimit,
    Network,
    Server,
    InvalidRequest,
    Unknown,
}

/// A failure signal: either an HTTP status code, or a transport-level fault.
#[derive(Debug, Clone, Copy, PartialEq, Eq, Structural)]
pub enum FailureSignal {
    /// The service answered with this HTTP status code.
    Status(u16),
    /// The request timed out.
    Timeout,
    /// The connection could not be established.
    ConnectFailure,
    /// Any other transport-level fault.
    TransportOther,
}

/// The category of an HTTP status code: 401 and 403 are authentication
/// failures, 429 is rate limiting, any other 4xx is an invalid request,
/// any 5xx is a server fault, and everything else is unknown.
pub open spec fn spec_from_status(status: u16) -> ErrorCategory {
    if status == 401 || status == 403 {
        ErrorCategory::Authentication
    } else if status == 429 {
        ErrorCategory::RateLimit
    } else if 400 <= status && status < 500 {
        ErrorCategory::InvalidRequest
    } else if 500 <= status && status < 600 {
        ErrorCategory::Server
    } else {
        ErrorCategory::Unknown
    }
}

/// The category of a failure signal: status codes go by `spec_from_status`;
/// timeouts and connection failures are network faults; any other transport
/// fault is unknown.
pub open spec fn spec_classify(sig: FailureSignal) -> ErrorCategory {
    match sig {
        FailureSignal::Status(status) => spec_from_status(status),
        FailureSignal::Timeout => ErrorCategory::Network,
        FailureSignal::ConnectFailure => ErrorCategory::Network,
        FailureSignal::TransportOther => ErrorCategory::Unknown,
    }
}

impl ErrorCategory {
    /// Classify an HTTP status code.  Total: every code gets a category.
    pub fn from_status(status: u16) -> (c: ErrorCategory)
        ensures
            c == spec_from_status(status),
    {
        if status == 401 || status == 403 {
            ErrorCategory::Authentication
        } else if status == 429 {
            ErrorCategory::RateLimit
        } else if 400 <= status && status < 500 {
            ErrorCategory::InvalidRequest
        } else if 500 <= status && status < 600 {
            ErrorCategory::Server
        } else {
            ErrorCategory::Unknown
        }
    }

    /// Classify a failure signal.  Total: every signal gets a category.
    pub fn from_signal(sig: &FailureSignal) -> (c: ErrorCategory)
        ensures
            c == spec_classify(*sig),
    {
        match sig {
            FailureSignal::Status(status) => ErrorCategory::from_status(*status),
            FailureSignal::Timeout => ErrorCategory::Network,
            FailureSignal::ConnectFailure => ErrorCategory::Network,
            FailureSignal::TransportOther => ErrorCategory::Unknown,
        }
    }
}

/// Retries happen only on rate limiting, server faults and network faults.
pub open spec fn retryable(c: ErrorCategory) -> bool {
    c is RateLimit || c is Server || c is Network
}

/// Whether a failure of this category is worth another attempt.
pub fn should_retry(c: &ErrorCategory) -> (r: bool)
    ensures
        r == retryable(*c),
{
    match c {
        ErrorCategory::RateLimit => true,
        ErrorCategory::Server => true,
        ErrorCategory::Network => true,
        _ => false,
    }
}

/// Retries beyond the first attempt are bounded by this count.
pub const MAX_RETRIES: u32 = 3;

/// The delay in milliseconds before retry number `retry` (counting from 1):
/// pure exponential backoff starting at one second, with no jitter.
pub open spec fn backoff_ms(retry: nat) -> nat
    decreases retry,
{
    if retry <= 1 {
        1000
    } else {
        2 * backoff_ms((retry - 1) as nat)
    }
}

/// The first three backoff delays are 1s, 2s and 4s.
pub proof fn lemma_backoff_values()
    ensures
        backoff_ms(1) == 1000,
        backoff_ms(2) == 2000,
        backoff_ms(3) == 4000,
{
    assert(backoff_ms(1) == 1000);
    assert(backoff_ms(2) == 2 * backoff_ms(1));
    assert(backoff_ms(3) == 2 * backoff_ms(2));
}

/// The delay in milliseconds before retry number `retry` (counting from 1).
pub fn backoff_delay_ms(retry: u32) -> (d: u64)
    requires
        1 <= retry <= MAX_RETRIES,
    ensures
        d == backoff_ms(retry as nat),
{
    proof {
        lemma_backoff_values();
    }
    if retry == 1 {
        1000
    } else if retry == 2 {
        2000
    } else {
        4000
    }
}

/// What one attempt produced: an HTTP response of some status, or a
/// transport error before any response arrived.
#[derive(Debug, Clone, Copy, PartialEq, Eq, Structural)]
pub enum AttemptOutcome {
    /// The service answered; the body (if any) is handled by the caller.
    Response { status: u16 },
    /// The transport failed, with the two retry-relevant fault flags.
    TransportError { timeout: bool, connect: bool },
}

/// The failure signal carried by an attempt's outcome.  A response is
/// signalled by its status code, whatever it was; a transport error by
/// whichever fault flag is set.
pub open spec fn outcome_signal(o: AttemptOutcome) -> FailureSignal {
    match o {
        AttemptOutcome::Response { status } => FailureSignal::Status(status),
        AttemptOutcome::TransportError { timeout, connect } => if timeout {
            FailureSignal::Timeout
        } else if connect {
            FailureSignal::ConnectFailure
        } else {
            FailureSignal::TransportOther
        },
    }
}

/// The failure signal carried by an attempt's outcome.
pub fn signal_of(o: &AttemptOutcome) -> (s: FailureSignal)
    ensures
        s == outcome_signal(*o),
{
    match o {
        AttemptOutcome::Response { status } => FailureSignal::Status(*status),
        AttemptOutcome::TransportError { timeout, connect } => {
            if *timeout {
                FailureSignal::Timeout
            } else if *connect {
                FailureSignal::ConnectFailure
            } else {
                FailureSignal::TransportOther
            }
        },
    }
}

/// What the retry loop does after an attempt: stop and surface the outcome,
/// or sleep for the given delay and send again.
#[derive(Debug, Clone, Copy, PartialEq, Eq, Structural)]
pub enum RetryDecision {
    /// Surface this outcome to the caller.
    Finish,
    /// Sleep this many milliseconds, then send the request again.
    RetryAfter { delay_ms: u64 },
}

/// The policy's decision after an attempt, given how many retries were
/// already taken: retry exactly when the outcome classifies as retryable
/// and fewer than `MAX_RETRIES` retries have happened, with exponential
/// backoff; in every other case the outcome is surfaced.  A successful
/// status (2xx) never classifies as retryable, so it always finishes.
pub open spec fn spec_decide(retries_done: nat, o: AttemptOutcome) -> RetryDecision {
    if retryable(spec_classify(outcome_signal(o))) && retries_done < MAX_RETRIES {
        RetryDecision::RetryAfter { delay_ms: backoff_ms((retries_done + 1) as nat) as u64 }
    } else {
        RetryDecision::Finish
    }
}

/// Decide what the retry loop does after an attempt.  `retries_done` is the
/// number of retries already taken (0 on the first attempt).
pub fn decide(retries_done: u32, outcome: &AttemptOutcome) -> (d: RetryDecision)
    ensures
        d == spec_decide(retries_done as nat, *outcome),
{
    proof {
        lemma_backoff_values();
    }
    let sig = signal_of(outcome);
    let c = ErrorCategory::from_signal(&sig);
    if should_retry(&c) && retries_done < MAX_RETRIES {
        RetryDecision::RetryAfter { delay_ms: backoff_delay_ms(retries_done + 1) }
    } else {
        RetryDecision::Finish
    }
}

/// Number of attempts a run makes, given the outcome each send would
/// produce: attempt `i` is the last exactly when the policy decides to
/// finish after it.  Where the trace is too short to reach a finishing
/// decision the result is `outcomes.len() + 1`, which no complete run has.
pub open spec fn attempts_rec(outcomes: Seq<AttemptOutcome>, i: nat) -> nat
    decreases outcomes.len() - i,
{
    if i >= outcomes.len() {
        outcomes.len() + 1
    } else if spec_decide(i, outcomes[i as int]) is Finish {
        i + 1
    } else {
        attempts_rec(outcomes, i + 1)
    }
}

/// Number of sends a run over this outcome trace makes.
pub open spec fn attempts_used(outcomes: Seq<AttemptOutcome>) -> nat {
    attempts_rec(outcomes, 0)
}

/// A trace is complete when it is long enough for the run to reach a
/// finishing decision.
pub open spec fn trace_complete(outcomes: Seq<AttemptOutcome>) -> bool {
    attempts_used(outcomes) <= outcomes.len()
}

/// The delays slept between the attempts, from attempt `i` on.
pub open spec fn delays_rec(outcomes: Seq<AttemptOutcome>, i: nat) -> Seq<u64>
    decreases outcomes.len() - i,
{
    if i >= outcomes.len() {
        Seq::empty()
    } else {
        match spec_decide(i, outcomes[i as int]) {
            RetryDecision::Finish => Seq::empty(),
            RetryDecision::RetryAfter { delay_ms } => seq![delay_ms] + delays_rec(outcomes, i + 1),
        }
    }
}

/// The delays slept between the attempts of a run over this trace.
pub open spec fn retry_delays(outcomes: Seq<AttemptOutcome>) -> Seq<u64> {
    delays_rec(outcomes, 0)
}

/// The outcome the run surfaces: that of its last attempt.
pub open spec fn final_outcome(outcomes: Seq<AttemptOutcome>) -> AttemptOutcome
    recommends
        trace_complete(outcomes),
{
    outcomes[attempts_used(outcomes) - 1]
}

/// From any attempt on, the run either runs out of trace or stops by the
/// attempt at index `MAX_RETRIES`, so it makes at most `i + 1` further
/// attempts past index `i` while `i` is below that bound.
proof fn lemma_attempts_rec_range(outcomes: Seq<AttemptOutcome>, i: nat)
    ensures
        attempts_rec(outcomes, i) == outcomes.len() + 1 || (i < attempts_rec(outcomes, i)
            <= outcomes.len()),
        attempts_rec(outcomes, i) == outcomes.len() + 1 || attempts_rec(outcomes, i) <= vstd::math::max(
            i as int,
            MAX_RETRIES as int,
        ) + 1,
    decreases outcomes.len() - i,
{
    if i >= outcomes.len() {
    } else if spec_decide(i, outcomes[i as int]) is Finish {
    } else {
        lemma_attempts_rec_range(outcomes, i + 1);
    }
}

/// A complete run makes at most four sends: the first attempt and at most
/// `MAX_RETRIES` retries.
pub proof fn lemma_attempts_at_most_four(outcomes: Seq<AttemptOutcome>)
    requires
        trace_complete(outcomes),
    ensures
        1 <= attempts_used(outcomes) <= 4,
{
    lemma_attempts_rec_range(outcomes, 0);
}

/// When every outcome among the first `MAX_RETRIES` classifies as
/// retryable, the run sends four times, sleeps 1s, 2s and 4s between the
/// attempts, and surfaces the fourth outcome, whatever it is.
pub proof fn lemma_retry_exhaustion(outcomes: Seq<AttemptOutcome>)
    requires
        outcomes.len() >= 4,
        forall|i: int|
            0 <= i < 3 ==> retryable(spec_classify(outcome_signal(#[trigger] outcomes[i]))),
    ensures
        attempts_used(outcomes) == 4,
        retry_delays(outcomes) == seq![1000u64, 2000u64, 4000u64],
        final_outcome(outcomes) == outcomes[3],
{
    lemma_backoff_values();
    assert(attempts_rec(outcomes, 3) == 4);
    assert(attempts_rec(outcomes, 2) == 4);
    assert(attempts_rec(outcomes, 1) == 4);
    assert(attempts_rec(outcomes, 0) == 4);
    assert(delays_rec(outcomes, 3) =~= Seq::<u64>::empty());
    assert(delays_rec(outcomes, 2) == seq![4000u64] + delays_rec(outcomes, 3));
    assert(delays_rec(outcomes, 1) == seq![2000u64] + delays_rec(outcomes, 2));
    assert(delays_rec(outcomes, 0) == seq![1000u64] + delays_rec(outcomes, 1));
    assert(retry_delays(outcomes) =~= seq![1000u64, 2000u64, 4000u64]);
}

/// When the first outcome does not classify as retryable (authentication,
/// invalid request, unknown, or any success), exactly one send happens, no
/// delay is slept, and that first outcome is surfaced.
pub proof fn lemma_no_retry(outcomes: Seq<AttemptOutcome>)
    requires
        outcomes.len() >= 1,
        !retryable(spec_classify(outcome_signal(outcomes[0]))),
    ensures
        attempts_used(outcomes) == 1,
        retry_delays(outcomes) == Seq::<u64>::empty(),
        final_outcome(outcomes) == outcomes[0],
{
    assert(retry_delays(outcomes) =~= Seq::<u64>::empty());
}

/// Replay the policy over a trace of outcomes, as the host's network loop
/// would experience it: returns how many sends happen, the delays slept
/// between them, and the surfaced outcome.
pub fn simulate_retries(outcomes: &Vec<AttemptOutcome>) -> (r: (usize, Vec<u64>, AttemptOutcome))
    requires
        trace_complete(outcomes@),
    ensures
        r.0 == attempts_used(outcomes@),
        r.1@ == retry_delays(outcomes@),
        r.2 == final_outcome(outcomes@),
{
    proof {
        lemma_attempts_at_most_four(outcomes@);
    }
    let mut i: usize = 0;
    let mut delays: Vec<u64> = Vec::new();
    loop
        invariant
            trace_complete(outcomes@),
            i <= MAX_RETRIES,
            i < outcomes@.len(),
            attempts_rec(outcomes@, i as nat) == attempts_used(outcomes@),
            delays@ + delays_rec(outcomes@, i as nat) == retry_delays(outcomes@),
        decreases MAX_RETRIES - i,
    {
        let o = outcomes[i];
        let d = decide(i as u32, &o);
        match d {
            RetryDecision::Finish => {
                assert(attempts_used(outcomes@) == i + 1);
                assert(delays@ + delays_rec(outcomes@, i as nat) =~= delays@);
                assert(delays@ == retry_delays(outcomes@));
                return (i + 1, delays, o);
            },
            RetryDecision::RetryAfter { delay_ms } => {
                delays.push(delay_ms);
                proof {
                    lemma_attempts_rec_range(outcomes@, (i + 1) as nat);
                    assert(delays@ + delays_rec(outcomes@, (i + 1) as nat) =~= retry_delays(
                        outcomes@,
                    ));
                }
                i = i + 1;
            },
        }
    }
}

} // verus!
