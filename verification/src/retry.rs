//! Retry planning for one statement: transient-error
//! classification, capped exponential backoff, and the step machine
//! that decides after every attempt whether to succeed, fail, or
//! back off and try again.  The caller executes the attempts and the
//! sleeps; every decision in between is made here.

use vstd::prelude::*;
use vstd::string::*;
use crate::control::MaintenanceControl;
use crate::text::{contains_chars, dec_str, decimal_string, lower_chars, lower_seq, seq_contains,
    str_chars};
use crate::types::MaintenanceOptions;

verus! {

/// An error message is transient when its ASCII-lowered form
/// contains one of the retryable markers.
pub open spec fn transient_message(s: Seq<char>) -> bool {
    seq_contains(lower_seq(s), "timeout"@) || seq_contains(lower_seq(s), "connection"@)
        || seq_contains(lower_seq(s), "deadlock"@) || seq_contains(lower_seq(s), "throttl"@)
        || seq_contains(lower_seq(s), "busy"@) || seq_contains(lower_seq(s), "reset"@)
}

/// Classify an error message: transient errors are worth retrying,
/// all others fail fast.
pub fn is_transient_error(err: &str) -> (b: bool)
    ensures
        b == transient_message(err@),
{
    let lower = lower_chars(err);
    let t1 = contains_chars(&lower, &str_chars("timeout"));
    let t2 = contains_chars(&lower, &str_chars("connection"));
    let t3 = contains_chars(&lower, &str_chars("deadlock"));
    let t4 = contains_chars(&lower, &str_chars("throttl"));
    let t5 = contains_chars(&lower, &str_chars("busy"));
    let t6 = contains_chars(&lower, &str_chars("reset"));
    t1 || t2 || t3 || t4 || t5 || t6
}

/// The message recorded when one attempt hits the request timeout.
pub open spec fn timeout_message_spec(request_timeout_ms: u64) -> Seq<char> {
    "SQL request timed out after "@ + dec_str(request_timeout_ms as nat) + "ms"@
}

/// Render the timeout message for a given request timeout.
pub fn timeout_message(request_timeout_ms: u64) -> (r: String)
    ensures
        r@ == timeout_message_spec(request_timeout_ms),
{
    let mut out = String::new();
    out.append("SQL request timed out after ");
    out.append(decimal_string(request_timeout_ms).as_str());
    out.append("ms");
    out
}

/// Two to the given power.
pub open spec fn pow2(e: nat) -> nat
    decreases e,
{
    if e == 0 {
        1
    } else {
        2 * pow2((e - 1) as nat)
    }
}

proof fn lemma_base_pow2_monotone(base: nat, e1: nat, e2: nat)
    requires
        e1 <= e2,
    ensures
        base * pow2(e1) <= base * pow2(e2),
    decreases e2,
{
    if e1 < e2 {
        lemma_base_pow2_monotone(base, e1, (e2 - 1) as nat);
        let p = pow2((e2 - 1) as nat);
        assert(base * (2 * p) == 2 * (base * p)) by (nonlinear_arith);
        assert(base * p <= 2 * (base * p));
    }
}

/// The backoff before the attempt after attempt number `attempt`:
/// the base delay doubled per attempt already made, capped at the
/// maximum delay.
pub open spec fn backoff_delay_spec(base_delay_ms: u64, max_delay_ms: u64, attempt: u32) -> u64
    recommends
        attempt >= 1,
{
    if (base_delay_ms as nat) * pow2((attempt - 1) as nat) <= max_delay_ms as nat {
        ((base_delay_ms as nat) * pow2((attempt - 1) as nat)) as u64
    } else {
        max_delay_ms
    }
}

/// Compute the capped exponential backoff delay.
pub fn backoff_delay_ms(base_delay_ms: u64, max_delay_ms: u64, attempt: u32) -> (d: u64)
    requires
        attempt >= 1,
    ensures
        d == backoff_delay_spec(base_delay_ms, max_delay_ms, attempt),
{
    let mut d: u64 = base_delay_ms;
    let mut a: u32 = 1;
    proof {
        assert(pow2(0) == 1);
        assert((base_delay_ms as nat) * pow2(0) == base_delay_ms as nat) by (nonlinear_arith)
            requires pow2(0) == 1;
    }
    while a < attempt
        invariant
            1 <= a <= attempt,
            d == (base_delay_ms as nat) * pow2((a - 1) as nat),
        decreases attempt - a,
    {
        if d >= max_delay_ms {
            proof {
                lemma_base_pow2_monotone(
                    base_delay_ms as nat,
                    (a - 1) as nat,
                    (attempt - 1) as nat,
                );
            }
            return max_delay_ms;
        }
        if d > u64::MAX / 2 {
            proof {
                lemma_base_pow2_monotone(base_delay_ms as nat, a as nat, (attempt - 1) as nat);
                assert((base_delay_ms as nat) * pow2(a as nat) == 2 * (
                (base_delay_ms as nat) * pow2((a - 1) as nat))) by {
                    let p = pow2((a - 1) as nat);
                    assert((base_delay_ms as nat) * (2 * p) == 2 * ((base_delay_ms as nat) * p))
                        by (nonlinear_arith);
                }
            }
            return max_delay_ms;
        }
        d = d * 2;
        proof {
            let p = pow2((a - 1) as nat);
            assert((base_delay_ms as nat) * (2 * p) == 2 * ((base_delay_ms as nat) * p))
                by (nonlinear_arith);
        }
        a = a + 1;
    }
    if d <= max_delay_ms {
        d
    } else {
        max_delay_ms
    }
}

/// What one execution attempt of the statement came back with.
#[derive(Debug)]
pub enum AttemptOutcome {
    /// The statement completed.
    Success,
    /// The driver reported an error.
    DriverError { message: String },
    /// The attempt was cut off by the request timeout.
    TimedOut,
}

/// The error message the executor records for a non-success outcome.
pub open spec fn recorded_error(outcome: AttemptOutcome, request_timeout_ms: u64) -> Seq<char> {
    match outcome {
        AttemptOutcome::TimedOut => timeout_message_spec(request_timeout_ms),
        AttemptOutcome::DriverError { message } => message@,
        AttemptOutcome::Success => Seq::empty(),
    }
}

/// A non-success outcome that is worth another attempt.  A timeout
/// is always treated as transient; a driver error is transient when
/// its message is.
pub open spec fn outcome_transient(outcome: AttemptOutcome) -> bool {
    match outcome {
        AttemptOutcome::TimedOut => true,
        AttemptOutcome::DriverError { message } => transient_message(message@),
        AttemptOutcome::Success => false,
    }
}

/// What the executor decides after one attempt.
#[derive(Debug)]
pub enum RetryStep {
    /// Done: the statement succeeded on this attempt.
    Succeeded { attempts: u32 },
    /// Done: the retry budget is spent or the error is not
    /// transient.
    Failed { attempts: u32, error: String },
    /// Sleep this long (polling the control bus) and attempt again.
    Backoff { delay_ms: u64 },
}

/// The retry executor for one statement.  The caller runs each
/// attempt under the request timeout, hands the outcome to
/// `on_attempt`, and performs the backoff sleeps; a control
/// interrupt during a sleep simply abandons the executor.
#[derive(Debug)]
pub struct RetryExecutor {
    /// Attempts made so far.
    pub attempts: u32,
    /// The error recorded by the most recent failed attempt.
    pub last_error: String,
    /// The retry budget.
    pub max_attempts: u32,
    /// Per-attempt timeout; 0 disables it.
    pub request_timeout_ms: u64,
    /// First backoff delay.
    pub base_delay_ms: u64,
    /// Backoff cap.
    pub max_delay_ms: u64,
}

impl RetryExecutor {
    /// Start a fresh executor from the run options.
    pub fn new(options: &MaintenanceOptions) -> (r: Self)
        requires
            options.retry_max_attempts >= 1,
        ensures
            r.attempts == 0,
            r.last_error@ == Seq::<char>::empty(),
            r.max_attempts == options.retry_max_attempts,
            r.request_timeout_ms == options.request_timeout_ms,
            r.base_delay_ms == options.retry_base_delay_ms,
            r.max_delay_ms == options.retry_max_delay_ms,
    {
        RetryExecutor {
            attempts: 0,
            last_error: String::new(),
            max_attempts: options.retry_max_attempts,
            request_timeout_ms: options.request_timeout_ms,
            base_delay_ms: options.retry_base_delay_ms,
            max_delay_ms: options.retry_max_delay_ms,
        }
    }

    /// Account one attempt and decide what follows it.
    pub fn on_attempt(&mut self, outcome: &AttemptOutcome) -> (step: RetryStep)
        requires
            old(self).attempts < old(self).max_attempts,
        ensures
            final(self).attempts == old(self).attempts + 1,
            final(self).max_attempts == old(self).max_attempts,
            final(self).request_timeout_ms == old(self).request_timeout_ms,
            final(self).base_delay_ms == old(self).base_delay_ms,
            final(self).max_delay_ms == old(self).max_delay_ms,
            *outcome is Success ==> (step matches RetryStep::Succeeded { attempts } && attempts
                == old(self).attempts + 1),
            !(*outcome is Success) ==> final(self).last_error@ == recorded_error(
                *outcome,
                old(self).request_timeout_ms,
            ),
            !(*outcome is Success) && (old(self).attempts + 1 == old(self).max_attempts
                || !outcome_transient(*outcome)) ==> (step matches RetryStep::Failed {
                attempts,
                error,
            } && attempts == old(self).attempts + 1 && error@ == recorded_error(
                *outcome,
                old(self).request_timeout_ms,
            )),
            !(*outcome is Success) && old(self).attempts + 1 < old(self).max_attempts
                && outcome_transient(*outcome) ==> (step matches RetryStep::Backoff {
                delay_ms,
            } && delay_ms == backoff_delay_spec(
                old(self).base_delay_ms,
                old(self).max_delay_ms,
                (old(self).attempts + 1) as u32,
            )),
    {
        self.attempts = self.attempts + 1;
        match outcome {
            AttemptOutcome::Success => RetryStep::Succeeded { attempts: self.attempts },
            AttemptOutcome::TimedOut => {
                self.last_error = timeout_message(self.request_timeout_ms);
                if self.attempts == self.max_attempts {
                    RetryStep::Failed {
                        attempts: self.attempts,
                        error: String::from_str(self.last_error.as_str()),
                    }
                } else {
                    RetryStep::Backoff {
                        delay_ms: backoff_delay_ms(
                            self.base_delay_ms,
                            self.max_delay_ms,
                            self.attempts,
                        ),
                    }
                }
            },
            AttemptOutcome::DriverError { message } => {
                self.last_error = String::from_str(message.as_str());
                let transient = is_transient_error(message.as_str());
                if self.attempts == self.max_attempts || !transient {
                    RetryStep::Failed {
                        attempts: self.attempts,
                        error: String::from_str(self.last_error.as_str()),
                    }
                } else {
                    RetryStep::Backoff {
                        delay_ms: backoff_delay_ms(
                            self.base_delay_ms,
                            self.max_delay_ms,
                            self.attempts,
                        ),
                    }
                }
            },
        }
    }
}

/// How one whole retried operation ended.
#[derive(Debug)]
pub enum RetryRunResult {
    /// Some attempt succeeded.
    Succeeded { attempts: u32 },
    /// The budget was spent or a non-transient error arrived.
    Failed { attempts: u32, error: String },
    /// A control signal arrived during a backoff sleep.
    Interrupted { control: MaintenanceControl, attempts: u32 },
}

/// The visible trace of one whole retried operation: its result and
/// the backoff sleeps that were begun, in order.
#[derive(Debug)]
pub struct RetryTrace {
    pub result: RetryRunResult,
    pub delays_ms: Vec<u64>,
}

/// Run a whole retried operation over a script of attempt outcomes.
/// `outcomes[i]` is what attempt `i + 1` comes back with;
/// `backoff_interrupts[i]` is the control signal, if any, that
/// arrives during the backoff sleep after attempt `i + 1`.
///
/// Among its guarantees: when every attempt times out and nothing
/// interrupts, the operation fails after exactly the full retry
/// budget with the timeout message; a first attempt that fails with
/// a non-transient error fails the operation at once, with no
/// backoff begun.
pub fn run_retry(
    outcomes: &Vec<AttemptOutcome>,
    backoff_interrupts: &Vec<Option<MaintenanceControl>>,
    options: &MaintenanceOptions,
) -> (t: RetryTrace)
    requires
        options.retry_max_attempts >= 1,
        outcomes@.len() >= options.retry_max_attempts,
        backoff_interrupts@.len() >= options.retry_max_attempts,
    ensures
        // success: the final attempt succeeded; everything before it
        // was a transient failure that nothing interrupted
        (t.result matches RetryRunResult::Succeeded { attempts } ==> 1 <= attempts
            <= options.retry_max_attempts && outcomes@[attempts - 1] is Success
            && t.delays_ms@.len() == attempts - 1 && (forall|i: int|
            #![trigger outcomes@[i]]
            0 <= i < attempts - 1 ==> !(outcomes@[i] is Success) && outcome_transient(outcomes@[i])
                && backoff_interrupts@[i] is None)),
        // failure: the final attempt failed with the recorded error,
        // and either spent the budget or was not transient
        (t.result matches RetryRunResult::Failed { attempts, error } ==> 1 <= attempts
            <= options.retry_max_attempts && !(outcomes@[attempts - 1] is Success) && error@
            == recorded_error(outcomes@[attempts - 1], options.request_timeout_ms) && (attempts
            == options.retry_max_attempts || !outcome_transient(outcomes@[attempts - 1]))
            && t.delays_ms@.len() == attempts - 1 && (forall|i: int|
            #![trigger outcomes@[i]]
            0 <= i < attempts - 1 ==> !(outcomes@[i] is Success) && outcome_transient(outcomes@[i])
                && backoff_interrupts@[i] is None)),
        // interrupt: a control signal arrived in the backoff after a
        // transient failure
        (t.result matches RetryRunResult::Interrupted { control, attempts } ==> 1 <= attempts
            < options.retry_max_attempts && !(outcomes@[attempts - 1] is Success)
            && outcome_transient(outcomes@[attempts - 1]) && backoff_interrupts@[attempts - 1]
            == Some(control) && t.delays_ms@.len() == attempts && (forall|i: int|
            #![trigger outcomes@[i]]
            0 <= i < attempts - 1 ==> !(outcomes@[i] is Success) && outcome_transient(outcomes@[i])
                && backoff_interrupts@[i] is None)),
        // every backoff begun had the capped exponential length
        forall|k: int|
            0 <= k < t.delays_ms@.len() ==> t.delays_ms@[k] == backoff_delay_spec(
                options.retry_base_delay_ms,
                options.retry_max_delay_ms,
                (k + 1) as u32,
            ),
        // when every attempt times out and nothing interrupts, the
        // whole budget is spent and the timeout message is the error
        (forall|i: int| 0 <= i < options.retry_max_attempts ==> outcomes@[i] is TimedOut)
            && (forall|i: int|
            0 <= i < options.retry_max_attempts ==> backoff_interrupts@[i] is None) ==> (t.result
            matches RetryRunResult::Failed { attempts, error } && attempts
            == options.retry_max_attempts && error@ == timeout_message_spec(
            options.request_timeout_ms,
        )),
{
    let mut ex = RetryExecutor::new(options);
    let mut delays: Vec<u64> = Vec::new();
    loop
        invariant
            ex.max_attempts == options.retry_max_attempts,
            ex.request_timeout_ms == options.request_timeout_ms,
            ex.base_delay_ms == options.retry_base_delay_ms,
            ex.max_delay_ms == options.retry_max_delay_ms,
            ex.attempts < ex.max_attempts,
            outcomes@.len() >= options.retry_max_attempts,
            backoff_interrupts@.len() >= options.retry_max_attempts,
            delays@.len() == ex.attempts,
            forall|k: int|
                0 <= k < delays@.len() ==> delays@[k] == backoff_delay_spec(
                    options.retry_base_delay_ms,
                    options.retry_max_delay_ms,
                    (k + 1) as u32,
                ),
            // every attempt so far was a transient failure that
            // nothing interrupted
            forall|i: int|
                #![trigger outcomes@[i]]
                0 <= i < ex.attempts ==> !(outcomes@[i] is Success) && outcome_transient(
                    outcomes@[i],
                ) && backoff_interrupts@[i] is None,
        decreases ex.max_attempts - ex.attempts,
    {
        let idx = ex.attempts as usize;
        let step = ex.on_attempt(&outcomes[idx]);
        match step {
            RetryStep::Succeeded { attempts } => {
                return RetryTrace {
                    result: RetryRunResult::Succeeded { attempts },
                    delays_ms: delays,
                };
            },
            RetryStep::Failed { attempts, error } => {
                return RetryTrace {
                    result: RetryRunResult::Failed { attempts, error },
                    delays_ms: delays,
                };
            },
            RetryStep::Backoff { delay_ms } => {
                delays.push(delay_ms);
                match &backoff_interrupts[idx] {
                    Some(control) => {
                        return RetryTrace {
                            result: RetryRunResult::Interrupted {
                                control: *control,
                                attempts: ex.attempts,
                            },
                            delays_ms: delays,
                        };
                    },
                    None => {
                    },
                }
            },
        }
    }
}

} // verus!
