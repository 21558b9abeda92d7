//! Outcomes of one pass of a relayer's queue processors, and the retry
//! backoff used after a failed send.

use vstd::prelude::*;

verus! {

/// A status type that has a distinguished "success" value.
pub trait ProcessResultSuccess: Sized {
    /// The success value of the status type.
    spec fn success_value() -> Self;

    fn success_type() -> (r: Self)
        ensures
            r == Self::success_value(),
    ;
}

/// What one processing pass did, and how long to wait before the next pass.
#[derive(Debug, Clone, PartialEq)]
pub struct ProcessResult<T> {
    pub status: T,
    pub process_again_after: u64,
}

/// The delay, in milliseconds, used when a pass names none.
pub const DEFAULT_PROCESS_AGAIN_AFTER_MS: u64 = 10;

/// The delay a pass reports for an optional requested delay.
pub open spec fn delay_or_default(process_again_after: Option<u64>) -> u64 {
    match process_again_after {
        Some(d) => d,
        None => DEFAULT_PROCESS_AGAIN_AFTER_MS,
    }
}

impl<T> ProcessResult<T> {
    /// A result with the given status; the delay defaults to 10 ms.
    pub fn other(status: T, process_again_after: Option<&u64>) -> (r: Self)
        ensures
            r.status == status,
            r.process_again_after == delay_or_default(
                match process_again_after {
                    Some(d) => Some(*d),
                    None => None,
                },
            ),
    {
        let delay = match process_again_after {
            Some(d) => *d,
            None => DEFAULT_PROCESS_AGAIN_AFTER_MS,
        };
        ProcessResult { status, process_again_after: delay }
    }
}

impl<T: ProcessResultSuccess> ProcessResult<T> {
    /// The success result; it waits a little (10 ms) so as not to overload
    /// the queue processing.
    pub fn success() -> (r: Self)
        ensures
            r.status == T::success_value(),
            r.process_again_after == DEFAULT_PROCESS_AGAIN_AFTER_MS,
    {
        ProcessResult { status: T::success_type(), process_again_after: DEFAULT_PROCESS_AGAIN_AFTER_MS }
    }
}

#[derive(Debug, Clone, Copy, PartialEq, Eq, Structural)]
pub enum ProcessPendingStatus {
    Success,
    RelayerPaused,
    NoPendingTransactions,
    GasPriceTooHigh,
    NonceSynchronized,
    SendErrorBackoff,
}

impl ProcessResultSuccess for ProcessPendingStatus {
    open spec fn success_value() -> Self {
        ProcessPendingStatus::Success
    }

    fn success_type() -> (r: Self) {
        ProcessPendingStatus::Success
    }
}

#[derive(Debug, Clone, Copy, PartialEq, Eq, Structural)]
pub enum ProcessInmempoolStatus {
    Success,
    StillInmempool,
    NoInmempoolTransactions,
    GasIncreased,
    NonceSynchronized,
}

impl ProcessResultSuccess for ProcessInmempoolStatus {
    open spec fn success_value() -> Self {
        ProcessInmempoolStatus::Success
    }

    fn success_type() -> (r: Self) {
        ProcessInmempoolStatus::Success
    }
}

#[derive(Debug, Clone, Copy, PartialEq, Eq, Structural)]
pub enum ProcessMinedStatus {
    Success,
    NotConfirmedYet,
    NoMinedTransactions,
}

impl ProcessResultSuccess for ProcessMinedStatus {
    open spec fn success_value() -> Self {
        ProcessMinedStatus::Success
    }

    fn success_type() -> (r: Self) {
        ProcessMinedStatus::Success
    }
}

/// Maximum number of send attempts for noop transactions before marking as failed.
pub const MAX_NOOP_SEND_ATTEMPTS: u32 = 10;

/// The cap on the send-error backoff, in milliseconds.
pub const MAX_SEND_ERROR_BACKOFF_MS: u64 = 60_000;

/// The first send-error backoff, in milliseconds.
pub const BASE_SEND_ERROR_BACKOFF_MS: u64 = 1_000;

/// `base` raised to `exp`.
pub open spec fn nat_pow(base: nat, exp: nat) -> nat
    decreases exp,
{
    if exp == 0 {
        1
    } else {
        base * nat_pow(base, (exp - 1) as nat)
    }
}

pub open spec fn min_nat(a: nat, b: nat) -> nat {
    if a <= b {
        a
    } else {
        b
    }
}

/// The backoff after `attempt` failed sends: 1 s doubled per attempt, capped at 60 s.
pub open spec fn send_error_backoff_ms(attempt: nat) -> nat {
    min_nat((BASE_SEND_ERROR_BACKOFF_MS as nat) * nat_pow(2, attempt), MAX_SEND_ERROR_BACKOFF_MS as nat)
}

/// `u64::saturating_pow`: the power, or `u64::MAX` where it does not fit.
#[verifier::external_body]
fn u64_saturating_pow(base: u64, exp: u32) -> (r: u64)
    ensures
        r == min_nat(nat_pow(base as nat, exp as nat), u64::MAX as nat),
{
    base.saturating_pow(exp)
}

/// `u64::saturating_mul`: the product, or `u64::MAX` where it does not fit.
#[verifier::external_body]
fn u64_saturating_mul(a: u64, b: u64) -> (r: u64)
    ensures
        r == min_nat((a * b) as nat, u64::MAX as nat),
{
    a.saturating_mul(b)
}

proof fn lemma_nat_pow2_positive(n: nat)
    ensures
        nat_pow(2, n) >= 1,
    decreases n,
{
    if n > 0 {
        lemma_nat_pow2_positive((n - 1) as nat);
    }
}

proof fn lemma_nat_pow2_monotone(a: nat, b: nat)
    requires
        a <= b,
    ensures
        nat_pow(2, a) <= nat_pow(2, b),
    decreases b,
{
    if a < b {
        lemma_nat_pow2_monotone(a, (b - 1) as nat);
        lemma_nat_pow2_positive((b - 1) as nat);
    }
}

proof fn lemma_nat_pow2_at_least_64(n: nat)
    requires
        n >= 6,
    ensures
        nat_pow(2, n) >= 64,
{
    reveal_with_fuel(nat_pow, 7);
    lemma_nat_pow2_monotone(6, n);
}

/// Computes exponential backoff delay in milliseconds for send error retries.
/// Starts at 1 second for attempt 0 and doubles each attempt, capped at 60 seconds.
pub fn compute_send_error_backoff_ms(attempt_count: u32) -> (r: u64)
    ensures
        r == send_error_backoff_ms(attempt_count as nat),
{
    let p = u64_saturating_pow(2, attempt_count);
    let scaled = u64_saturating_mul(BASE_SEND_ERROR_BACKOFF_MS, p);
    proof {
        lemma_nat_pow2_positive(attempt_count as nat);
        let e = nat_pow(2, attempt_count as nat);
        if e >= 64 {
            assert(1000 * e >= 64000) by (nonlinear_arith)
                requires
                    e >= 64,
            ;
        } else {
            assert(1000 * e < 64000);
        }
    }
    if scaled < MAX_SEND_ERROR_BACKOFF_MS {
        scaled
    } else {
        MAX_SEND_ERROR_BACKOFF_MS
    }
}

/// The send-error backoff is never below one second and never above sixty.
pub proof fn lemma_send_error_backoff_bounds(attempt: nat)
    ensures
        BASE_SEND_ERROR_BACKOFF_MS <= send_error_backoff_ms(attempt) <= MAX_SEND_ERROR_BACKOFF_MS,
{
    lemma_nat_pow2_positive(attempt);
}

/// The send-error backoff never shrinks as the attempt count grows.
pub proof fn lemma_send_error_backoff_monotone(a: nat, b: nat)
    requires
        a <= b,
    ensures
        send_error_backoff_ms(a) <= send_error_backoff_ms(b),
{
    lemma_nat_pow2_monotone(a, b);
    let x = nat_pow(2, a);
    let y = nat_pow(2, b);
    assert(1000 * x <= 1000 * y) by (nonlinear_arith)
        requires
            x <= y,
    ;
}

/// From the sixth attempt on, the send-error backoff is the sixty-second cap.
pub proof fn lemma_send_error_backoff_capped(attempt: nat)
    requires
        attempt >= 6,
    ensures
        send_error_backoff_ms(attempt) == MAX_SEND_ERROR_BACKOFF_MS,
{
    lemma_nat_pow2_at_least_64(attempt);
}

/// Before the cap, the send-error backoff doubles with every attempt.
pub proof fn lemma_send_error_backoff_doubles(attempt: nat)
    requires
        attempt < 5,
    ensures
        send_error_backoff_ms(attempt + 1) == 2 * send_error_backoff_ms(attempt),
{
    reveal_with_fuel(nat_pow, 6);
    assert(nat_pow(2, attempt) <= 16) by {
        lemma_nat_pow2_monotone(attempt, 4);
    }
    assert(nat_pow(2, attempt + 1) == 2 * nat_pow(2, attempt));
}

} // verus!
