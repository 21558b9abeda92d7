//! The decisions of a relayer's three queue processors (pending, in the
//! mempool, mined), each taken on what the queue, the chain and the database
//! reported. The caller performs the work each decision names and reports
//! its outcome to the matching `finish_*` step.

use vstd::prelude::*;

use crate::config::SetupConfig;
use crate::primitives::{EvmAddress, RelayerId, TransactionHash, TransactionId, TransactionNonce};
use crate::process_result::{
    compute_send_error_backoff_ms, lemma_send_error_backoff_capped, send_error_backoff_ms, ProcessInmempoolStatus,
    ProcessMinedStatus, ProcessPendingStatus, ProcessResult, MAX_NOOP_SEND_ATTEMPTS,
};
use crate::text::{contains_text, decimal_string, decimal_text, has_run, lowercase_text, to_lowercase, uuid_string, uuid_text};
use crate::transaction::{
    BlobGasPriceResult, GasPriceResult, Transaction, TransactionSpeed, TransactionStatus, TransactionView,
};
use vstd::string::*;

verus! {

/// Why a send through a relayer's queue failed; texts are the underlying
/// errors' messages.
#[derive(Debug, Clone, PartialEq, Eq)]
pub enum TransactionQueueSendTransactionError {
    GasPriceTooHigh,
    GasCalculationError,
    TransactionEstimateGasError(String),
    TransactionSendError(String),
    CouldNotUpdateTransactionDb(String),
    SendTransactionGasPriceError(String),
    TransactionConversionError(String),
    SafeProxyError(String),
    NoTransactionInQueue,
}

/// Why a pass of the pending processor failed.
#[derive(Debug)]
pub enum ProcessPendingTransactionError {
    RelayerTransactionsQueueNotFound(RelayerId),
    SendTransactionError(RelayerId, EvmAddress, TransactionQueueSendTransactionError),
    DbError(RelayerId, EvmAddress, String),
    GasCalculationError(RelayerId, EvmAddress, Transaction),
    TransactionEstimateGasError(RelayerId, EvmAddress, String),
    MovePendingTransactionToInmempoolError(RelayerId, EvmAddress, String),
}

/// The gas limit a noop transaction is sent with.
pub const NOOP_GAS_LIMIT: u128 = 21000;

/// How long the pending processor waits while its relayer is paused, in ms.
pub const PAUSED_RELAYER_WAIT_MS: u64 = 30000;

/// How long a processor loop waits after a failed pass, in ms.
pub const ERROR_RETRY_WAIT_MS: u64 = 1000;

/// How long a processor waits after a nonce resynchronisation, in ms.
pub const NONCE_SYNCHRONIZED_WAIT_MS: u64 = 100;

/// The view of `t` turned into a noop: a zero-value, empty-data transfer to
/// the relayer's own address with a plain-transfer gas limit, sent fast.
pub open spec fn noop_view(t: TransactionView, relay_address: EvmAddress) -> TransactionView {
    TransactionView {
        to: relay_address,
        value: 0,
        data: Seq::empty(),
        gas_limit: Some(NOOP_GAS_LIMIT),
        is_noop: true,
        speed: TransactionSpeed::FAST,
        ..t
    }
}

/// Whether a transaction has expired at time `now_ms`.
pub open spec fn expired_at(t: TransactionView, now_ms: i64) -> bool {
    t.expires_at < now_ms
}

/// The transaction the pending processor sends: an expired one becomes a noop.
pub open spec fn prepared_for_send(t: TransactionView, relay_address: EvmAddress, now_ms: i64) -> TransactionView {
    if expired_at(t, now_ms) {
        noop_view(t, relay_address)
    } else {
        t
    }
}

/// Whether a noop has used up its send attempts.
pub open spec fn noop_attempts_exhausted(t: TransactionView) -> bool {
    t.is_noop && t.send_attempt_count >= MAX_NOOP_SEND_ATTEMPTS
}

/// Whether the pending processor fails `t` by the retry limit: only where
/// automatic failing is turned on, and only a noop out of send attempts.
pub open spec fn fails_by_retry_limit(auto_fail: bool, t: TransactionView) -> bool {
    auto_fail && noop_attempts_exhausted(t)
}

/// Whether noops out of send attempts are failed automatically: off unless
/// the advanced settings turn it on.
pub fn auto_fail_expired_transactions(config: &SetupConfig) -> (r: bool)
    ensures
        r == (config.advanced matches Some(a) && a.auto_fail_expired_transactions == Some(true)),
{
    match &config.advanced {
        Some(a) => match a.auto_fail_expired_transactions {
            Some(b) => b,
            None => false,
        },
        None => false,
    }
}

/// Checks if a transaction has expired: its expiry lies before `now_ms`.
pub fn has_expired(transaction: &Transaction, now_ms: i64) -> (r: bool)
    ensures
        r == expired_at(transaction@, now_ms),
{
    transaction.expires_at < now_ms
}

/// Converts a transaction to a no-op transaction sent to the relayer itself.
pub fn transaction_to_noop(transaction: &mut Transaction, relay_address: EvmAddress)
    ensures
        final(transaction)@ == noop_view(old(transaction)@, relay_address),
{
    transaction.to = relay_address;
    transaction.value = crate::primitives::Uint256::zero();
    transaction.data = Vec::new();
    transaction.gas_limit = Some(NOOP_GAS_LIMIT);
    transaction.is_noop = true;
    transaction.speed = TransactionSpeed::FAST;
    assert(transaction.data@ =~= Seq::<u8>::empty());
}

/// The phrases of a send error that mean the transaction cannot succeed.
pub open spec fn mentions_unrecoverable(lower: Seq<char>) -> bool {
    has_run(lower, "insufficient funds"@) || has_run(lower, "balance"@) || has_run(lower, "overshot"@)
        || has_run(lower, "execution reverted"@)
}

/// The phrases of a send error that mean the relayer's nonce is out of step.
pub open spec fn mentions_nonce_desync(lower: Seq<char>) -> bool {
    has_run(lower, "nonce too low"@) || has_run(lower, "nonce is too low"@) || has_run(lower, "invalid nonce"@)
        || has_run(lower, "nonce has already been used"@) || has_run(lower, "already known"@)
}

/// Whether a send error message (compared in lowercase) says the
/// transaction cannot succeed: insufficient funds, or it would revert.
pub fn is_unrecoverable_send_error(message: &str) -> (r: bool)
    ensures
        r == mentions_unrecoverable(lowercase_text(message@)),
{
    let lower = to_lowercase(message);
    let l = lower.as_str();
    contains_text(l, "insufficient funds") || contains_text(l, "balance") || contains_text(l, "overshot")
        || contains_text(l, "execution reverted")
}

/// Whether a send error message (compared in lowercase) says the relayer's
/// nonce is out of step with the chain.
pub fn is_nonce_desync_error(message: &str) -> (r: bool)
    ensures
        r == mentions_nonce_desync(lowercase_text(message@)),
{
    let lower = to_lowercase(message);
    let l = lower.as_str();
    contains_text(l, "nonce too low") || contains_text(l, "nonce is too low") || contains_text(l, "invalid nonce")
        || contains_text(l, "nonce has already been used") || contains_text(l, "already known")
}

/// The message recorded when a noop runs out of send attempts.
pub open spec fn noop_failure_reason(relayer_id: RelayerId) -> Seq<char> {
    "Noop transaction exceeded max send attempts ("@ + decimal_text(MAX_NOOP_SEND_ATTEMPTS as nat)
        + ") for relayer "@ + uuid_text(relayer_id.0 as nat)
}

fn noop_failure_message(relayer_id: RelayerId) -> (r: String)
    ensures
        r@ == noop_failure_reason(relayer_id),
{
    let count = decimal_string(MAX_NOOP_SEND_ATTEMPTS as u64);
    let id = uuid_string(relayer_id.0);
    let msg = String::from_str("Noop transaction exceeded max send attempts (");
    let msg = msg.concat(count.as_str());
    let msg = msg.concat(") for relayer ");
    msg.concat(id.as_str())
}

/// What the pending processor found in a relayer's queue.
pub struct PendingSnapshot {
    pub queue_exists: bool,
    pub paused: bool,
    pub relay_address: EvmAddress,
    pub next_pending: Option<Transaction>,
    /// A shutdown is under way, so no new critical operation may start.
    pub shutting_down: bool,
    pub now_ms: i64,
    /// Noops out of send attempts are failed (the advanced setting
    /// `auto_fail_expired_transactions`, as `auto_fail_expired_transactions`
    /// reads it).
    pub auto_fail_expired_transactions: bool,
}

/// What the pending processor does next.
pub enum PendingPlan {
    /// The pass is over with this result.
    Done(Result<ProcessResult<ProcessPendingStatus>, ProcessPendingTransactionError>),
    /// Record the transaction as failed with `reason`, move it out of the
    /// pending queue, then finish with `finish_mark_failed` and `error`.
    FailNoop { transaction: Transaction, reason: String, error: ProcessPendingTransactionError },
    /// Send the transaction, then report the outcome to `pending_after_send`.
    Send { transaction: Transaction },
}

/// `r` ends the pass with the "queue not found" error for `relayer_id`.
pub open spec fn pending_done_not_found(r: PendingPlan, relayer_id: RelayerId) -> bool {
    match r {
        PendingPlan::Done(Err(ProcessPendingTransactionError::RelayerTransactionsQueueNotFound(id))) => id == relayer_id,
        _ => false,
    }
}

/// `r` fails the noop `prepared` because its send attempts are used up.
pub open spec fn is_noop_failure_plan(r: PendingPlan, prepared: TransactionView, relayer_id: RelayerId, relay_address: EvmAddress) -> bool {
    match r {
        PendingPlan::FailNoop { transaction, reason, error } => {
            &&& transaction@ == prepared
            &&& reason@ == noop_failure_reason(relayer_id)
            &&& match error {
                ProcessPendingTransactionError::SendTransactionError(
                    id,
                    a,
                    TransactionQueueSendTransactionError::TransactionConversionError(m),
                ) => id == relayer_id && a == relay_address && m@ == noop_failure_reason(relayer_id),
                _ => false,
            }
        },
        _ => false,
    }
}

/// `r` sends `prepared`.
pub open spec fn is_send_plan(r: PendingPlan, prepared: TransactionView) -> bool {
    match r {
        PendingPlan::Send { transaction } => transaction@ == prepared,
        _ => false,
    }
}

/// Decides what one pass of the pending processor does.
pub fn plan_pending(relayer_id: RelayerId, snapshot: PendingSnapshot) -> (r: PendingPlan)
    ensures
        !snapshot.queue_exists ==> pending_done_not_found(r, relayer_id),
        snapshot.queue_exists && snapshot.paused ==> r == PendingPlan::Done(
            Ok(ProcessResult { status: ProcessPendingStatus::RelayerPaused, process_again_after: PAUSED_RELAYER_WAIT_MS }),
        ),
        snapshot.queue_exists && !snapshot.paused && snapshot.next_pending is None ==> r == PendingPlan::Done(
            Ok(ProcessResult { status: ProcessPendingStatus::NoPendingTransactions, process_again_after: 10 }),
        ),
        snapshot.queue_exists && !snapshot.paused && snapshot.next_pending is Some && snapshot.shutting_down
            ==> pending_done_not_found(r, relayer_id),
        snapshot.queue_exists && !snapshot.paused && snapshot.next_pending is Some && !snapshot.shutting_down ==> {
            let prepared = prepared_for_send(snapshot.next_pending->0@, snapshot.relay_address, snapshot.now_ms);
            if fails_by_retry_limit(snapshot.auto_fail_expired_transactions, prepared) {
                is_noop_failure_plan(r, prepared, relayer_id, snapshot.relay_address)
            } else {
                is_send_plan(r, prepared)
            }
        },
{
    if !snapshot.queue_exists {
        return PendingPlan::Done(Err(ProcessPendingTransactionError::RelayerTransactionsQueueNotFound(relayer_id)));
    }
    if snapshot.paused {
        return PendingPlan::Done(
            Ok(ProcessResult::other(ProcessPendingStatus::RelayerPaused, Some(&PAUSED_RELAYER_WAIT_MS))),
        );
    }
    let relay_address = snapshot.relay_address;
    match snapshot.next_pending {
        None => PendingPlan::Done(Ok(ProcessResult::other(ProcessPendingStatus::NoPendingTransactions, None))),
        Some(mut transaction) => {
            if snapshot.shutting_down {
                return PendingPlan::Done(
                    Err(ProcessPendingTransactionError::RelayerTransactionsQueueNotFound(relayer_id)),
                );
            }
            if has_expired(&transaction, snapshot.now_ms) {
                transaction_to_noop(&mut transaction, relay_address);
            }
            if snapshot.auto_fail_expired_transactions && transaction.is_noop
                && transaction.send_attempt_count >= MAX_NOOP_SEND_ATTEMPTS {
                let reason = noop_failure_message(relayer_id);
                let error = ProcessPendingTransactionError::SendTransactionError(
                    relayer_id,
                    relay_address,
                    TransactionQueueSendTransactionError::TransactionConversionError(reason.clone()),
                );
                PendingPlan::FailNoop { transaction, reason, error }
            } else {
                PendingPlan::Send { transaction }
            }
        },
    }
}


/// What the pending processor does after a send attempt.
pub enum PendingAfterSend {
    /// Move the sent transaction to the mempool queue, then finish with
    /// `finish_move_to_inmempool`; the transaction is announced as sent
    /// with the record `mark_transaction_sent` gives.
    MoveToInmempool,
    /// Record the transaction as failed with `reason` and move it out of the
    /// pending queue, then finish with `finish_mark_failed` and `error`.
    MarkFailed { reason: String, error: ProcessPendingTransactionError },
    /// Resynchronise the nonce with the chain, give the transaction the
    /// next nonce handed out (`assign_recovered_nonce`), then finish with
    /// `finish_pending_nonce_recovery`.
    RecoverNonce { send_error: String },
    /// Count one more failed send attempt on the transaction (with
    /// `count_send_attempt`); the pass is over with this result.
    CountAttemptAndWait(ProcessResult<ProcessPendingStatus>),
    /// The pass is over with this result.
    Done(Result<ProcessResult<ProcessPendingStatus>, ProcessPendingTransactionError>),
}

/// What the pending processor does after the send of `transaction` came
/// back with `outcome`.
pub open spec fn pending_after_send_spec(
    r: PendingAfterSend,
    relayer_id: RelayerId,
    relay_address: EvmAddress,
    transaction: TransactionView,
    outcome: Result<(), TransactionQueueSendTransactionError>,
    block_time_ms: Option<u64>,
) -> bool {
    match outcome {
        Ok(()) => r == PendingAfterSend::MoveToInmempool,
        Err(TransactionQueueSendTransactionError::GasPriceTooHigh) => r == PendingAfterSend::Done(
            Ok(ProcessResult { status: ProcessPendingStatus::GasPriceTooHigh, process_again_after: match block_time_ms {
                Some(b) => b,
                None => 10,
            } }),
        ),
        Err(TransactionQueueSendTransactionError::GasCalculationError) => match r {
            PendingAfterSend::Done(Err(ProcessPendingTransactionError::GasCalculationError(id, a, t))) =>
                id == relayer_id && a == relay_address && t@ == transaction,
            _ => false,
        },
        Err(TransactionQueueSendTransactionError::TransactionEstimateGasError(e)) => match r {
            PendingAfterSend::MarkFailed { reason, error: ProcessPendingTransactionError::TransactionEstimateGasError(id, a, m) } =>
                reason@ == e@ && id == relayer_id && a == relay_address && m@ == e@,
            _ => false,
        },
        Err(TransactionQueueSendTransactionError::TransactionSendError(e)) => {
            if mentions_unrecoverable(lowercase_text(e@)) {
                match r {
                    PendingAfterSend::MarkFailed {
                        reason,
                        error: ProcessPendingTransactionError::SendTransactionError(id, a, TransactionQueueSendTransactionError::TransactionSendError(m)),
                    } => reason@ == e@ && id == relayer_id && a == relay_address && m@ == e@,
                    _ => false,
                }
            } else if mentions_nonce_desync(lowercase_text(e@)) {
                match r {
                    PendingAfterSend::RecoverNonce { send_error } => send_error@ == e@,
                    _ => false,
                }
            } else {
                r == PendingAfterSend::CountAttemptAndWait(ProcessResult {
                    status: ProcessPendingStatus::SendErrorBackoff,
                    process_again_after: send_error_backoff_ms((transaction.send_attempt_count + 1) as nat) as u64,
                })
            }
        },
        Err(TransactionQueueSendTransactionError::TransactionConversionError(e)) => match r {
            PendingAfterSend::MarkFailed { reason, error: ProcessPendingTransactionError::TransactionEstimateGasError(id, a, m) } =>
                reason@ == e@ && id == relayer_id && a == relay_address && m@ == e@,
            _ => false,
        },
        Err(TransactionQueueSendTransactionError::SafeProxyError(e)) => match r {
            PendingAfterSend::MarkFailed { reason, error: ProcessPendingTransactionError::TransactionEstimateGasError(id, a, m) } =>
                reason@ == e@ && id == relayer_id && a == relay_address && m@ == e@,
            _ => false,
        },
        Err(other) => match r {
            PendingAfterSend::Done(Err(ProcessPendingTransactionError::SendTransactionError(id, a, f))) =>
                id == relayer_id && a == relay_address && f == other,
            _ => false,
        },
    }
}

/// Counts one more failed send attempt on the transaction at the head of
/// the pending queue; nothing else about it changes.
pub fn count_send_attempt(transaction: &mut Transaction)
    requires
        old(transaction).send_attempt_count < u32::MAX,
    ensures
        final(transaction)@ == (TransactionView {
            send_attempt_count: (old(transaction).send_attempt_count + 1) as u32,
            ..old(transaction)@
        }),
{
    transaction.send_attempt_count = transaction.send_attempt_count + 1;
}

/// Decides what the pending processor does after sending `transaction`.
/// Funds and revert errors fail the transaction; nonce errors resynchronise
/// the nonce; any other send error counts an attempt and backs off.
pub fn pending_after_send(
    relayer_id: RelayerId,
    relay_address: EvmAddress,
    transaction: &Transaction,
    outcome: Result<(), TransactionQueueSendTransactionError>,
    block_time_ms: Option<u64>,
) -> (r: PendingAfterSend)
    requires
        transaction.send_attempt_count < u32::MAX,
    ensures
        pending_after_send_spec(r, relayer_id, relay_address, transaction@, outcome, block_time_ms),
{
    match outcome {
        Ok(()) => PendingAfterSend::MoveToInmempool,
        Err(e) => match e {
            TransactionQueueSendTransactionError::GasPriceTooHigh => PendingAfterSend::Done(
                Ok(ProcessResult::other(ProcessPendingStatus::GasPriceTooHigh, block_time_ms.as_ref())),
            ),
            TransactionQueueSendTransactionError::GasCalculationError => PendingAfterSend::Done(
                Err(ProcessPendingTransactionError::GasCalculationError(relayer_id, relay_address, transaction.duplicate())),
            ),
            TransactionQueueSendTransactionError::TransactionEstimateGasError(error) => PendingAfterSend::MarkFailed {
                reason: error.clone(),
                error: ProcessPendingTransactionError::TransactionEstimateGasError(relayer_id, relay_address, error),
            },
            TransactionQueueSendTransactionError::TransactionSendError(error) => {
                if is_unrecoverable_send_error(error.as_str()) {
                    PendingAfterSend::MarkFailed {
                        reason: error.clone(),
                        error: ProcessPendingTransactionError::SendTransactionError(
                            relayer_id,
                            relay_address,
                            TransactionQueueSendTransactionError::TransactionSendError(error),
                        ),
                    }
                } else if is_nonce_desync_error(error.as_str()) {
                    PendingAfterSend::RecoverNonce { send_error: error }
                } else {
                    let attempts = transaction.send_attempt_count + 1;
                    let backoff_ms = compute_send_error_backoff_ms(attempts);
                    PendingAfterSend::CountAttemptAndWait(
                        ProcessResult::other(ProcessPendingStatus::SendErrorBackoff, Some(&backoff_ms)),
                    )
                }
            },
            TransactionQueueSendTransactionError::TransactionConversionError(error) => PendingAfterSend::MarkFailed {
                reason: error.clone(),
                error: ProcessPendingTransactionError::TransactionEstimateGasError(relayer_id, relay_address, error),
            },
            TransactionQueueSendTransactionError::SafeProxyError(error) => PendingAfterSend::MarkFailed {
                reason: error.clone(),
                error: ProcessPendingTransactionError::TransactionEstimateGasError(relayer_id, relay_address, error),
            },
            other => PendingAfterSend::Done(
                Err(ProcessPendingTransactionError::SendTransactionError(relayer_id, relay_address, other)),
            ),
        },
    }
}

/// Ends a pass that recorded a failed transaction: the database's error
/// where the record failed, else `error`.
pub fn finish_mark_failed(
    relayer_id: RelayerId,
    relay_address: EvmAddress,
    recorded: Result<(), String>,
    error: ProcessPendingTransactionError,
) -> (r: Result<ProcessResult<ProcessPendingStatus>, ProcessPendingTransactionError>)
    ensures
        match recorded {
            Err(db) => r matches Err(ProcessPendingTransactionError::DbError(id, a, m))
                && id == relayer_id && a == relay_address && m == db,
            Ok(()) => r == Err::<ProcessResult<ProcessPendingStatus>, ProcessPendingTransactionError>(error),
        },
{
    match recorded {
        Err(db) => Err(ProcessPendingTransactionError::DbError(relayer_id, relay_address, db)),
        Ok(()) => Err(error),
    }
}

/// A transaction once it went out with hash `hash` at `now_ms`: in the
/// mempool, with that hash and send time.
pub open spec fn sent_view(t: TransactionView, hash: TransactionHash, now_ms: i64) -> TransactionView {
    TransactionView {
        status: TransactionStatus::INMEMPOOL,
        known_transaction_hash: Some(hash),
        sent_at: Some(now_ms),
        ..t
    }
}

/// Records on a transaction that it went out with `hash` at `now_ms`.
pub fn mark_transaction_sent(transaction: &mut Transaction, hash: TransactionHash, now_ms: i64)
    ensures
        final(transaction)@ == sent_view(old(transaction)@, hash, now_ms),
{
    transaction.status = TransactionStatus::INMEMPOOL;
    transaction.known_transaction_hash = Some(hash);
    transaction.sent_at = Some(now_ms);
}

/// Gives a pending transaction the nonce handed out after the relayer's
/// nonce was resynchronised; nothing else about it changes.
pub fn assign_recovered_nonce(transaction: &mut Transaction, nonce: TransactionNonce)
    ensures
        final(transaction)@ == (TransactionView { nonce, ..old(transaction)@ }),
{
    transaction.nonce = nonce;
}

/// Ends a pass whose sent transaction was moved to the mempool queue.
pub fn finish_move_to_inmempool(
    relayer_id: RelayerId,
    relay_address: EvmAddress,
    moved: Result<(), String>,
) -> (r: Result<ProcessResult<ProcessPendingStatus>, ProcessPendingTransactionError>)
    ensures
        match moved {
            Err(e) => r matches Err(ProcessPendingTransactionError::MovePendingTransactionToInmempoolError(id, a, m))
                && id == relayer_id && a == relay_address && m == e,
            Ok(()) => r == Ok::<ProcessResult<ProcessPendingStatus>, ProcessPendingTransactionError>(
                ProcessResult { status: ProcessPendingStatus::Success, process_again_after: 10 },
            ),
        },
{
    match moved {
        Err(e) => Err(ProcessPendingTransactionError::MovePendingTransactionToInmempoolError(relayer_id, relay_address, e)),
        Ok(()) => Ok(ProcessResult::success()),
    }
}

/// Ends a pass that resynchronised the nonce after a nonce error: a short
/// wait where the resynchronisation worked, else the send error.
pub fn finish_pending_nonce_recovery(
    relayer_id: RelayerId,
    relay_address: EvmAddress,
    recovered: Result<(), String>,
    send_error: String,
) -> (r: Result<ProcessResult<ProcessPendingStatus>, ProcessPendingTransactionError>)
    ensures
        match recovered {
            Ok(()) => r == Ok::<ProcessResult<ProcessPendingStatus>, ProcessPendingTransactionError>(
                ProcessResult { status: ProcessPendingStatus::NonceSynchronized, process_again_after: NONCE_SYNCHRONIZED_WAIT_MS },
            ),
            Err(_) => r matches Err(ProcessPendingTransactionError::SendTransactionError(id, a,
                TransactionQueueSendTransactionError::TransactionSendError(m)))
                && id == relayer_id && a == relay_address && m == send_error,
        },
{
    match recovered {
        Ok(()) => Ok(ProcessResult::other(ProcessPendingStatus::NonceSynchronized, Some(&NONCE_SYNCHRONIZED_WAIT_MS))),
        Err(_) => Err(ProcessPendingTransactionError::SendTransactionError(
            relayer_id,
            relay_address,
            TransactionQueueSendTransactionError::TransactionSendError(send_error),
        )),
    }
}


/// Timestamps, in Unix milliseconds, lie well inside this bound (calendar
/// dates span about 8.3 * 10^15 ms either side of the epoch).
pub open spec fn valid_time(t: i64) -> bool {
    -0x1000_0000_0000_0000 < t < 0x1000_0000_0000_0000
}

/// The milliseconds from `from` to `to`, as an unsigned count (a negative
/// span wraps, as a cast of the signed span does).
pub open spec fn elapsed_ms(from: i64, to: i64) -> u64 {
    (to - from) as u64
}

fn elapsed_between(from: i64, to: i64) -> (r: u64)
    requires
        valid_time(from),
        valid_time(to),
    ensures
        r == elapsed_ms(from, to),
{
    let d: i64 = to - from;
    d as u64
}

/// How long the in-mempool processor waits before looking again: a tenth of
/// the block time, or 10 ms where the block time is not known.
pub open spec fn still_inmempool_wait(block_time_ms: Option<u64>) -> u64 {
    match block_time_ms {
        Some(b) => b / 10,
        None => 10,
    }
}

fn still_inmempool(block_time_ms: Option<u64>) -> (r: ProcessResult<ProcessInmempoolStatus>)
    ensures
        r == (ProcessResult {
            status: ProcessInmempoolStatus::StillInmempool,
            process_again_after: still_inmempool_wait(block_time_ms),
        }),
{
    let tenth: Option<u64> = match block_time_ms {
        Some(b) => Some(b / 10),
        None => None,
    };
    ProcessResult::other(ProcessInmempoolStatus::StillInmempool, tenth.as_ref())
}

/// Why a pass of the in-mempool processor failed.
#[derive(Debug)]
pub enum ProcessInmempoolTransactionError {
    RelayerTransactionsQueueNotFound(RelayerId),
    UnknownTransactionHash(RelayerId, EvmAddress, Transaction),
    CouldNotGetTransactionReceipt(RelayerId, EvmAddress, Transaction, String),
    MoveInmempoolTransactionToMinedError(RelayerId, EvmAddress, String),
    CouldNotUpdateTransactionStatusInTheDatabase(RelayerId, EvmAddress, Transaction, TransactionStatus, String),
    SendTransactionError(RelayerId, EvmAddress, TransactionQueueSendTransactionError),
}

/// What the in-mempool processor found in a relayer's queue.
pub struct InmempoolSnapshot {
    pub queue_exists: bool,
    pub relay_address: EvmAddress,
    pub next_inmempool: Option<Transaction>,
    pub shutting_down: bool,
}

/// What the in-mempool processor does next.
pub enum InmempoolPlan {
    Done(Result<ProcessResult<ProcessInmempoolStatus>, ProcessInmempoolTransactionError>),
    /// Ask the chain for the receipt of `hash`, then report to
    /// `inmempool_after_receipt`.
    FetchReceipt { transaction: Transaction, hash: TransactionHash },
}

/// Decides what one pass of the in-mempool processor does.
pub fn plan_inmempool(relayer_id: RelayerId, snapshot: InmempoolSnapshot) -> (r: InmempoolPlan)
    ensures
        match (snapshot.queue_exists, snapshot.next_inmempool, snapshot.shutting_down) {
            (false, _, _) => r matches InmempoolPlan::Done(Err(ProcessInmempoolTransactionError::RelayerTransactionsQueueNotFound(id)))
                && id == relayer_id,
            (true, None, _) => r == InmempoolPlan::Done(
                Ok(ProcessResult { status: ProcessInmempoolStatus::NoInmempoolTransactions, process_again_after: 10 }),
            ),
            (true, Some(_), true) => r matches InmempoolPlan::Done(Err(ProcessInmempoolTransactionError::RelayerTransactionsQueueNotFound(id)))
                && id == relayer_id,
            (true, Some(t), false) => match t.known_transaction_hash {
                None => r matches InmempoolPlan::Done(Err(ProcessInmempoolTransactionError::UnknownTransactionHash(id, a, u)))
                    && id == relayer_id && a == snapshot.relay_address && u@ == t@,
                Some(h) => r matches InmempoolPlan::FetchReceipt { transaction, hash } && transaction@ == t@ && hash == h,
            },
        },
{
    if !snapshot.queue_exists {
        return InmempoolPlan::Done(Err(ProcessInmempoolTransactionError::RelayerTransactionsQueueNotFound(relayer_id)));
    }
    match snapshot.next_inmempool {
        None => InmempoolPlan::Done(Ok(ProcessResult::other(ProcessInmempoolStatus::NoInmempoolTransactions, None))),
        Some(transaction) => {
            if snapshot.shutting_down {
                return InmempoolPlan::Done(
                    Err(ProcessInmempoolTransactionError::RelayerTransactionsQueueNotFound(relayer_id)),
                );
            }
            match transaction.known_transaction_hash {
                Some(hash) => InmempoolPlan::FetchReceipt { transaction, hash },
                None => InmempoolPlan::Done(Err(ProcessInmempoolTransactionError::UnknownTransactionHash(
                    relayer_id,
                    snapshot.relay_address,
                    transaction,
                ))),
            }
        },
    }
}

/// What the in-mempool processor does once the receipt lookup came back.
pub enum InmempoolAfterReceipt {
    Done(Result<ProcessResult<ProcessInmempoolStatus>, ProcessInmempoolTransactionError>),
    /// The transaction (or its competitor) was mined: settle the competition
    /// in the queue, record the outcome, then finish with `finish_settlement`.
    Settle,
    /// Not mined yet and sent `elapsed_ms` ago: ask whether the fees are at
    /// their cap and whether it is time to bump, then report to
    /// `inmempool_gas_check`.
    CheckGasBump { elapsed_ms: u64 },
}

/// Decides what follows the receipt lookup of an in-mempool transaction;
/// `receipt` is whether a receipt was found, or the lookup's error.
pub fn inmempool_after_receipt(
    relayer_id: RelayerId,
    relay_address: EvmAddress,
    transaction: Transaction,
    receipt: Result<bool, String>,
    now_ms: i64,
    block_time_ms: Option<u64>,
) -> (r: InmempoolAfterReceipt)
    requires
        valid_time(now_ms),
        transaction.sent_at matches Some(s) ==> valid_time(s),
    ensures
        match receipt {
            Err(e) => r matches InmempoolAfterReceipt::Done(Err(ProcessInmempoolTransactionError::CouldNotGetTransactionReceipt(id, a, t, m)))
                && id == relayer_id && a == relay_address && t@ == transaction@ && m == e,
            Ok(true) => r == InmempoolAfterReceipt::Settle,
            Ok(false) => match transaction.sent_at {
                None => r == InmempoolAfterReceipt::Done(Ok(ProcessResult {
                    status: ProcessInmempoolStatus::StillInmempool,
                    process_again_after: still_inmempool_wait(block_time_ms),
                })),
                Some(s) => r == InmempoolAfterReceipt::CheckGasBump { elapsed_ms: elapsed_ms(s, now_ms) },
            },
        },
{
    match receipt {
        Err(e) => InmempoolAfterReceipt::Done(Err(ProcessInmempoolTransactionError::CouldNotGetTransactionReceipt(
            relayer_id,
            relay_address,
            transaction,
            e,
        ))),
        Ok(true) => InmempoolAfterReceipt::Settle,
        Ok(false) => match transaction.sent_at {
            None => InmempoolAfterReceipt::Done(Ok(still_inmempool(block_time_ms))),
            Some(s) => InmempoolAfterReceipt::CheckGasBump { elapsed_ms: elapsed_between(s, now_ms) },
        },
    }
}

/// What the in-mempool processor does about the fees of a pending transaction.
pub enum GasBumpDecision {
    Done(ProcessResult<ProcessInmempoolStatus>),
    /// Send the transaction again with bumped fees, then report to
    /// `inmempool_after_bump`.
    Bump,
}

/// Decides whether to bump the fees of a transaction still in the mempool.
/// `gas_cap_reached` and `blob_gas_cap_reached` say whether the fees it was
/// sent with are at the relayer's cap; `bump_due` whether enough blocks
/// have passed for its speed.
pub fn inmempool_gas_check(
    transaction: &Transaction,
    gas_cap_reached: bool,
    blob_gas_cap_reached: bool,
    bump_due: bool,
    block_time_ms: Option<u64>,
) -> (r: GasBumpDecision)
    ensures
        ((transaction.sent_with_gas is Some && gas_cap_reached) || (transaction.sent_with_blob_gas is Some && blob_gas_cap_reached)
            || !bump_due) ==> r == GasBumpDecision::Done(ProcessResult {
                status: ProcessInmempoolStatus::StillInmempool,
                process_again_after: still_inmempool_wait(block_time_ms),
            }),
        !((transaction.sent_with_gas is Some && gas_cap_reached) || (transaction.sent_with_blob_gas is Some && blob_gas_cap_reached)
            || !bump_due) ==> r == GasBumpDecision::Bump,
{
    let at_max_gas_cap = transaction.sent_with_gas.is_some() && gas_cap_reached;
    let at_max_blob_gas_cap = transaction.sent_with_blob_gas.is_some() && blob_gas_cap_reached;
    if at_max_gas_cap || at_max_blob_gas_cap {
        return GasBumpDecision::Done(still_inmempool(block_time_ms));
    }
    if bump_due {
        GasBumpDecision::Bump
    } else {
        GasBumpDecision::Done(still_inmempool(block_time_ms))
    }
}

/// What a successful send reports: the transaction, its hash and the fees
/// it went out with.
#[derive(Debug, Clone)]
pub struct TransactionSent {
    pub id: TransactionId,
    pub hash: TransactionHash,
    pub sent_with_gas: GasPriceResult,
    pub sent_with_blob_gas: Option<BlobGasPriceResult>,
}

/// Records on the transaction the resend that bumped its fees, at `now_ms`.
pub fn apply_gas_bump(transaction: &mut Transaction, sent: &TransactionSent, now_ms: i64)
    ensures
        final(transaction)@ == (TransactionView {
            known_transaction_hash: Some(sent.hash),
            sent_with_max_fee_per_gas: Some(sent.sent_with_gas.max_fee),
            sent_with_max_priority_fee_per_gas: Some(sent.sent_with_gas.max_priority_fee),
            sent_with_gas: Some(sent.sent_with_gas),
            sent_at: Some(now_ms),
            ..old(transaction)@
        }),
{
    transaction.known_transaction_hash = Some(sent.hash);
    transaction.sent_with_max_fee_per_gas = Some(sent.sent_with_gas.max_fee);
    transaction.sent_with_max_priority_fee_per_gas = Some(sent.sent_with_gas.max_priority_fee);
    transaction.sent_with_gas = Some(sent.sent_with_gas);
    transaction.sent_at = Some(now_ms);
}

/// What the in-mempool processor does after a fee-bumping resend.
pub enum InmempoolAfterBump {
    /// Record the bump on the transaction (`apply_gas_bump`) and in the
    /// queue; the pass is over with this result.
    Bumped(ProcessResult<ProcessInmempoolStatus>),
    /// Resynchronise the nonce, then finish with `finish_inmempool_nonce_recovery`.
    RecoverNonce { send_error: String },
    Done(Result<ProcessResult<ProcessInmempoolStatus>, ProcessInmempoolTransactionError>),
}

/// Decides what follows a fee-bumping resend that came back with `outcome`.
pub fn inmempool_after_bump(
    relayer_id: RelayerId,
    relay_address: EvmAddress,
    outcome: Result<(), TransactionQueueSendTransactionError>,
) -> (r: InmempoolAfterBump)
    ensures
        match outcome {
            Ok(()) => r == InmempoolAfterBump::Bumped(
                ProcessResult { status: ProcessInmempoolStatus::GasIncreased, process_again_after: 10 },
            ),
            Err(TransactionQueueSendTransactionError::TransactionSendError(e)) => if mentions_nonce_desync(lowercase_text(e@)) {
                r matches InmempoolAfterBump::RecoverNonce { send_error } && send_error == e
            } else {
                r matches InmempoolAfterBump::Done(Err(ProcessInmempoolTransactionError::SendTransactionError(id, a,
                    TransactionQueueSendTransactionError::TransactionSendError(m)))) && id == relayer_id && a == relay_address && m == e
            },
            Err(other) => r matches InmempoolAfterBump::Done(Err(ProcessInmempoolTransactionError::SendTransactionError(id, a, f)))
                && id == relayer_id && a == relay_address && f == other,
        },
{
    match outcome {
        Ok(()) => InmempoolAfterBump::Bumped(ProcessResult::other(ProcessInmempoolStatus::GasIncreased, None)),
        Err(TransactionQueueSendTransactionError::TransactionSendError(error)) => {
            if is_nonce_desync_error(error.as_str()) {
                InmempoolAfterBump::RecoverNonce { send_error: error }
            } else {
                InmempoolAfterBump::Done(Err(ProcessInmempoolTransactionError::SendTransactionError(
                    relayer_id,
                    relay_address,
                    TransactionQueueSendTransactionError::TransactionSendError(error),
                )))
            }
        },
        Err(other) => InmempoolAfterBump::Done(
            Err(ProcessInmempoolTransactionError::SendTransactionError(relayer_id, relay_address, other)),
        ),
    }
}

/// Ends an in-mempool pass that resynchronised the nonce after a resend failed.
pub fn finish_inmempool_nonce_recovery(
    relayer_id: RelayerId,
    relay_address: EvmAddress,
    recovered: Result<(), String>,
    send_error: String,
) -> (r: Result<ProcessResult<ProcessInmempoolStatus>, ProcessInmempoolTransactionError>)
    ensures
        match recovered {
            Ok(()) => r == Ok::<ProcessResult<ProcessInmempoolStatus>, ProcessInmempoolTransactionError>(
                ProcessResult { status: ProcessInmempoolStatus::NonceSynchronized, process_again_after: NONCE_SYNCHRONIZED_WAIT_MS },
            ),
            Err(_) => r matches Err(ProcessInmempoolTransactionError::SendTransactionError(id, a,
                TransactionQueueSendTransactionError::TransactionSendError(m)))
                && id == relayer_id && a == relay_address && m == send_error,
        },
{
    match recovered {
        Ok(()) => Ok(ProcessResult::other(ProcessInmempoolStatus::NonceSynchronized, Some(&NONCE_SYNCHRONIZED_WAIT_MS))),
        Err(_) => Err(ProcessInmempoolTransactionError::SendTransactionError(
            relayer_id,
            relay_address,
            TransactionQueueSendTransactionError::TransactionSendError(send_error),
        )),
    }
}

/// How the settled competition of a mined nonce is recorded.
pub struct Settlement {
    /// The transaction that won the nonce, and the status it ends in.
    pub winner: Transaction,
    pub winner_status: TransactionStatus,
    /// Whether recording the winner in the database worked, where its
    /// status is recorded at all (mined, expired or failed).
    pub winner_recorded: Result<(), String>,
    /// The transaction that lost the nonce and whether recording it worked;
    /// only looked at for a mined winner.
    pub loser: Option<(Transaction, Result<(), String>)>,
}

/// Whether a settlement's winner status is one the database records.
pub open spec fn records_winner(status: TransactionStatus) -> bool {
    status == TransactionStatus::MINED || status == TransactionStatus::EXPIRED || status == TransactionStatus::FAILED
}

/// Whether there is a loser whose record failed.
pub open spec fn loser_record_failed(loser: Option<(Transaction, Result<(), String>)>) -> bool {
    loser matches Some((_, Err(_)))
}

/// Ends an in-mempool pass whose transaction was mined: the first failure
/// among moving it out of the queue, recording the winner and (for a mined
/// winner) recording the loser; else success.
pub fn finish_settlement(
    relayer_id: RelayerId,
    relay_address: EvmAddress,
    settled: Result<Settlement, String>,
) -> (r: Result<ProcessResult<ProcessInmempoolStatus>, ProcessInmempoolTransactionError>)
    ensures
        match settled {
            Err(e) => r matches Err(ProcessInmempoolTransactionError::MoveInmempoolTransactionToMinedError(id, a, m))
                && id == relayer_id && a == relay_address && m == e,
            Ok(s) => if records_winner(s.winner_status) && s.winner_recorded is Err {
                r matches Err(ProcessInmempoolTransactionError::CouldNotUpdateTransactionStatusInTheDatabase(id, a, t, st, m))
                    && id == relayer_id && a == relay_address && t@ == s.winner@ && st == s.winner_status
                    && m == s.winner_recorded->Err_0
            } else if s.winner_status == TransactionStatus::MINED && loser_record_failed(s.loser) {
                match s.loser {
                    Some((l, Err(le))) => r matches Err(ProcessInmempoolTransactionError::CouldNotUpdateTransactionStatusInTheDatabase(id, a, t, st, m))
                        && id == relayer_id && a == relay_address && t@ == l@ && st == l.status && m == le,
                    _ => false,
                }
            } else {
                r == Ok::<ProcessResult<ProcessInmempoolStatus>, ProcessInmempoolTransactionError>(
                    ProcessResult { status: ProcessInmempoolStatus::Success, process_again_after: 10 },
                )
            },
        },
{
    match settled {
        Err(e) => Err(ProcessInmempoolTransactionError::MoveInmempoolTransactionToMinedError(relayer_id, relay_address, e)),
        Ok(s) => {
            let recorded_status = s.winner_status == TransactionStatus::MINED
                || s.winner_status == TransactionStatus::EXPIRED || s.winner_status == TransactionStatus::FAILED;
            if recorded_status {
                if let Err(e) = s.winner_recorded {
                    return Err(ProcessInmempoolTransactionError::CouldNotUpdateTransactionStatusInTheDatabase(
                        relayer_id,
                        relay_address,
                        s.winner,
                        s.winner_status,
                        e,
                    ));
                }
            }
            if s.winner_status == TransactionStatus::MINED {
                if let Some((loser, Err(e))) = s.loser {
                    let status = loser.status;
                    return Err(ProcessInmempoolTransactionError::CouldNotUpdateTransactionStatusInTheDatabase(
                        relayer_id,
                        relay_address,
                        loser,
                        status,
                        e,
                    ));
                }
            }
            Ok(ProcessResult::success())
        },
    }
}

/// Why a pass of the mined processor failed.
#[derive(Debug)]
pub enum ProcessMinedTransactionError {
    RelayerTransactionsQueueNotFound(RelayerId),
    NoMinedAt(RelayerId, EvmAddress, Transaction),
    CouldNotGetTransactionReceipt(RelayerId, EvmAddress, Transaction, String),
    TransactionConfirmedNotSaveToDatabase(RelayerId, EvmAddress, Transaction, String),
}

/// What the mined processor found in a relayer's queue.
pub struct MinedSnapshot {
    pub queue_exists: bool,
    pub relay_address: EvmAddress,
    pub next_mined: Option<Transaction>,
    pub shutting_down: bool,
    pub now_ms: i64,
}

/// What the mined processor does next.
pub enum MinedPlan {
    Done(Result<ProcessResult<ProcessMinedStatus>, ProcessMinedTransactionError>),
    /// Ask the queue whether `elapsed_ms` since mining is in the confirmed
    /// range, then report to `mined_after_confirmation_check`.
    CheckConfirmation { transaction: Transaction, elapsed_ms: u64 },
}

/// Decides what one pass of the mined processor does.
pub fn plan_mined(relayer_id: RelayerId, snapshot: MinedSnapshot) -> (r: MinedPlan)
    requires
        valid_time(snapshot.now_ms),
        snapshot.next_mined matches Some(t) ==> (t.mined_at matches Some(m) ==> valid_time(m)),
    ensures
        match (snapshot.queue_exists, snapshot.next_mined, snapshot.shutting_down) {
            (false, _, _) => r matches MinedPlan::Done(Err(ProcessMinedTransactionError::RelayerTransactionsQueueNotFound(id)))
                && id == relayer_id,
            (true, None, _) => r == MinedPlan::Done(
                Ok(ProcessResult { status: ProcessMinedStatus::NoMinedTransactions, process_again_after: 10 }),
            ),
            (true, Some(_), true) => r matches MinedPlan::Done(Err(ProcessMinedTransactionError::RelayerTransactionsQueueNotFound(id)))
                && id == relayer_id,
            (true, Some(t), false) => match t.mined_at {
                None => r matches MinedPlan::Done(Err(ProcessMinedTransactionError::NoMinedAt(id, a, u)))
                    && id == relayer_id && a == snapshot.relay_address && u@ == t@,
                Some(m) => r matches MinedPlan::CheckConfirmation { transaction, elapsed_ms: e }
                    && transaction@ == t@ && e == elapsed_ms(m, snapshot.now_ms),
            },
        },
{
    if !snapshot.queue_exists {
        return MinedPlan::Done(Err(ProcessMinedTransactionError::RelayerTransactionsQueueNotFound(relayer_id)));
    }
    match snapshot.next_mined {
        None => MinedPlan::Done(Ok(ProcessResult::other(ProcessMinedStatus::NoMinedTransactions, None))),
        Some(transaction) => {
            if snapshot.shutting_down {
                return MinedPlan::Done(Err(ProcessMinedTransactionError::RelayerTransactionsQueueNotFound(relayer_id)));
            }
            match transaction.mined_at {
                None => MinedPlan::Done(
                    Err(ProcessMinedTransactionError::NoMinedAt(relayer_id, snapshot.relay_address, transaction)),
                ),
                Some(mined_at) => {
                    let elapsed = elapsed_between(mined_at, snapshot.now_ms);
                    MinedPlan::CheckConfirmation { transaction, elapsed_ms: elapsed }
                },
            }
        },
    }
}

/// What the mined processor does once it knows whether the transaction is
/// deep enough to count as confirmed.
pub enum MinedAfterCheck {
    Done(Result<ProcessResult<ProcessMinedStatus>, ProcessMinedTransactionError>),
    /// Fetch the receipt of `hash`, then report to `mined_after_receipt`.
    FetchReceipt { transaction: Transaction, hash: TransactionHash },
}

/// Decides what follows the confirmation check of a mined transaction.
pub fn mined_after_confirmation_check(
    relayer_id: RelayerId,
    relay_address: EvmAddress,
    transaction: Transaction,
    in_confirmed_range: bool,
) -> (r: MinedAfterCheck)
    ensures
        !in_confirmed_range ==> r == MinedAfterCheck::Done(
            Ok(ProcessResult { status: ProcessMinedStatus::NotConfirmedYet, process_again_after: 10 }),
        ),
        in_confirmed_range ==> match transaction.known_transaction_hash {
            None => r matches MinedAfterCheck::Done(Err(ProcessMinedTransactionError::CouldNotGetTransactionReceipt(id, a, t, m)))
                && id == relayer_id && a == relay_address && t@ == transaction@ && m@ == "Transaction hash not found"@,
            Some(h) => r matches MinedAfterCheck::FetchReceipt { transaction: t, hash } && t@ == transaction@ && hash == h,
        },
{
    if !in_confirmed_range {
        return MinedAfterCheck::Done(Ok(ProcessResult::other(ProcessMinedStatus::NotConfirmedYet, None)));
    }
    match transaction.known_transaction_hash {
        Some(hash) => MinedAfterCheck::FetchReceipt { transaction, hash },
        None => MinedAfterCheck::Done(Err(ProcessMinedTransactionError::CouldNotGetTransactionReceipt(
            relayer_id,
            relay_address,
            transaction,
            String::from_str("Transaction hash not found"),
        ))),
    }
}

/// Decides what follows the receipt lookup of a transaction due for
/// confirmation: `Ok(())` to record it as confirmed, else the error.
pub fn mined_after_receipt(
    relayer_id: RelayerId,
    relay_address: EvmAddress,
    transaction: Transaction,
    receipt: Result<bool, String>,
) -> (r: Result<(), ProcessMinedTransactionError>)
    ensures
        match receipt {
            Err(e) => r matches Err(ProcessMinedTransactionError::CouldNotGetTransactionReceipt(id, a, t, m))
                && id == relayer_id && a == relay_address && t@ == transaction@ && m == e,
            Ok(false) => r matches Err(ProcessMinedTransactionError::CouldNotGetTransactionReceipt(id, a, t, m))
                && id == relayer_id && a == relay_address && t@ == transaction@ && m@ == "No receipt"@,
            Ok(true) => r is Ok,
        },
{
    match receipt {
        Err(e) => Err(ProcessMinedTransactionError::CouldNotGetTransactionReceipt(relayer_id, relay_address, transaction, e)),
        Ok(false) => Err(ProcessMinedTransactionError::CouldNotGetTransactionReceipt(
            relayer_id,
            relay_address,
            transaction,
            String::from_str("No receipt"),
        )),
        Ok(true) => Ok(()),
    }
}

/// A transaction once confirmed at `now_ms`.
pub open spec fn confirmed_view(t: TransactionView, now_ms: i64) -> TransactionView {
    TransactionView { status: TransactionStatus::CONFIRMED, confirmed_at: Some(now_ms), ..t }
}

/// Records on a transaction that it was confirmed at `now_ms`: the record
/// it is announced with.
pub fn mark_transaction_confirmed(transaction: &mut Transaction, now_ms: i64)
    ensures
        final(transaction)@ == confirmed_view(old(transaction)@, now_ms),
{
    transaction.status = TransactionStatus::CONFIRMED;
    transaction.confirmed_at = Some(now_ms);
}

/// Ends a mined pass that recorded its transaction as confirmed; the
/// transaction is announced with the record `mark_transaction_confirmed` gives.
pub fn finish_confirmation(
    relayer_id: RelayerId,
    relay_address: EvmAddress,
    transaction: Transaction,
    recorded: Result<(), String>,
) -> (r: Result<ProcessResult<ProcessMinedStatus>, ProcessMinedTransactionError>)
    ensures
        match recorded {
            Err(e) => r matches Err(ProcessMinedTransactionError::TransactionConfirmedNotSaveToDatabase(id, a, t, m))
                && id == relayer_id && a == relay_address && t@ == transaction@ && m == e,
            Ok(()) => r == Ok::<ProcessResult<ProcessMinedStatus>, ProcessMinedTransactionError>(
                ProcessResult { status: ProcessMinedStatus::Success, process_again_after: 10 },
            ),
        },
{
    match recorded {
        Err(e) => Err(ProcessMinedTransactionError::TransactionConfirmedNotSaveToDatabase(relayer_id, relay_address, transaction, e)),
        Ok(()) => Ok(ProcessResult::success()),
    }
}


/// How long a processor loop waits after a pending pass: the pass's own
/// delay, one second after an error, or `None` (stop) once the relayer's
/// queue is gone.
pub fn pending_loop_wait(result: &Result<ProcessResult<ProcessPendingStatus>, ProcessPendingTransactionError>) -> (r: Option<u64>)
    ensures
        match result {
            Ok(p) => r == Some(p.process_again_after),
            Err(ProcessPendingTransactionError::RelayerTransactionsQueueNotFound(_)) => r is None,
            Err(_) => r == Some(ERROR_RETRY_WAIT_MS),
        },
{
    match result {
        Ok(p) => Some(p.process_again_after),
        Err(ProcessPendingTransactionError::RelayerTransactionsQueueNotFound(_)) => None,
        Err(_) => Some(ERROR_RETRY_WAIT_MS),
    }
}

/// How long a processor loop waits after an in-mempool pass (see
/// `pending_loop_wait`).
pub fn inmempool_loop_wait(result: &Result<ProcessResult<ProcessInmempoolStatus>, ProcessInmempoolTransactionError>) -> (r: Option<u64>)
    ensures
        match result {
            Ok(p) => r == Some(p.process_again_after),
            Err(ProcessInmempoolTransactionError::RelayerTransactionsQueueNotFound(_)) => r is None,
            Err(_) => r == Some(ERROR_RETRY_WAIT_MS),
        },
{
    match result {
        Ok(p) => Some(p.process_again_after),
        Err(ProcessInmempoolTransactionError::RelayerTransactionsQueueNotFound(_)) => None,
        Err(_) => Some(ERROR_RETRY_WAIT_MS),
    }
}

/// How long a processor loop waits after a mined pass (see
/// `pending_loop_wait`).
pub fn mined_loop_wait(result: &Result<ProcessResult<ProcessMinedStatus>, ProcessMinedTransactionError>) -> (r: Option<u64>)
    ensures
        match result {
            Ok(p) => r == Some(p.process_again_after),
            Err(ProcessMinedTransactionError::RelayerTransactionsQueueNotFound(_)) => r is None,
            Err(_) => r == Some(ERROR_RETRY_WAIT_MS),
        },
{
    match result {
        Ok(p) => Some(p.process_again_after),
        Err(ProcessMinedTransactionError::RelayerTransactionsQueueNotFound(_)) => None,
        Err(_) => Some(ERROR_RETRY_WAIT_MS),
    }
}

/// `t` after `k` failed send attempts.
pub open spec fn with_attempts(t: TransactionView, k: u32) -> TransactionView {
    TransactionView { send_attempt_count: k, ..t }
}

/// The waits of the first `n` ordinary send failures of a transaction that
/// had none before, added up.
pub open spec fn total_send_error_backoff(n: nat) -> nat
    decreases n,
{
    if n == 0 {
        0
    } else {
        total_send_error_backoff((n - 1) as nat) + send_error_backoff_ms(n)
    }
}

/// With automatic failing turned on, a noop that keeps failing with
/// ordinary send errors is sent on each of its first `MAX_NOOP_SEND_ATTEMPTS`
/// passes and failed on the next one, whether or not it has expired; the
/// waits between those passes add up to 362 seconds, so it cannot spin in a
/// hot loop.
pub proof fn lemma_stuck_noop_fails_after_max_attempts(t: TransactionView, relay_address: EvmAddress, now_ms: i64)
    requires
        t.is_noop,
    ensures
        forall|k: u32| k < MAX_NOOP_SEND_ATTEMPTS ==> !fails_by_retry_limit(
            true,
            #[trigger] prepared_for_send(with_attempts(t, k), relay_address, now_ms),
        ),
        fails_by_retry_limit(true, prepared_for_send(with_attempts(t, MAX_NOOP_SEND_ATTEMPTS), relay_address, now_ms)),
        total_send_error_backoff(MAX_NOOP_SEND_ATTEMPTS as nat) == 362_000,
{
    reveal_with_fuel(crate::process_result::nat_pow, 6);
    assert(send_error_backoff_ms(1) == 2000);
    assert(send_error_backoff_ms(2) == 4000);
    assert(send_error_backoff_ms(3) == 8000);
    assert(send_error_backoff_ms(4) == 16000);
    assert(send_error_backoff_ms(5) == 32000);
    lemma_send_error_backoff_capped(6);
    lemma_send_error_backoff_capped(7);
    lemma_send_error_backoff_capped(8);
    lemma_send_error_backoff_capped(9);
    lemma_send_error_backoff_capped(10);
    reveal_with_fuel(total_send_error_backoff, 11);
}

/// The noop retry limit never fails a transaction that is not a noop and
/// has not expired, however many sends it has failed, whatever the setting.
pub proof fn lemma_noop_limit_spares_regular_transactions(
    t: TransactionView,
    relay_address: EvmAddress,
    now_ms: i64,
    auto_fail: bool,
)
    requires
        !t.is_noop,
        !expired_at(t, now_ms),
    ensures
        !fails_by_retry_limit(auto_fail, prepared_for_send(t, relay_address, now_ms)),
{
}

/// With automatic failing off, as it is when the setting is absent, no
/// transaction is ever failed by the retry limit, however many sends it
/// has failed.
pub proof fn lemma_no_retry_limit_unless_enabled(t: TransactionView, relay_address: EvmAddress, now_ms: i64)
    ensures
        !fails_by_retry_limit(false, prepared_for_send(t, relay_address, now_ms)),
{
}

/// An expired transaction is never sent as it was: what goes out is a noop
/// to the relayer itself that moves no value and carries no data.
pub proof fn lemma_expired_transactions_go_out_as_noops(t: TransactionView, relay_address: EvmAddress, now_ms: i64)
    requires
        expired_at(t, now_ms),
    ensures
        prepared_for_send(t, relay_address, now_ms).is_noop,
        prepared_for_send(t, relay_address, now_ms).to == relay_address,
        prepared_for_send(t, relay_address, now_ms).value == 0,
        prepared_for_send(t, relay_address, now_ms).data.len() == 0,
        prepared_for_send(t, relay_address, now_ms).nonce == t.nonce,
        prepared_for_send(t, relay_address, now_ms).gas_limit == Some(21_000u128),
        prepared_for_send(t, relay_address, now_ms).speed == TransactionSpeed::FAST,
        prepared_for_send(t, relay_address, now_ms).id == t.id,
        prepared_for_send(t, relay_address, now_ms).from == t.from,
        prepared_for_send(t, relay_address, now_ms).send_attempt_count == t.send_attempt_count,
{
}


/// How a send error is handled, by the phrases its lowercase text holds:
/// "insufficient funds", "balance", "overshot" or "execution reverted"
/// fail the transaction; otherwise "nonce too low", "nonce is too low",
/// "invalid nonce", "nonce has already been used" or "already known"
/// resynchronise the nonce; any other error counts the attempt and backs
/// off for the next attempt's wait.
pub proof fn lemma_send_error_handling(
    r: PendingAfterSend,
    relayer_id: RelayerId,
    relay_address: EvmAddress,
    t: TransactionView,
    e: String,
    block_time_ms: Option<u64>,
)
    requires
        pending_after_send_spec(
            r,
            relayer_id,
            relay_address,
            t,
            Err(TransactionQueueSendTransactionError::TransactionSendError(e)),
            block_time_ms,
        ),
    ensures
        ({
            let l = lowercase_text(e@);
            let fatal = has_run(l, "insufficient funds"@) || has_run(l, "balance"@) || has_run(l, "overshot"@)
                || has_run(l, "execution reverted"@);
            let nonce = has_run(l, "nonce too low"@) || has_run(l, "nonce is too low"@) || has_run(l, "invalid nonce"@)
                || has_run(l, "nonce has already been used"@) || has_run(l, "already known"@);
            &&& fatal ==> (r matches PendingAfterSend::MarkFailed { reason, .. } && reason@ == e@)
            &&& !fatal && nonce ==> (r matches PendingAfterSend::RecoverNonce { send_error } && send_error@ == e@)
            &&& !fatal && !nonce ==> r == PendingAfterSend::CountAttemptAndWait(
                ProcessResult {
                    status: ProcessPendingStatus::SendErrorBackoff,
                    process_again_after: send_error_backoff_ms((t.send_attempt_count + 1) as nat) as u64,
                },
            )
        }),
{
}


/// A sent transaction is in the mempool with the hash it went out with and
/// its send time; a confirmed one is confirmed at its confirmation time.
/// Nothing else about either changes.
pub proof fn lemma_sent_and_confirmed_records(t: TransactionView, hash: TransactionHash, now_ms: i64)
    ensures
        sent_view(t, hash, now_ms).status == TransactionStatus::INMEMPOOL,
        sent_view(t, hash, now_ms).known_transaction_hash == Some(hash),
        sent_view(t, hash, now_ms).sent_at == Some(now_ms),
        sent_view(t, hash, now_ms) == (TransactionView {
            status: sent_view(t, hash, now_ms).status,
            known_transaction_hash: sent_view(t, hash, now_ms).known_transaction_hash,
            sent_at: sent_view(t, hash, now_ms).sent_at,
            ..t
        }),
        confirmed_view(t, now_ms).status == TransactionStatus::CONFIRMED,
        confirmed_view(t, now_ms).confirmed_at == Some(now_ms),
        confirmed_view(t, now_ms) == (TransactionView {
            status: confirmed_view(t, now_ms).status,
            confirmed_at: confirmed_view(t, now_ms).confirmed_at,
            ..t
        }),
{
}


/// Only a transaction whose expiry lies before now goes out as a noop;
/// one expiring now or later goes out exactly as it was queued.
pub proof fn lemma_only_expired_transactions_change(t: TransactionView, relay_address: EvmAddress, now_ms: i64)
    ensures
        t.expires_at >= now_ms ==> prepared_for_send(t, relay_address, now_ms) == t,
        t.expires_at < now_ms ==> prepared_for_send(t, relay_address, now_ms).is_noop,
{
}

} // verus!
