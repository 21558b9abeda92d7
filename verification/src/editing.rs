//! Cancelling and replacing queued transactions, and rebuilding the
//! competitions between an original and its replacement after a restart.

use vstd::prelude::*;

use crate::primitives::{ChainId, EvmAddress, RelayerId, TransactionHash, TransactionId, Uint256};
use crate::queue::{
    is_nonce_desync_error, mentions_nonce_desync, TransactionQueueSendTransactionError, TransactionSent,
};
use crate::text::{lowercase_text, uuid_string, uuid_text};
use crate::transaction::{
    blobs_view, opt_string_view, BlobGasPriceResult, GasPriceResult, Transaction, TransactionSpeed, TransactionStatus,
    TransactionView,
};
use vstd::string::*;

verus! {

/// How long a queued transaction may wait before it expires: 12 hours, in ms.
pub const TRANSACTION_LIFETIME_MS: i64 = 43_200_000;

/// A value raised by a fifth (integer division), as fees and gas limits are
/// bumped to replace a transaction in the mempool.
pub open spec fn bumped(v: u128) -> int {
    v + v / 5
}

/// Whether a bump of `v` fits in a `u128`.
pub open spec fn bump_fits(v: u128) -> bool {
    bumped(v) <= u128::MAX
}

fn bump(v: u128) -> (r: u128)
    requires
        bump_fits(v),
    ensures
        r == bumped(v),
{
    v + v / 5
}

/// The expiry of a transaction queued at `now_ms`.
pub open spec fn expiry_for(now_ms: i64) -> i64 {
    (now_ms + TRANSACTION_LIFETIME_MS) as i64
}

/// Where a transaction that can still be edited stands.
#[derive(Debug, Clone, Copy, PartialEq, Eq, Structural)]
pub enum EditableTransactionType {
    Pending,
    Inmempool,
}

/// A transaction that can still be cancelled or replaced.
#[derive(Debug)]
pub struct EditableTransaction {
    pub transaction: Transaction,
    pub kind: EditableTransactionType,
}

/// Why a transaction competes for its nonce with another one.
#[derive(Debug, Clone, Copy, PartialEq, Eq, Structural)]
pub enum CompetitionType {
    Cancel,
    Replace,
}

/// Why a cancellation failed.
#[derive(Debug)]
pub enum CancelTransactionError {
    RelayerNotFound(RelayerId),
    RelayerIsPaused(RelayerId),
    SendTransactionError(TransactionQueueSendTransactionError),
    CouldNotUpdateTransactionDb(String),
    NonceSynchronizationRecovered,
}

/// What a cancellation did.
#[derive(Debug, Clone, Copy, PartialEq, Eq, Structural)]
pub struct CancelTransactionResult {
    pub success: bool,
    pub cancel_transaction_id: Option<TransactionId>,
}

impl CancelTransactionResult {
    pub fn success(cancel_transaction_id: TransactionId) -> (r: Self)
        ensures
            r == (CancelTransactionResult { success: true, cancel_transaction_id: Some(cancel_transaction_id) }),
    {
        CancelTransactionResult { success: true, cancel_transaction_id: Some(cancel_transaction_id) }
    }

    pub fn failed() -> (r: Self)
        ensures
            r == (CancelTransactionResult { success: false, cancel_transaction_id: None }),
    {
        CancelTransactionResult { success: false, cancel_transaction_id: None }
    }
}

/// Why a replacement failed.
#[derive(Debug)]
pub enum ReplaceTransactionError {
    TransactionNotFound(TransactionId),
    RelayerIsPaused(RelayerId),
    SendTransactionError(TransactionQueueSendTransactionError),
    CouldNotUpdateTransactionInDb(String),
    NonceSynchronizationRecovered,
}

/// What a replacement did.
#[derive(Debug, Clone, Copy, PartialEq, Eq)]
pub struct ReplaceTransactionResult {
    pub success: bool,
    pub replace_transaction_id: Option<TransactionId>,
    pub replace_transaction_hash: Option<TransactionHash>,
}

impl ReplaceTransactionResult {
    pub fn success(id: TransactionId, hash: TransactionHash) -> (r: Self)
        ensures
            r == (ReplaceTransactionResult {
                success: true,
                replace_transaction_id: Some(id),
                replace_transaction_hash: Some(hash),
            }),
    {
        ReplaceTransactionResult { success: true, replace_transaction_id: Some(id), replace_transaction_hash: Some(hash) }
    }

    pub fn failed() -> (r: Self)
        ensures
            r == (ReplaceTransactionResult { success: false, replace_transaction_id: None, replace_transaction_hash: None }),
    {
        ReplaceTransactionResult { success: false, replace_transaction_id: None, replace_transaction_hash: None }
    }
}

/// The new content a replacement asks for. The blobs come decoded from their
/// hexadecimal text, or with the decoding's error.
pub struct RelayTransactionRequest {
    pub to: EvmAddress,
    pub value: Uint256,
    pub data: Vec<u8>,
    pub blobs: Option<Result<Vec<Vec<u8>>, String>>,
    pub external_id: Option<String>,
}

/// The decoded blobs of a request, where they decoded.
pub open spec fn request_blobs(blobs: Option<Result<Vec<Vec<u8>>, String>>) -> Option<Seq<Seq<u8>>> {
    match blobs {
        Some(Ok(b)) => blobs_view(Some(b)),
        _ => None,
    }
}

/// Whether a request's blobs failed to decode.
pub open spec fn request_blobs_failed(blobs: Option<Result<Vec<Vec<u8>>, String>>) -> bool {
    blobs matches Some(Err(_))
}

/// The content of `t` replaced by the request: new recipient, data, value,
/// blobs and external id; a noop exactly when it now goes to its sender;
/// its gas limit to be estimated again.
pub open spec fn replaced_view(t: TransactionView, request: RelayTransactionRequest) -> TransactionView {
    TransactionView {
        to: request.to,
        data: request.data@,
        value: request.value.value(),
        is_noop: t.from == request.to,
        blobs: request_blobs(request.blobs),
        gas_limit: None,
        external_id: match request.external_id {
            Some(e) => Some(e@),
            None => None,
        },
        ..t
    }
}

fn copy_blob_list(blobs: &Option<Result<Vec<Vec<u8>>, String>>) -> (r: Option<Vec<Vec<u8>>>)
    requires
        !request_blobs_failed(*blobs),
    ensures
        blobs_view(r) == request_blobs(*blobs),
{
    match blobs {
        Some(Ok(b)) => Some(crate::transaction::copy_blobs(b)),
        _ => None,
    }
}

/// Replaces the content of an existing transaction with the request's.
/// The request's blobs must have decoded.
pub fn transaction_replace(current_transaction: &mut Transaction, replace_with: &RelayTransactionRequest)
    requires
        !request_blobs_failed(replace_with.blobs),
    ensures
        final(current_transaction)@ == replaced_view(old(current_transaction)@, *replace_with),
{
    current_transaction.to = replace_with.to;
    current_transaction.data = replace_with.data.clone();
    current_transaction.value = replace_with.value;
    current_transaction.is_noop = current_transaction.from.same_as(&current_transaction.to);
    current_transaction.blobs = copy_blob_list(&replace_with.blobs);
    current_transaction.gas_limit = None;
    current_transaction.external_id = crate::transaction::copy_opt_string(&replace_with.external_id);
}


/// What the queue holds when a cancellation or replacement is asked for.
pub struct EditSnapshot {
    pub queue_exists: bool,
    pub paused: bool,
    /// The transaction asked about, where it can still be edited.
    pub editable: Option<EditableTransaction>,
    /// A shutdown is under way, so no new critical operation may start.
    pub shutting_down: bool,
    pub relay_address: EvmAddress,
    pub chain_id: ChainId,
    pub now_ms: i64,
}

/// The fees of a replacing transaction: each fee of `g` bumped by a fifth.
pub open spec fn bumped_gas(g: GasPriceResult) -> GasPriceResult {
    GasPriceResult {
        max_fee: bumped(g.max_fee) as u128,
        max_priority_fee: bumped(g.max_priority_fee) as u128,
        min_wait_time_estimate: None,
        max_wait_time_estimate: None,
    }
}

/// Whether the bumps of an in-mempool transaction's gas limit and fees fit.
pub open spec fn bumps_fit(t: Transaction) -> bool {
    &&& (t.gas_limit matches Some(l) ==> bump_fits(l))
    &&& (t.sent_with_gas matches Some(g) ==> bump_fits(g.max_fee) && bump_fits(g.max_priority_fee))
}

/// Whether an edit gets to change the transaction `snapshot` holds: the
/// queue exists, is not paused, holds the transaction as editable, and no
/// shutdown is under way.
pub open spec fn edit_goes_ahead(snapshot: EditSnapshot) -> bool {
    snapshot.queue_exists && !snapshot.paused && snapshot.editable is Some && !snapshot.shutting_down
}

/// Whether an edit goes ahead on a transaction of kind `kind`.
pub open spec fn edit_goes_ahead_on(snapshot: EditSnapshot, kind: EditableTransactionType) -> bool {
    edit_goes_ahead(snapshot) && snapshot.editable->0.kind == kind
}

/// What the editing functions ask of the snapshot: times in range, and,
/// where an in-mempool transaction is bumped, bumps that fit.
pub open spec fn edit_snapshot_ok(snapshot: EditSnapshot) -> bool {
    &&& crate::queue::valid_time(snapshot.now_ms)
    &&& (edit_goes_ahead_on(snapshot, EditableTransactionType::Inmempool) ==> bumps_fit(
        snapshot.editable->0.transaction,
    ))
}

/// The transaction that cancels `original` in the mempool: a noop to the
/// relayer itself with the same nonce, its gas limit and fees bumped by a
/// fifth, sent at the highest speed.
pub open spec fn cancel_view(
    original: TransactionView,
    requested: TransactionView,
    cancel_id: TransactionId,
    relay_address: EvmAddress,
    chain_id: ChainId,
    now_ms: i64,
) -> TransactionView {
    TransactionView {
        id: cancel_id,
        relayer_id: requested.relayer_id,
        to: relay_address,
        from: relay_address,
        value: 0,
        data: Seq::empty(),
        nonce: original.nonce,
        chain_id,
        gas_limit: Some(bumped(original.gas_limit->0) as u128),
        status: TransactionStatus::PENDING,
        blobs: None,
        known_transaction_hash: None,
        queued_at: now_ms,
        expires_at: expiry_for(now_ms),
        sent_at: None,
        confirmed_at: None,
        sent_with_gas: Some(bumped_gas(original.sent_with_gas->0)),
        sent_with_blob_gas: None,
        mined_at: None,
        mined_at_block_number: None,
        speed: TransactionSpeed::SUPER,
        sent_with_max_priority_fee_per_gas: None,
        sent_with_max_fee_per_gas: None,
        is_noop: true,
        external_id: Some("cancel_"@ + uuid_text(requested.id.0 as nat)),
        cancelled_by_transaction_id: None,
        send_attempt_count: 0,
    }
}

/// What a cancellation does next.
pub enum CancelPlan {
    Done(Result<CancelTransactionResult, CancelTransactionError>),
    /// Take the pending transaction out of the queue and record it with
    /// this (cancelled) content, then finish with `finish_cancel_pending`.
    CancelPending { cancelled: Transaction },
    /// Send `cancel`, then report to `cancel_after_send`.
    SendCancel { cancel: Transaction },
}

/// The result of a cancellation or replacement when the queue cannot edit it.
pub open spec fn edit_gas_error<T>(r: Result<T, TransactionQueueSendTransactionError>) -> bool {
    r == Err::<T, TransactionQueueSendTransactionError>(TransactionQueueSendTransactionError::GasCalculationError)
}

/// What a cancellation asked for `requested` does, by the snapshot.
pub open spec fn cancel_plan_spec(r: CancelPlan, requested: TransactionView, cancel_id: TransactionId, snapshot: EditSnapshot) -> bool {
    if !snapshot.queue_exists {
        r matches CancelPlan::Done(Err(CancelTransactionError::RelayerNotFound(id))) && id == requested.relayer_id
    } else if snapshot.paused {
        r matches CancelPlan::Done(Err(CancelTransactionError::RelayerIsPaused(id))) && id == requested.relayer_id
    } else {
        match snapshot.editable {
            None => r == CancelPlan::Done(Ok(CancelTransactionResult { success: false, cancel_transaction_id: None })),
            Some(e) => if snapshot.shutting_down {
                r matches CancelPlan::Done(Err(CancelTransactionError::RelayerIsPaused(id))) && id == requested.relayer_id
            } else if e.kind == EditableTransactionType::Pending {
                r matches CancelPlan::CancelPending { cancelled }
                    && cancelled@ == (TransactionView { status: TransactionStatus::CANCELLED, ..e.transaction@ })
            } else if e.transaction.gas_limit is None || e.transaction.sent_with_gas is None {
                r matches CancelPlan::Done(Err(CancelTransactionError::SendTransactionError(
                    TransactionQueueSendTransactionError::GasCalculationError)))
            } else {
                r matches CancelPlan::SendCancel { cancel } && cancel@ == cancel_view(
                    e.transaction@, requested, cancel_id, snapshot.relay_address, snapshot.chain_id, snapshot.now_ms)
            },
        }
    }
}

/// Decides how to cancel `transaction`; `cancel_id` names the cancelling
/// transaction should one be sent.
pub fn plan_cancel(transaction: &Transaction, cancel_id: TransactionId, snapshot: EditSnapshot) -> (r: CancelPlan)
    requires
        edit_snapshot_ok(snapshot),
    ensures
        cancel_plan_spec(r, transaction@, cancel_id, snapshot),
{
    if !snapshot.queue_exists {
        return CancelPlan::Done(Err(CancelTransactionError::RelayerNotFound(transaction.relayer_id)));
    }
    if snapshot.paused {
        return CancelPlan::Done(Err(CancelTransactionError::RelayerIsPaused(transaction.relayer_id)));
    }
    let relay_address = snapshot.relay_address;
    let chain_id = snapshot.chain_id;
    let now_ms = snapshot.now_ms;
    match snapshot.editable {
        None => CancelPlan::Done(Ok(CancelTransactionResult::failed())),
        Some(editable) => {
            if snapshot.shutting_down {
                return CancelPlan::Done(Err(CancelTransactionError::RelayerIsPaused(transaction.relayer_id)));
            }
            let mut original = editable.transaction;
            match editable.kind {
                EditableTransactionType::Pending => {
                    original.status = TransactionStatus::CANCELLED;
                    CancelPlan::CancelPending { cancelled: original }
                },
                EditableTransactionType::Inmempool => {
                    let original_gas_limit = match original.gas_limit {
                        Some(l) => l,
                        None => return CancelPlan::Done(Err(CancelTransactionError::SendTransactionError(
                            TransactionQueueSendTransactionError::GasCalculationError,
                        ))),
                    };
                    let original_gas = match original.sent_with_gas {
                        Some(g) => g,
                        None => return CancelPlan::Done(Err(CancelTransactionError::SendTransactionError(
                            TransactionQueueSendTransactionError::GasCalculationError,
                        ))),
                    };
                    let gas_price = GasPriceResult {
                        max_fee: bump(original_gas.max_fee),
                        max_priority_fee: bump(original_gas.max_priority_fee),
                        min_wait_time_estimate: None,
                        max_wait_time_estimate: None,
                    };
                    let id_text = uuid_string(transaction.id.0);
                    let external_id = String::from_str("cancel_").concat(id_text.as_str());
                    let cancel = Transaction {
                        id: cancel_id,
                        relayer_id: transaction.relayer_id,
                        to: relay_address,
                        from: relay_address,
                        value: Uint256::zero(),
                        data: Vec::new(),
                        nonce: original.nonce,
                        chain_id,
                        gas_limit: Some(bump(original_gas_limit)),
                        status: TransactionStatus::PENDING,
                        blobs: None,
                        known_transaction_hash: None,
                        queued_at: now_ms,
                        expires_at: now_ms + TRANSACTION_LIFETIME_MS,
                        sent_at: None,
                        confirmed_at: None,
                        sent_with_gas: Some(gas_price),
                        sent_with_blob_gas: None,
                        mined_at: None,
                        mined_at_block_number: None,
                        speed: TransactionSpeed::SUPER,
                        sent_with_max_priority_fee_per_gas: None,
                        sent_with_max_fee_per_gas: None,
                        is_noop: true,
                        external_id: Some(external_id),
                        cancelled_by_transaction_id: None,
                        send_attempt_count: 0,
                    };
                    assert(cancel.data@ =~= Seq::<u8>::empty());
                    CancelPlan::SendCancel { cancel }
                },
            }
        },
    }
}

/// Ends the cancellation of a pending transaction once its record came back.
pub fn finish_cancel_pending(recorded: Result<(), String>) -> (r: Result<CancelTransactionResult, CancelTransactionError>)
    ensures
        match recorded {
            Ok(()) => r == Ok::<CancelTransactionResult, CancelTransactionError>(
                CancelTransactionResult { success: true, cancel_transaction_id: None },
            ),
            Err(e) => r matches Err(CancelTransactionError::CouldNotUpdateTransactionDb(m)) && m == e,
        },
{
    match recorded {
        Ok(()) => Ok(CancelTransactionResult { success: true, cancel_transaction_id: None }),
        Err(e) => Err(CancelTransactionError::CouldNotUpdateTransactionDb(e)),
    }
}

/// Records on an original transaction the transaction competing with it.
pub fn mark_competed_by(original: &mut Transaction, competitor_id: TransactionId)
    ensures
        final(original)@ == (TransactionView { cancelled_by_transaction_id: Some(competitor_id), ..old(original)@ }),
{
    original.cancelled_by_transaction_id = Some(competitor_id);
}

/// What a cancellation or replacement does after sending the competing transaction.
pub enum CompetitorAfterSend {
    /// It went out with this hash: record it (`mark_transaction_sent`), add
    /// it as the original's competitor, link the original to it
    /// (`mark_competed_by`), then finish.
    Sent { hash: TransactionHash },
    /// Resynchronise the nonce, then finish with the matching recovery step.
    RecoverNonce { send_error: String },
    /// The send failed with this error.
    Failed(TransactionQueueSendTransactionError),
}

/// Decides what follows the send of a competing transaction.
pub fn competitor_after_send(outcome: Result<TransactionSent, TransactionQueueSendTransactionError>) -> (r: CompetitorAfterSend)
    ensures
        match outcome {
            Ok(sent) => r == CompetitorAfterSend::Sent { hash: sent.hash },
            Err(TransactionQueueSendTransactionError::TransactionSendError(e)) => if mentions_nonce_desync(lowercase_text(e@)) {
                r matches CompetitorAfterSend::RecoverNonce { send_error } && send_error == e
            } else {
                r matches CompetitorAfterSend::Failed(TransactionQueueSendTransactionError::TransactionSendError(m)) && m == e
            },
            Err(other) => r == CompetitorAfterSend::Failed(other),
        },
{
    match outcome {
        Ok(sent) => CompetitorAfterSend::Sent { hash: sent.hash },
        Err(TransactionQueueSendTransactionError::TransactionSendError(error)) => {
            if is_nonce_desync_error(error.as_str()) {
                CompetitorAfterSend::RecoverNonce { send_error: error }
            } else {
                CompetitorAfterSend::Failed(TransactionQueueSendTransactionError::TransactionSendError(error))
            }
        },
        Err(other) => CompetitorAfterSend::Failed(other),
    }
}

/// Ends a cancellation whose cancelling send hit a nonce error: the caller
/// is told to retry where the nonce was resynchronised, else the send error.
pub fn finish_cancel_nonce_recovery(recovered: Result<(), String>, send_error: String) -> (r: Result<CancelTransactionResult, CancelTransactionError>)
    ensures
        match recovered {
            Ok(()) => r matches Err(CancelTransactionError::NonceSynchronizationRecovered),
            Err(_) => r matches Err(CancelTransactionError::SendTransactionError(
                TransactionQueueSendTransactionError::TransactionSendError(m))) && m == send_error,
        },
{
    match recovered {
        Ok(()) => Err(CancelTransactionError::NonceSynchronizationRecovered),
        Err(_) => Err(CancelTransactionError::SendTransactionError(
            TransactionQueueSendTransactionError::TransactionSendError(send_error),
        )),
    }
}

/// Ends a cancellation whose cancelling transaction went out: the first
/// failure among saving it, adding it as competitor and updating the
/// original, else success with its id.
pub fn finish_cancel_inmempool(
    cancel_id: TransactionId,
    saved: Result<(), String>,
    competitor_added: Result<(), TransactionQueueSendTransactionError>,
    original_updated: Result<(), String>,
) -> (r: Result<CancelTransactionResult, CancelTransactionError>)
    ensures
        match (saved, competitor_added, original_updated) {
            (Err(e), _, _) => r matches Err(CancelTransactionError::CouldNotUpdateTransactionDb(m)) && m == e,
            (Ok(()), Err(e), _) => r matches Err(CancelTransactionError::SendTransactionError(m)) && m == e,
            (Ok(()), Ok(()), Err(e)) => r matches Err(CancelTransactionError::CouldNotUpdateTransactionDb(m)) && m == e,
            (Ok(()), Ok(()), Ok(())) => r == Ok::<CancelTransactionResult, CancelTransactionError>(
                CancelTransactionResult { success: true, cancel_transaction_id: Some(cancel_id) },
            ),
        },
{
    match saved {
        Err(e) => return Err(CancelTransactionError::CouldNotUpdateTransactionDb(e)),
        Ok(()) => {},
    }
    match competitor_added {
        Err(e) => return Err(CancelTransactionError::SendTransactionError(e)),
        Ok(()) => {},
    }
    match original_updated {
        Err(e) => Err(CancelTransactionError::CouldNotUpdateTransactionDb(e)),
        Ok(()) => Ok(CancelTransactionResult::success(cancel_id)),
    }
}


/// The transaction that replaces `original` in the mempool with the
/// request's content: same nonce, gas limit and fees bumped by a fifth,
/// sent at the highest speed, its external id the request's or
/// `replace_<id>`.
pub open spec fn replacement_view(
    original: TransactionView,
    requested: TransactionView,
    request: RelayTransactionRequest,
    replace_id: TransactionId,
    relay_address: EvmAddress,
    chain_id: ChainId,
    now_ms: i64,
) -> TransactionView {
    TransactionView {
        id: replace_id,
        relayer_id: requested.relayer_id,
        to: request.to,
        from: relay_address,
        value: request.value.value(),
        data: request.data@,
        nonce: original.nonce,
        chain_id,
        gas_limit: Some(bumped(original.gas_limit->0) as u128),
        status: TransactionStatus::PENDING,
        blobs: request_blobs(request.blobs),
        known_transaction_hash: None,
        queued_at: now_ms,
        expires_at: expiry_for(now_ms),
        sent_at: None,
        confirmed_at: None,
        sent_with_gas: Some(bumped_gas(original.sent_with_gas->0)),
        sent_with_blob_gas: None,
        mined_at: None,
        mined_at_block_number: None,
        speed: TransactionSpeed::SUPER,
        sent_with_max_priority_fee_per_gas: None,
        sent_with_max_fee_per_gas: None,
        is_noop: false,
        external_id: match request.external_id {
            Some(e) => Some(e@),
            None => Some("replace_"@ + uuid_text(requested.id.0 as nat)),
        },
        cancelled_by_transaction_id: None,
        send_attempt_count: 0,
    }
}

/// What a replacement does next.
pub enum ReplacePlan {
    Done(Result<ReplaceTransactionResult, ReplaceTransactionError>),
    /// Store this new content for the pending transaction; the request is
    /// over with `result`.
    ReplacePending { replaced: Transaction, result: ReplaceTransactionResult },
    /// Price the blob gas where the replacement carries blobs, hand the price
    /// to `with_blob_gas_price`, send it, then report to `competitor_after_send`.
    SendReplacement { replacement: Transaction },
}

/// The error text of blobs that did not decode.
pub open spec fn blob_decode_message(e: Seq<char>) -> Seq<char> {
    "Failed to convert blob hex to TransactionBlob: "@ + e
}

/// What a replacement asked for `requested` does, by the snapshot.
pub open spec fn replace_plan_spec(
    r: ReplacePlan,
    requested: TransactionView,
    request: RelayTransactionRequest,
    replace_id: TransactionId,
    snapshot: EditSnapshot,
) -> bool {
    if !snapshot.queue_exists {
        r matches ReplacePlan::Done(Err(ReplaceTransactionError::TransactionNotFound(id))) && id == requested.id
    } else if snapshot.paused {
        r matches ReplacePlan::Done(Err(ReplaceTransactionError::RelayerIsPaused(id))) && id == requested.relayer_id
    } else {
        match snapshot.editable {
            None => r == ReplacePlan::Done(Ok(ReplaceTransactionResult {
                success: false,
                replace_transaction_id: None,
                replace_transaction_hash: None,
            })),
            Some(e) => if snapshot.shutting_down {
                r matches ReplacePlan::Done(Err(ReplaceTransactionError::RelayerIsPaused(id))) && id == requested.relayer_id
            } else if e.kind == EditableTransactionType::Pending {
                r matches ReplacePlan::ReplacePending { replaced, result }
                    && replaced@ == replaced_view(e.transaction@, request)
                    && result == (ReplaceTransactionResult {
                        success: true,
                        replace_transaction_id: Some(e.transaction.id),
                        replace_transaction_hash: e.transaction.known_transaction_hash,
                    })
            } else {
                match request.blobs {
                    Some(Err(be)) => r matches ReplacePlan::Done(Err(ReplaceTransactionError::SendTransactionError(
                        TransactionQueueSendTransactionError::TransactionConversionError(m)))) && m@ == blob_decode_message(be@),
                    _ => if e.transaction.gas_limit is None || e.transaction.sent_with_gas is None {
                        r matches ReplacePlan::Done(Err(ReplaceTransactionError::SendTransactionError(
                            TransactionQueueSendTransactionError::GasCalculationError)))
                    } else {
                        r matches ReplacePlan::SendReplacement { replacement } && replacement@ == replacement_view(
                            e.transaction@, requested, request, replace_id, snapshot.relay_address, snapshot.chain_id, snapshot.now_ms)
                    },
                }
            },
        }
    }
}

/// Decides how to replace `transaction` with the request's content;
/// `replace_id` names the replacing transaction should one be sent. Where
/// a pending transaction is replaced, the request's blobs must have decoded.
pub fn plan_replace(
    transaction: &Transaction,
    replace_with: &RelayTransactionRequest,
    replace_id: TransactionId,
    snapshot: EditSnapshot,
) -> (r: ReplacePlan)
    requires
        edit_snapshot_ok(snapshot),
        edit_goes_ahead_on(snapshot, EditableTransactionType::Pending) ==> !request_blobs_failed(replace_with.blobs),
    ensures
        replace_plan_spec(r, transaction@, *replace_with, replace_id, snapshot),
{
    if !snapshot.queue_exists {
        return ReplacePlan::Done(Err(ReplaceTransactionError::TransactionNotFound(transaction.id)));
    }
    if snapshot.paused {
        return ReplacePlan::Done(Err(ReplaceTransactionError::RelayerIsPaused(transaction.relayer_id)));
    }
    let relay_address = snapshot.relay_address;
    let chain_id = snapshot.chain_id;
    let now_ms = snapshot.now_ms;
    match snapshot.editable {
        None => ReplacePlan::Done(Ok(ReplaceTransactionResult::failed())),
        Some(editable) => {
            if snapshot.shutting_down {
                return ReplacePlan::Done(Err(ReplaceTransactionError::RelayerIsPaused(transaction.relayer_id)));
            }
            let mut original = editable.transaction;
            match editable.kind {
                EditableTransactionType::Pending => {
                    transaction_replace(&mut original, replace_with);
                    let result = ReplaceTransactionResult {
                        success: true,
                        replace_transaction_id: Some(original.id),
                        replace_transaction_hash: original.known_transaction_hash,
                    };
                    ReplacePlan::ReplacePending { replaced: original, result }
                },
                EditableTransactionType::Inmempool => {
                    let blobs = match &replace_with.blobs {
                        Some(Err(e)) => {
                            let message = String::from_str("Failed to convert blob hex to TransactionBlob: ")
                                .concat(e.as_str());
                            return ReplacePlan::Done(Err(ReplaceTransactionError::SendTransactionError(
                                TransactionQueueSendTransactionError::TransactionConversionError(message),
                            )));
                        },
                        _ => copy_blob_list(&replace_with.blobs),
                    };
                    let original_gas = match original.sent_with_gas {
                        Some(g) => g,
                        None => return ReplacePlan::Done(Err(ReplaceTransactionError::SendTransactionError(
                            TransactionQueueSendTransactionError::GasCalculationError,
                        ))),
                    };
                    let original_gas_limit = match original.gas_limit {
                        Some(l) => l,
                        None => return ReplacePlan::Done(Err(ReplaceTransactionError::SendTransactionError(
                            TransactionQueueSendTransactionError::GasCalculationError,
                        ))),
                    };
                    let gas_price = GasPriceResult {
                        max_fee: bump(original_gas.max_fee),
                        max_priority_fee: bump(original_gas.max_priority_fee),
                        min_wait_time_estimate: None,
                        max_wait_time_estimate: None,
                    };
                    let external_id = match &replace_with.external_id {
                        Some(e) => e.clone(),
                        None => {
                            let id_text = uuid_string(transaction.id.0);
                            String::from_str("replace_").concat(id_text.as_str())
                        },
                    };
                    let replacement = Transaction {
                        id: replace_id,
                        relayer_id: transaction.relayer_id,
                        to: replace_with.to,
                        from: relay_address,
                        value: replace_with.value,
                        data: replace_with.data.clone(),
                        nonce: original.nonce,
                        chain_id,
                        gas_limit: Some(bump(original_gas_limit)),
                        status: TransactionStatus::PENDING,
                        blobs,
                        known_transaction_hash: None,
                        queued_at: now_ms,
                        expires_at: now_ms + TRANSACTION_LIFETIME_MS,
                        sent_at: None,
                        confirmed_at: None,
                        sent_with_gas: Some(gas_price),
                        sent_with_blob_gas: None,
                        mined_at: None,
                        mined_at_block_number: None,
                        speed: TransactionSpeed::SUPER,
                        sent_with_max_priority_fee_per_gas: None,
                        sent_with_max_fee_per_gas: None,
                        is_noop: false,
                        external_id: Some(external_id),
                        cancelled_by_transaction_id: None,
                        send_attempt_count: 0,
                    };
                    ReplacePlan::SendReplacement { replacement }
                },
            }
        },
    }
}

/// Sets the blob fee of a replacement: `price` is `None` for one without
/// blobs, else the blob gas pricing's outcome.
pub fn with_blob_gas_price(
    replacement: Transaction,
    price: Option<Result<BlobGasPriceResult, String>>,
) -> (r: Result<Transaction, ReplaceTransactionError>)
    ensures
        match price {
            None => r matches Ok(t) && t@ == (TransactionView { sent_with_blob_gas: None, ..replacement@ }),
            Some(Ok(p)) => r matches Ok(t) && t@ == (TransactionView { sent_with_blob_gas: Some(p), ..replacement@ }),
            Some(Err(e)) => r matches Err(ReplaceTransactionError::SendTransactionError(
                TransactionQueueSendTransactionError::SendTransactionGasPriceError(m))) && m == e,
        },
{
    let mut replacement = replacement;
    match price {
        None => {
            replacement.sent_with_blob_gas = None;
            Ok(replacement)
        },
        Some(Ok(p)) => {
            replacement.sent_with_blob_gas = Some(p);
            Ok(replacement)
        },
        Some(Err(e)) => Err(ReplaceTransactionError::SendTransactionError(
            TransactionQueueSendTransactionError::SendTransactionGasPriceError(e),
        )),
    }
}

/// Ends a replacement whose replacing send hit a nonce error: the caller is
/// told to retry where the nonce was resynchronised, else the send error.
pub fn finish_replace_nonce_recovery(recovered: Result<(), String>, send_error: String) -> (r: Result<ReplaceTransactionResult, ReplaceTransactionError>)
    ensures
        match recovered {
            Ok(()) => r matches Err(ReplaceTransactionError::NonceSynchronizationRecovered),
            Err(_) => r matches Err(ReplaceTransactionError::SendTransactionError(
                TransactionQueueSendTransactionError::TransactionSendError(m))) && m == send_error,
        },
{
    match recovered {
        Ok(()) => Err(ReplaceTransactionError::NonceSynchronizationRecovered),
        Err(_) => Err(ReplaceTransactionError::SendTransactionError(
            TransactionQueueSendTransactionError::TransactionSendError(send_error),
        )),
    }
}

/// Ends a replacement whose replacing transaction went out with `hash`: the
/// first failure among adding it as competitor, saving it, adding it as
/// competitor again and updating the original, else success.
pub fn finish_replace_inmempool(
    replace_id: TransactionId,
    hash: TransactionHash,
    competitor_added: Result<(), TransactionQueueSendTransactionError>,
    saved: Result<(), String>,
    competitor_added_again: Result<(), TransactionQueueSendTransactionError>,
    original_updated: Result<(), String>,
) -> (r: Result<ReplaceTransactionResult, ReplaceTransactionError>)
    ensures
        match (competitor_added, saved, competitor_added_again, original_updated) {
            (Err(e), _, _, _) => r matches Err(ReplaceTransactionError::SendTransactionError(m)) && m == e,
            (Ok(()), Err(e), _, _) => r matches Err(ReplaceTransactionError::CouldNotUpdateTransactionInDb(m)) && m == e,
            (Ok(()), Ok(()), Err(e), _) => r matches Err(ReplaceTransactionError::SendTransactionError(m)) && m == e,
            (Ok(()), Ok(()), Ok(()), Err(e)) => r matches Err(ReplaceTransactionError::CouldNotUpdateTransactionInDb(m)) && m == e,
            (Ok(()), Ok(()), Ok(()), Ok(())) => r == Ok::<ReplaceTransactionResult, ReplaceTransactionError>(
                ReplaceTransactionResult { success: true, replace_transaction_id: Some(replace_id), replace_transaction_hash: Some(hash) },
            ),
        },
{
    match competitor_added {
        Err(e) => return Err(ReplaceTransactionError::SendTransactionError(e)),
        Ok(()) => {},
    }
    match saved {
        Err(e) => return Err(ReplaceTransactionError::CouldNotUpdateTransactionInDb(e)),
        Ok(()) => {},
    }
    match competitor_added_again {
        Err(e) => return Err(ReplaceTransactionError::SendTransactionError(e)),
        Ok(()) => {},
    }
    match original_updated {
        Err(e) => Err(ReplaceTransactionError::CouldNotUpdateTransactionInDb(e)),
        Ok(()) => Ok(ReplaceTransactionResult::success(replace_id, hash)),
    }
}


/// A transaction in the mempool, with the transaction competing with it for
/// its nonce where there is one.
#[derive(Debug)]
pub struct CompetitiveTransaction {
    pub original: Transaction,
    pub competitive: Option<(Transaction, CompetitionType)>,
}

/// The kind of competition a competitor stands for: a cancel where it is a
/// noop or moves no value and carries no data, else a replacement.
pub open spec fn competition_type_of(competitor: TransactionView) -> CompetitionType {
    if competitor.is_noop || (competitor.value == 0 && competitor.data.len() == 0) {
        CompetitionType::Cancel
    } else {
        CompetitionType::Replace
    }
}

/// The kind of competition `competitor` stands for.
pub fn competition_type_for(competitor: &Transaction) -> (r: CompetitionType)
    ensures
        r == competition_type_of(competitor@),
{
    if competitor.is_noop || (competitor.value.is_zero() && competitor.data.len() == 0) {
        CompetitionType::Cancel
    } else {
        CompetitionType::Replace
    }
}

fn contains_id(ids: &Vec<TransactionId>, id: TransactionId) -> (r: bool)
    ensures
        r == ids@.contains(id),
{
    let mut i: usize = 0;
    while i < ids.len()
        invariant
            i <= ids@.len(),
            forall|k: int| 0 <= k < i ==> ids@[k] != id,
        decreases ids.len() - i,
    {
        if ids[i] == id {
            assert(ids@[i as int] == id);
            return true;
        }
        i += 1;
    }
    false
}

/// The first position of a transaction with id `id`.
fn find_by_id(transactions: &Vec<Transaction>, id: TransactionId) -> (r: Option<usize>)
    ensures
        match r {
            Some(k) => k < transactions@.len() && transactions@[k as int].id == id
                && forall|j: int| 0 <= j < k ==> transactions@[j].id != id,
            None => forall|j: int| 0 <= j < transactions@.len() ==> transactions@[j].id != id,
        },
{
    let mut i: usize = 0;
    while i < transactions.len()
        invariant
            i <= transactions@.len(),
            forall|j: int| 0 <= j < i ==> transactions@[j].id != id,
        decreases transactions.len() - i,
    {
        if transactions[i].id == id {
            return Some(i);
        }
        i += 1;
    }
    None
}

/// Whether some transaction names `id` as the one competing with it.
fn named_as_competitor(transactions: &Vec<Transaction>, id: TransactionId) -> (r: bool)
    ensures
        r == exists|j: int| 0 <= j < transactions@.len() && transactions@[j].cancelled_by_transaction_id == Some(id),
{
    let mut i: usize = 0;
    while i < transactions.len()
        invariant
            i <= transactions@.len(),
            forall|j: int| 0 <= j < i ==> transactions@[j].cancelled_by_transaction_id != Some(id),
        decreases transactions.len() - i,
    {
        if transactions[i].cancelled_by_transaction_id == Some(id) {
            assert(transactions@[i as int].cancelled_by_transaction_id == Some(id));
            return true;
        }
        i += 1;
    }
    false
}

/// Whether `c` stands among `transactions`.
pub open spec fn listed(transactions: Seq<Transaction>, c: TransactionView) -> bool {
    exists|i: int| 0 <= i < transactions.len() && #[trigger] transactions[i]@ == c
}

/// What every rebuilt competition satisfies: its original stands among the
/// transactions; a competitor stands among them too, carries the id the
/// original names, and sets the competition's kind; a lone original either
/// names a competitor that is not present, or names none and is named by none.
pub open spec fn well_rebuilt(transactions: Seq<Transaction>, entry: CompetitiveTransaction) -> bool {
    &&& listed(transactions, entry.original@)
    &&& match entry.competitive {
        Some((c, kind)) => {
            &&& entry.original.cancelled_by_transaction_id == Some(c.id)
            &&& listed(transactions, c@)
            &&& kind == competition_type_of(c@)
        },
        None => match entry.original.cancelled_by_transaction_id {
            Some(cid) => forall|i: int| 0 <= i < transactions.len() ==> transactions[i].id != cid,
            None => forall|i: int| 0 <= i < transactions.len() ==> transactions[i].cancelled_by_transaction_id
                != Some(entry.original.id),
        },
    }
}

/// No two transactions share an id.
pub open spec fn unique_ids(transactions: Seq<Transaction>) -> bool {
    forall|a: int, b: int| 0 <= a < b < transactions.len() ==> #[trigger] transactions[a].id != #[trigger] transactions[b].id
}

/// Whether some transaction names `id` as the one competing with it.
pub open spec fn named_by_some(transactions: Seq<Transaction>, id: TransactionId) -> bool {
    exists|j: int| 0 <= j < transactions.len() && #[trigger] transactions[j].cancelled_by_transaction_id == Some(id)
}

/// Whether some rebuilt competition has `t` as its original.
pub open spec fn has_entry_for(entries: Seq<CompetitiveTransaction>, t: TransactionView) -> bool {
    exists|k: int| 0 <= k < entries.len() && #[trigger] entries[k].original@ == t
}

/// Whether an id was handed out by one of the first `i` transactions: as
/// its own, or as the competitor it names.
pub open spec fn seen_before(transactions: Seq<Transaction>, i: int, id: TransactionId) -> bool {
    (exists|j: int| 0 <= j < i && #[trigger] transactions[j].id == id) || named_by_some(transactions, id)
}

/// `pos` gives, for each rebuilt competition in turn, where its original
/// stands among the transactions; those places only grow.
pub open spec fn in_input_order(transactions: Seq<Transaction>, entries: Seq<CompetitiveTransaction>, pos: Seq<int>) -> bool {
    &&& pos.len() == entries.len()
    &&& forall|k: int| 0 <= k < pos.len() ==> 0 <= #[trigger] pos[k] < transactions.len()
        && transactions[pos[k]]@ == entries[k].original@
    &&& forall|a: int, b: int| 0 <= a < b < pos.len() ==> #[trigger] pos[a] < #[trigger] pos[b]
}

/// The ids a rebuilt competition takes: its original's, and its competitor's.
pub open spec fn takes_id(entry: CompetitiveTransaction, id: TransactionId) -> bool {
    entry.original.id == id || (entry.competitive matches Some((c, _)) && c.id == id)
}

/// No competition's original carries an id an earlier competition took.
pub open spec fn originals_fresh(entries: Seq<CompetitiveTransaction>) -> bool {
    forall|a: int, b: int| 0 <= a < b < entries.len() ==> !takes_id(#[trigger] entries[a], #[trigger] entries[b].original.id)
}

/// Rebuilds the competitions among the transactions in the mempool, in
/// order: an original that names a present competitor is paired with it, a
/// transaction named as another's competitor waits for its original, and
/// every other transaction stands alone. The competitions come in the
/// order of their originals, and no original carries an id an earlier
/// competition took (as its original or its competitor). Where ids are
/// unique, every transaction that no other names as its competitor gets a
/// competition of its own.
pub fn reconstruct_competitions(inmempool_transactions: &Vec<Transaction>) -> (r: Vec<CompetitiveTransaction>)
    ensures
        forall|j: int| 0 <= j < r@.len() ==> well_rebuilt(inmempool_transactions@, #[trigger] r@[j]),
        exists|pos: Seq<int>| in_input_order(inmempool_transactions@, r@, pos),
        originals_fresh(r@),
        unique_ids(inmempool_transactions@) ==> forall|i: int|
            0 <= i < inmempool_transactions@.len() && !named_by_some(inmempool_transactions@, #[trigger] inmempool_transactions@[i].id)
                ==> has_entry_for(r@, inmempool_transactions@[i]@),
{
    let ghost ts = inmempool_transactions@;
    let mut queue: Vec<CompetitiveTransaction> = Vec::new();
    let mut processed: Vec<TransactionId> = Vec::new();
    let ghost mut pos: Seq<int> = Seq::empty();
    let mut i: usize = 0;
    while i < inmempool_transactions.len()
        invariant
            ts == inmempool_transactions@,
            i <= ts.len(),
            forall|j: int| 0 <= j < queue@.len() ==> well_rebuilt(ts, #[trigger] queue@[j]),
            in_input_order(ts, queue@, pos),
            forall|k: int| 0 <= k < pos.len() ==> #[trigger] pos[k] < i,
            originals_fresh(queue@),
            forall|k: int, id: TransactionId| 0 <= k < queue@.len() && takes_id(#[trigger] queue@[k], id)
                ==> #[trigger] processed@.contains(id),
            forall|m: int| 0 <= m < processed@.len() ==> seen_before(ts, i as int, #[trigger] processed@[m]),
            unique_ids(ts) ==> forall|j: int|
                0 <= j < i && !named_by_some(ts, #[trigger] ts[j].id) ==> has_entry_for(queue@, ts[j]@),
        decreases inmempool_transactions.len() - i,
    {
        let transaction = &inmempool_transactions[i];
        let ghost queue_before = queue@;
        let ghost processed_before = processed@;
        let ghost pos_before = pos;
        proof {
            assert forall|m: int| 0 <= m < processed@.len() implies seen_before(ts, i + 1, #[trigger] processed@[m]) by {
                if exists|j: int| 0 <= j < i && #[trigger] ts[j].id == processed@[m] {
                    let j = choose|j: int| 0 <= j < i && #[trigger] ts[j].id == processed@[m];
                    assert(0 <= j < i + 1 && ts[j].id == processed@[m]);
                }
            }
        }
        let seen = contains_id(&processed, transaction.id);
        proof {
            if unique_ids(ts) && !named_by_some(ts, ts[i as int].id) {
                if seen {
                    let m = choose|m: int| 0 <= m < processed@.len() && processed@[m] == ts[i as int].id;
                    assert(seen_before(ts, i as int, processed@[m]));
                    if exists|j: int| 0 <= j < i && #[trigger] ts[j].id == processed@[m] {
                        let j = choose|j: int| 0 <= j < i && #[trigger] ts[j].id == processed@[m];
                        assert(ts[j].id != ts[i as int].id);
                    }
                    assert(false);
                }
            }
        }
        if !seen {
            match transaction.cancelled_by_transaction_id {
                Some(cancel_tx_id) => {
                    match find_by_id(inmempool_transactions, cancel_tx_id) {
                        Some(k) => {
                            let competitor = &inmempool_transactions[k];
                            let kind = competition_type_for(competitor);
                            let entry = CompetitiveTransaction {
                                original: transaction.duplicate(),
                                competitive: Some((competitor.duplicate(), kind)),
                            };
                            assert(listed(ts, entry.original@)) by {
                                assert(ts[i as int]@ == entry.original@);
                            }
                            assert(listed(ts, competitor@)) by {
                                assert(ts[k as int]@ == competitor@);
                            }
                            queue.push(entry);
                            proof { pos = pos.push(i as int); }
                            processed.push(transaction.id);
                            processed.push(competitor.id);
                            proof {
                                assert(ts[i as int].cancelled_by_transaction_id == Some(cancel_tx_id));
                                assert(named_by_some(ts, competitor.id));
                                assert(ts[i as int].id == transaction.id);
                                assert(seen_before(ts, i + 1, transaction.id));
                            }
                        },
                        None => {
                            let entry = CompetitiveTransaction { original: transaction.duplicate(), competitive: None };
                            assert(listed(ts, entry.original@)) by {
                                assert(ts[i as int]@ == entry.original@);
                            }
                            queue.push(entry);
                            proof { pos = pos.push(i as int); }
                            processed.push(transaction.id);
                            proof {
                                assert(ts[i as int].id == transaction.id);
                                assert(seen_before(ts, i + 1, transaction.id));
                            }
                        },
                    }
                },
                None => {
                    if !named_as_competitor(inmempool_transactions, transaction.id) {
                        let entry = CompetitiveTransaction { original: transaction.duplicate(), competitive: None };
                        assert(listed(ts, entry.original@)) by {
                            assert(ts[i as int]@ == entry.original@);
                        }
                        queue.push(entry);
                            proof { pos = pos.push(i as int); }
                        processed.push(transaction.id);
                        proof {
                            assert(ts[i as int].id == transaction.id);
                            assert(seen_before(ts, i + 1, transaction.id));
                        }
                    }
                },
            }
        }
        proof {
            if queue@.len() > queue_before.len() {
                let last = queue_before.len() as int;
                assert(!seen);
                assert(queue@ == queue_before.push(queue@[last]));
                assert(pos == pos_before.push(i as int));
                assert(queue@[last].original@ == ts[i as int]@);
                assert(queue@[last].original.id == ts[i as int].id);
                assert(processed@[processed_before.len() as int] == ts[i as int].id);
                assert(processed@.contains(ts[i as int].id));
                assert forall|k: int, id: TransactionId| 0 <= k < queue@.len() && takes_id(#[trigger] queue@[k], id)
                    implies #[trigger] processed@.contains(id) by {
                    if k < last {
                        assert(queue@[k] == queue_before[k]);
                        assert(processed_before.contains(id));
                        let m = choose|m: int| 0 <= m < processed_before.len() && processed_before[m] == id;
                        assert(processed@[m] == id);
                    } else {
                        match queue@[k].competitive {
                            Some((c, _)) => {
                                if c.id == id && queue@[k].original.id != id {
                                    assert(processed@[processed@.len() - 1] == id);
                                }
                            },
                            None => {},
                        }
                    }
                }
                assert forall|a: int, b: int| 0 <= a < b < queue@.len() implies !takes_id(
                    #[trigger] queue@[a],
                    #[trigger] queue@[b].original.id,
                ) by {
                    if b < last {
                        assert(queue@[a] == queue_before[a]);
                        assert(queue@[b] == queue_before[b]);
                    } else {
                        assert(queue@[a] == queue_before[a]);
                        if takes_id(queue_before[a], ts[i as int].id) {
                            assert(processed_before.contains(ts[i as int].id));
                        }
                    }
                }
                assert forall|k: int| 0 <= k < pos.len() implies 0 <= #[trigger] pos[k] < ts.len()
                    && ts[pos[k]]@ == queue@[k].original@ by {
                    if k < last {
                        assert(pos[k] == pos_before[k]);
                        assert(queue@[k] == queue_before[k]);
                    }
                }
                assert forall|a: int, b: int| 0 <= a < b < pos.len() implies #[trigger] pos[a] < #[trigger] pos[b] by {
                    assert(pos[a] == pos_before[a]);
                    if b < last {
                        assert(pos[b] == pos_before[b]);
                    }
                }
            } else {
                assert(queue@ == queue_before);
                assert(pos == pos_before);
                assert forall|k: int, id: TransactionId| 0 <= k < queue@.len() && takes_id(#[trigger] queue@[k], id)
                    implies #[trigger] processed@.contains(id) by {
                    assert(processed_before.contains(id));
                    let m = choose|m: int| 0 <= m < processed_before.len() && processed_before[m] == id;
                    assert(processed@[m] == id);
                }
            }
            if unique_ids(ts) {
                assert forall|j: int| 0 <= j < i + 1 && !named_by_some(ts, #[trigger] ts[j].id) implies has_entry_for(queue@, ts[j]@) by {
                    if j < i {
                        let k = choose|k: int| 0 <= k < queue_before.len() && #[trigger] queue_before[k].original@ == ts[j]@;
                        assert(queue@[k] == queue_before[k]);
                    } else {
                        let last = queue@.len() - 1;
                        assert(queue@[last].original@ == ts[j]@);
                    }
                }
            }
        }
        i += 1;
    }
    assert(in_input_order(ts, queue@, pos));
    queue
}

/// A cancelling or replacing transaction competes for the original's
/// nonce and never offers less: its gas limit and both its fees are at
/// least the original's (a fifth more, rounded down). A cancel moves no
/// value and is a noop to the relayer itself.
pub proof fn lemma_competitors_outbid_the_original(
    original: TransactionView,
    requested: TransactionView,
    request: RelayTransactionRequest,
    id: TransactionId,
    relay_address: EvmAddress,
    chain_id: ChainId,
    now_ms: i64,
)
    requires
        original.gas_limit matches Some(l) && bump_fits(l),
        original.sent_with_gas matches Some(g) && bump_fits(g.max_fee) && bump_fits(g.max_priority_fee),
    ensures
        ({
            let c = cancel_view(original, requested, id, relay_address, chain_id, now_ms);
            &&& c.nonce == original.nonce
            &&& c.gas_limit->0 >= original.gas_limit->0
            &&& c.sent_with_gas->0.max_fee >= original.sent_with_gas->0.max_fee
            &&& c.sent_with_gas->0.max_priority_fee >= original.sent_with_gas->0.max_priority_fee
            &&& c.value == 0 && c.is_noop && c.to == relay_address
        }),
        ({
            let c = cancel_view(original, requested, id, relay_address, chain_id, now_ms);
            let l = original.gas_limit->0;
            let g = original.sent_with_gas->0;
            &&& c.id == id && c.from == relay_address && c.data.len() == 0 && c.chain_id == chain_id
            &&& c.gas_limit == Some((l + l / 5) as u128)
            &&& c.sent_with_gas->0.max_fee == g.max_fee + g.max_fee / 5
            &&& c.sent_with_gas->0.max_priority_fee == g.max_priority_fee + g.max_priority_fee / 5
            &&& c.speed == TransactionSpeed::SUPER && c.status == TransactionStatus::PENDING
            &&& c.send_attempt_count == 0 && c.blobs is None
        }),
        ({
            let r = replacement_view(original, requested, request, id, relay_address, chain_id, now_ms);
            &&& r.nonce == original.nonce
            &&& r.gas_limit->0 >= original.gas_limit->0
            &&& r.sent_with_gas->0.max_fee >= original.sent_with_gas->0.max_fee
            &&& r.sent_with_gas->0.max_priority_fee >= original.sent_with_gas->0.max_priority_fee
        }),
        ({
            let r = replacement_view(original, requested, request, id, relay_address, chain_id, now_ms);
            let l = original.gas_limit->0;
            let g = original.sent_with_gas->0;
            &&& r.id == id && r.from == relay_address && r.chain_id == chain_id
            &&& r.to == request.to && r.value == request.value.value() && r.data == request.data@
            &&& r.blobs == request_blobs(request.blobs) && !r.is_noop
            &&& r.gas_limit == Some((l + l / 5) as u128)
            &&& r.sent_with_gas->0.max_fee == g.max_fee + g.max_fee / 5
            &&& r.sent_with_gas->0.max_priority_fee == g.max_priority_fee + g.max_priority_fee / 5
            &&& r.speed == TransactionSpeed::SUPER && r.status == TransactionStatus::PENDING
            &&& r.send_attempt_count == 0
            &&& (request.external_id matches Some(e) ==> r.external_id == Some(e@))
        }),
{
}


/// The kind of a rebuilt competition by its competitor: a noop, or one that
/// moves no value and carries no data, cancels; one that is not a noop and
/// carries data, or moves value, replaces.
pub proof fn lemma_competition_kind(c: TransactionView)
    ensures
        c.is_noop ==> competition_type_of(c) == CompetitionType::Cancel,
        c.value == 0 && c.data.len() == 0 ==> competition_type_of(c) == CompetitionType::Cancel,
        !c.is_noop && c.data.len() > 0 ==> competition_type_of(c) == CompetitionType::Replace,
        !c.is_noop && c.value != 0 ==> competition_type_of(c) == CompetitionType::Replace,
{
}

/// A replaced transaction takes the request's recipient, value, data,
/// blobs and external id, is a noop exactly when it now goes to its own
/// sender, has its gas limit cleared for a new estimate, and keeps its id,
/// relayer, sender, nonce, chain and status.
pub proof fn lemma_replacement_takes_request_content(t: TransactionView, request: RelayTransactionRequest)
    ensures
        ({
            let r = replaced_view(t, request);
            &&& r.to == request.to
            &&& r.value == request.value.value()
            &&& r.data == request.data@
            &&& r.blobs == request_blobs(request.blobs)
            &&& r.external_id == opt_string_view(request.external_id)
            &&& r.is_noop == (t.from == request.to)
            &&& r.gas_limit is None
            &&& r.id == t.id && r.relayer_id == t.relayer_id && r.from == t.from
            &&& r.nonce == t.nonce && r.chain_id == t.chain_id && r.status == t.status
            &&& r.known_transaction_hash == t.known_transaction_hash
        }),
{
}

} // verus!
