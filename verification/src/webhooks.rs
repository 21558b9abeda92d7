//! The payloads of the webhooks the relayer sends about transactions and
//! signatures. Times are Unix milliseconds, taken by the caller.

use vstd::prelude::*;

use crate::primitives::{BlockNumber, ChainId, EvmAddress, RelayerId, TransactionHash, TransactionId, TransactionNonce, Uint256};
use crate::transaction::{blobs_view, copy_opt_blobs, copy_opt_string, opt_string_view, Transaction, TransactionStatus};
use vstd::string::*;

verus! {

/// A JSON value, carried through as an opaque value.
#[verifier::external_type_specification]
#[verifier::external_body]
pub struct ExJsonValue(serde_json::Value);

/// An ECDSA signature, carried through as an opaque value.
#[verifier::external_type_specification]
#[verifier::external_body]
pub struct ExSignature(alloy::primitives::Signature);

/// What a webhook reports.
#[derive(Debug, Clone, Copy, PartialEq, Eq, Structural)]
pub enum WebhookEventType {
    TransactionQueued,
    TransactionSent,
    TransactionMined,
    TransactionConfirmed,
    TransactionFailed,
    TransactionExpired,
    TransactionCancelled,
    TransactionReplaced,
    TextSigned,
    TypedDataSigned,
}

/// The version of the payload format.
pub open spec fn api_version_text() -> Seq<char> {
    "1.0"@
}

/// The envelope that wraps every outgoing webhook request.
#[derive(Debug)]
pub struct WebhookEnvelope {
    pub delivery_id: String,
    pub event_type: WebhookEventType,
    /// Unix time, in seconds, when the delivery was created.
    pub timestamp: u64,
    pub attempt: u32,
    pub payload: serde_json::Value,
}

impl WebhookEnvelope {
    pub fn new(
        delivery_id: String,
        event_type: WebhookEventType,
        timestamp: u64,
        attempt: u32,
        payload: serde_json::Value,
    ) -> (r: Self)
        ensures
            r == (WebhookEnvelope { delivery_id, event_type, timestamp, attempt, payload }),
    {
        WebhookEnvelope { delivery_id, event_type, timestamp, attempt, payload }
    }
}

/// The transaction fields a webhook reports.
#[derive(Debug)]
pub struct WebhookTransactionData {
    pub id: TransactionId,
    pub relayer_id: RelayerId,
    pub to: EvmAddress,
    pub from: EvmAddress,
    pub value: Uint256,
    pub data: Vec<u8>,
    pub chain_id: ChainId,
    pub status: TransactionStatus,
    pub transaction_hash: Option<TransactionHash>,
    pub queued_at: i64,
    pub sent_at: Option<i64>,
    pub confirmed_at: Option<i64>,
    pub expires_at: i64,
    pub external_id: Option<String>,
    pub blobs: Option<Vec<Vec<u8>>>,
    pub nonce: TransactionNonce,
    pub mined_at: Option<i64>,
    pub mined_at_block_number: Option<BlockNumber>,
    pub sent_with_max_priority_fee_per_gas: Option<u128>,
    pub sent_with_max_fee_per_gas: Option<u128>,
    pub is_noop: bool,
}

/// Whether `d` reports exactly the fields of `t`.
pub open spec fn reports(d: WebhookTransactionData, t: Transaction) -> bool {
    &&& d.id == t.id
    &&& d.relayer_id == t.relayer_id
    &&& d.to == t.to
    &&& d.from == t.from
    &&& d.value == t.value
    &&& d.data@ == t.data@
    &&& d.chain_id == t.chain_id
    &&& d.status == t.status
    &&& d.transaction_hash == t.known_transaction_hash
    &&& d.queued_at == t.queued_at
    &&& d.sent_at == t.sent_at
    &&& d.confirmed_at == t.confirmed_at
    &&& d.expires_at == t.expires_at
    &&& opt_string_view(d.external_id) == opt_string_view(t.external_id)
    &&& blobs_view(d.blobs) == blobs_view(t.blobs)
    &&& d.nonce == t.nonce
    &&& d.mined_at == t.mined_at
    &&& d.mined_at_block_number == t.mined_at_block_number
    &&& d.sent_with_max_priority_fee_per_gas == t.sent_with_max_priority_fee_per_gas
    &&& d.sent_with_max_fee_per_gas == t.sent_with_max_fee_per_gas
    &&& d.is_noop == t.is_noop
}

impl WebhookTransactionData {
    /// The webhook's report of a transaction.
    pub fn from_transaction(transaction: &Transaction) -> (r: Self)
        ensures
            reports(r, *transaction),
    {
        WebhookTransactionData {
            id: transaction.id,
            relayer_id: transaction.relayer_id,
            to: transaction.to,
            from: transaction.from,
            value: transaction.value,
            data: transaction.data.clone(),
            chain_id: transaction.chain_id,
            status: transaction.status,
            transaction_hash: transaction.known_transaction_hash,
            queued_at: transaction.queued_at,
            sent_at: transaction.sent_at,
            confirmed_at: transaction.confirmed_at,
            expires_at: transaction.expires_at,
            external_id: copy_opt_string(&transaction.external_id),
            blobs: copy_opt_blobs(&transaction.blobs),
            nonce: transaction.nonce,
            mined_at: transaction.mined_at,
            mined_at_block_number: transaction.mined_at_block_number,
            sent_with_max_priority_fee_per_gas: transaction.sent_with_max_priority_fee_per_gas,
            sent_with_max_fee_per_gas: transaction.sent_with_max_fee_per_gas,
            is_noop: transaction.is_noop,
        }
    }
}

/// A webhook about a transaction. `R` is the chain's receipt type, carried
/// for mined and confirmed events.
#[derive(Debug)]
pub struct WebhookPayload<R> {
    pub event_type: WebhookEventType,
    pub transaction: WebhookTransactionData,
    pub timestamp: i64,
    pub api_version: String,
    pub original_transaction: Option<WebhookTransactionData>,
    pub receipt: Option<R>,
}

/// `p` reports `event` about `t` at `now_ms` in the current format.
pub open spec fn payload_about<R>(p: WebhookPayload<R>, t: Transaction, event: WebhookEventType, now_ms: i64) -> bool {
    &&& p.event_type == event
    &&& reports(p.transaction, t)
    &&& p.timestamp == now_ms
    &&& p.api_version@ == api_version_text()
}

impl<R> WebhookPayload<R> {
    pub fn new(transaction: &Transaction, event_type: WebhookEventType, now_ms: i64) -> (r: Self)
        ensures
            payload_about(r, *transaction, event_type, now_ms),
            r.original_transaction is None,
            r.receipt is None,
    {
        WebhookPayload {
            event_type,
            transaction: WebhookTransactionData::from_transaction(transaction),
            timestamp: now_ms,
            api_version: String::from_str("1.0"),
            original_transaction: None,
            receipt: None,
        }
    }

    pub fn new_with_original(
        transaction: &Transaction,
        event_type: WebhookEventType,
        original_transaction: &Transaction,
        now_ms: i64,
    ) -> (r: Self)
        ensures
            payload_about(r, *transaction, event_type, now_ms),
            r.original_transaction matches Some(o) && reports(o, *original_transaction),
            r.receipt is None,
    {
        WebhookPayload {
            event_type,
            transaction: WebhookTransactionData::from_transaction(transaction),
            timestamp: now_ms,
            api_version: String::from_str("1.0"),
            original_transaction: Some(WebhookTransactionData::from_transaction(original_transaction)),
            receipt: None,
        }
    }

    pub fn new_with_receipt(transaction: &Transaction, event_type: WebhookEventType, receipt: R, now_ms: i64) -> (r: Self)
        ensures
            payload_about(r, *transaction, event_type, now_ms),
            r.original_transaction is None,
            r.receipt == Some(receipt),
    {
        WebhookPayload {
            event_type,
            transaction: WebhookTransactionData::from_transaction(transaction),
            timestamp: now_ms,
            api_version: String::from_str("1.0"),
            original_transaction: None,
            receipt: Some(receipt),
        }
    }

    pub fn transaction_queued(transaction: &Transaction, now_ms: i64) -> (r: Self)
        ensures
            payload_about(r, *transaction, WebhookEventType::TransactionQueued, now_ms),
            r.original_transaction is None,
            r.receipt is None,
    {
        Self::new(transaction, WebhookEventType::TransactionQueued, now_ms)
    }

    pub fn transaction_sent(transaction: &Transaction, now_ms: i64) -> (r: Self)
        ensures
            payload_about(r, *transaction, WebhookEventType::TransactionSent, now_ms),
            r.original_transaction is None,
            r.receipt is None,
    {
        Self::new(transaction, WebhookEventType::TransactionSent, now_ms)
    }

    pub fn transaction_mined(transaction: &Transaction, now_ms: i64) -> (r: Self)
        ensures
            payload_about(r, *transaction, WebhookEventType::TransactionMined, now_ms),
            r.original_transaction is None,
            r.receipt is None,
    {
        Self::new(transaction, WebhookEventType::TransactionMined, now_ms)
    }

    pub fn transaction_mined_with_receipt(transaction: &Transaction, receipt: R, now_ms: i64) -> (r: Self)
        ensures
            payload_about(r, *transaction, WebhookEventType::TransactionMined, now_ms),
            r.original_transaction is None,
            r.receipt == Some(receipt),
    {
        Self::new_with_receipt(transaction, WebhookEventType::TransactionMined, receipt, now_ms)
    }

    pub fn transaction_confirmed(transaction: &Transaction, now_ms: i64) -> (r: Self)
        ensures
            payload_about(r, *transaction, WebhookEventType::TransactionConfirmed, now_ms),
            r.original_transaction is None,
            r.receipt is None,
    {
        Self::new(transaction, WebhookEventType::TransactionConfirmed, now_ms)
    }

    pub fn transaction_confirmed_with_receipt(transaction: &Transaction, receipt: R, now_ms: i64) -> (r: Self)
        ensures
            payload_about(r, *transaction, WebhookEventType::TransactionConfirmed, now_ms),
            r.original_transaction is None,
            r.receipt == Some(receipt),
    {
        Self::new_with_receipt(transaction, WebhookEventType::TransactionConfirmed, receipt, now_ms)
    }

    pub fn transaction_failed(transaction: &Transaction, now_ms: i64) -> (r: Self)
        ensures
            payload_about(r, *transaction, WebhookEventType::TransactionFailed, now_ms),
            r.original_transaction is None,
            r.receipt is None,
    {
        Self::new(transaction, WebhookEventType::TransactionFailed, now_ms)
    }

    pub fn transaction_expired(transaction: &Transaction, now_ms: i64) -> (r: Self)
        ensures
            payload_about(r, *transaction, WebhookEventType::TransactionExpired, now_ms),
            r.original_transaction is None,
            r.receipt is None,
    {
        Self::new(transaction, WebhookEventType::TransactionExpired, now_ms)
    }

    pub fn transaction_cancelled(transaction: &Transaction, now_ms: i64) -> (r: Self)
        ensures
            payload_about(r, *transaction, WebhookEventType::TransactionCancelled, now_ms),
            r.original_transaction is None,
            r.receipt is None,
    {
        Self::new(transaction, WebhookEventType::TransactionCancelled, now_ms)
    }

    /// A replacement: the new transaction, with the one it replaces as the original.
    pub fn transaction_replaced(new_transaction: &Transaction, original_transaction: &Transaction, now_ms: i64) -> (r: Self)
        ensures
            payload_about(r, *new_transaction, WebhookEventType::TransactionReplaced, now_ms),
            r.original_transaction matches Some(o) && reports(o, *original_transaction),
            r.receipt is None,
    {
        Self::new_with_original(new_transaction, WebhookEventType::TransactionReplaced, original_transaction, now_ms)
    }
}

/// What a signing webhook reports.
#[derive(Debug)]
pub struct WebhookSigningData {
    pub relayer_id: RelayerId,
    pub chain_id: ChainId,
    pub signature: alloy::primitives::Signature,
    pub signed_at: i64,
    pub message: Option<String>,
    pub domain_data: Option<serde_json::Value>,
    pub message_data: Option<serde_json::Value>,
    pub primary_type: Option<String>,
}

/// A webhook about a signature the relayer made.
#[derive(Debug)]
pub struct WebhookSigningPayload {
    pub event_type: WebhookEventType,
    pub signing: WebhookSigningData,
    pub timestamp: i64,
    pub api_version: String,
}

impl WebhookSigningPayload {
    /// The webhook for a signed text message.
    pub fn text_signed(
        relayer_id: RelayerId,
        chain_id: ChainId,
        message: String,
        signature: alloy::primitives::Signature,
        now_ms: i64,
    ) -> (r: Self)
        ensures
            r.event_type == WebhookEventType::TextSigned,
            r.signing == (WebhookSigningData {
                relayer_id,
                chain_id,
                signature,
                signed_at: now_ms,
                message: Some(message),
                domain_data: None,
                message_data: None,
                primary_type: None,
            }),
            r.timestamp == now_ms,
            r.api_version@ == api_version_text(),
    {
        WebhookSigningPayload {
            event_type: WebhookEventType::TextSigned,
            signing: WebhookSigningData {
                relayer_id,
                chain_id,
                signature,
                signed_at: now_ms,
                message: Some(message),
                domain_data: None,
                message_data: None,
                primary_type: None,
            },
            timestamp: now_ms,
            api_version: String::from_str("1.0"),
        }
    }

    /// The webhook for signed typed data.
    pub fn typed_data_signed(
        relayer_id: RelayerId,
        chain_id: ChainId,
        domain_data: serde_json::Value,
        message_data: serde_json::Value,
        primary_type: String,
        signature: alloy::primitives::Signature,
        now_ms: i64,
    ) -> (r: Self)
        ensures
            r.event_type == WebhookEventType::TypedDataSigned,
            r.signing == (WebhookSigningData {
                relayer_id,
                chain_id,
                signature,
                signed_at: now_ms,
                message: None,
                domain_data: Some(domain_data),
                message_data: Some(message_data),
                primary_type: Some(primary_type),
            }),
            r.timestamp == now_ms,
            r.api_version@ == api_version_text(),
    {
        WebhookSigningPayload {
            event_type: WebhookEventType::TypedDataSigned,
            signing: WebhookSigningData {
                relayer_id,
                chain_id,
                signature,
                signed_at: now_ms,
                message: None,
                domain_data: Some(domain_data),
                message_data: Some(message_data),
                primary_type: Some(primary_type),
            },
            timestamp: now_ms,
            api_version: String::from_str("1.0"),
        }
    }
}

} // verus!
