//! Queuing a new transaction: the checks before it is accepted, the record
//! it is queued as, the funds check after gas estimation, and the typed
//! transaction it is sent as.

use vstd::prelude::*;

use crate::editing::{expiry_for, TRANSACTION_LIFETIME_MS};
use crate::primitives::{
    uint256_modulus, ChainId, EvmAddress, GasLimit, RelayerId, TransactionHash, TransactionId, TransactionNonce, Uint256,
};
use crate::queue::valid_time;
use crate::transaction::{
    blobs_view, copy_opt_blobs, copy_opt_string, opt_string_view, same_conversion, BlobGasPriceResult,
    GasPriceResult, Transaction, TransactionConversionError, TransactionSpeed, TransactionStatus, TransactionView,
};
use vstd::string::*;

verus! {

/// A transaction a caller asks the relayer to send.
#[derive(Debug, Clone)]
pub struct TransactionToSend {
    pub id: TransactionId,
    pub to: EvmAddress,
    pub value: Uint256,
    pub data: Vec<u8>,
    pub speed: TransactionSpeed,
    pub blobs: Option<Vec<Vec<u8>>>,
    pub external_id: Option<String>,
}

/// Why a transaction could not be queued.
#[derive(Debug)]
pub enum AddTransactionError {
    RelayerNotFound(RelayerId),
    RelayerIsPaused(RelayerId),
    UnsupportedTransactionType { message: String },
    CouldNotGetCurrentOnChainNonce(RelayerId, String),
    TransactionEstimateGasError(RelayerId, String),
    TransactionConversionError(TransactionConversionError),
    CouldNotSaveTransactionDb(String),
}

/// The expiry of a transaction queued at `now_ms`: twelve hours later.
pub fn expires_at(now_ms: i64) -> (r: i64)
    requires
        valid_time(now_ms),
    ensures
        r == expiry_for(now_ms),
{
    now_ms + TRANSACTION_LIFETIME_MS
}

/// Checks whether a relayer's queue can take `transaction_to_send`: the
/// queue exists, the relayer is not paused, and blobs are only sent where
/// the relayer's wallet supports them.
pub fn check_can_queue(
    relayer_id: RelayerId,
    queue_exists: bool,
    paused: bool,
    supports_blobs: bool,
    transaction_to_send: &TransactionToSend,
) -> (r: Result<(), AddTransactionError>)
    ensures
        !queue_exists ==> (r matches Err(AddTransactionError::RelayerNotFound(id)) && id == relayer_id),
        queue_exists && paused ==> (r matches Err(AddTransactionError::RelayerIsPaused(id)) && id == relayer_id),
        queue_exists && !paused && transaction_to_send.blobs is Some && !supports_blobs ==> (r matches Err(
            AddTransactionError::UnsupportedTransactionType { message },
        ) && message@ == "EIP-4844 blob transactions are not supported by this wallet manager"@),
        queue_exists && !paused && !(transaction_to_send.blobs is Some && !supports_blobs) ==> r is Ok,
{
    if !queue_exists {
        return Err(AddTransactionError::RelayerNotFound(relayer_id));
    }
    if paused {
        return Err(AddTransactionError::RelayerIsPaused(relayer_id));
    }
    if transaction_to_send.blobs.is_some() && !supports_blobs {
        return Err(AddTransactionError::UnsupportedTransactionType {
            message: String::from_str("EIP-4844 blob transactions are not supported by this wallet manager"),
        });
    }
    Ok(())
}

/// The record a new transaction is queued as: pending, with the nonce it
/// was assigned, from the relayer, not yet priced or sent.
pub open spec fn queued_view(
    to_send: TransactionToSend,
    relayer_id: RelayerId,
    relay_address: EvmAddress,
    chain_id: ChainId,
    nonce: TransactionNonce,
    now_ms: i64,
    expires_at_ms: i64,
) -> TransactionView {
    TransactionView {
        id: to_send.id,
        relayer_id,
        to: to_send.to,
        from: relay_address,
        value: to_send.value.value(),
        data: to_send.data@,
        nonce,
        chain_id,
        gas_limit: None,
        status: TransactionStatus::PENDING,
        blobs: blobs_view(to_send.blobs),
        known_transaction_hash: None,
        queued_at: now_ms,
        expires_at: expires_at_ms,
        sent_at: None,
        confirmed_at: None,
        sent_with_gas: None,
        sent_with_blob_gas: None,
        mined_at: None,
        mined_at_block_number: None,
        speed: to_send.speed,
        sent_with_max_priority_fee_per_gas: None,
        sent_with_max_fee_per_gas: None,
        is_noop: false,
        external_id: opt_string_view(to_send.external_id),
        cancelled_by_transaction_id: None,
        send_attempt_count: 0,
    }
}

/// Builds the record a new transaction is queued as.
pub fn new_queued_transaction(
    to_send: &TransactionToSend,
    relayer_id: RelayerId,
    relay_address: EvmAddress,
    chain_id: ChainId,
    nonce: TransactionNonce,
    now_ms: i64,
    expires_at_ms: i64,
) -> (r: Transaction)
    ensures
        r@ == queued_view(*to_send, relayer_id, relay_address, chain_id, nonce, now_ms, expires_at_ms),
{
    Transaction {
        id: to_send.id,
        relayer_id,
        to: to_send.to,
        from: relay_address,
        value: to_send.value,
        data: to_send.data.clone(),
        nonce,
        chain_id,
        gas_limit: None,
        status: TransactionStatus::PENDING,
        blobs: copy_opt_blobs(&to_send.blobs),
        known_transaction_hash: None,
        queued_at: now_ms,
        expires_at: expires_at_ms,
        sent_at: None,
        confirmed_at: None,
        sent_with_gas: None,
        sent_with_blob_gas: None,
        mined_at: None,
        mined_at_block_number: None,
        speed: to_send.speed,
        sent_with_max_priority_fee_per_gas: None,
        sent_with_max_fee_per_gas: None,
        is_noop: false,
        external_id: copy_opt_string(&to_send.external_id),
        cancelled_by_transaction_id: None,
        send_attempt_count: 0,
    }
}

/// Records on a queued transaction the gas limit its estimate gave.
pub fn record_gas_estimate(transaction: &mut Transaction, estimated_gas_limit: GasLimit)
    ensures
        final(transaction)@ == (TransactionView { gas_limit: Some(estimated_gas_limit), ..old(transaction)@ }),
{
    transaction.gas_limit = Some(estimated_gas_limit);
}

/// Records on a queued transaction the hash of the typed transaction it
/// will be sent as.
pub fn record_transaction_hash(transaction: &mut Transaction, hash: TransactionHash)
    ensures
        final(transaction)@ == (TransactionView { known_transaction_hash: Some(hash), ..old(transaction)@ }),
{
    transaction.known_transaction_hash = Some(hash);
}

/// What a transaction costs at most: its value plus its gas at the price
/// it is sent with, in 256-bit arithmetic (which wraps).
pub open spec fn required_balance(value: Uint256, gas_limit: GasLimit, gas_price: GasPriceResult) -> nat {
    ((value.value() + gas_limit * gas_price.spec_legacy_gas_price()) % (uint256_modulus() as int)) as nat
}

/// Checks that the relayer's balance covers the value and the estimated
/// gas of a transaction; gives the estimated gas limit back where it does.
pub fn check_relayer_balance(
    relayer_id: RelayerId,
    relayer_balance: &Uint256,
    value: &Uint256,
    estimated_gas_limit: GasLimit,
    gas_price: &GasPriceResult,
) -> (r: Result<GasLimit, AddTransactionError>)
    requires
        estimated_gas_limit * gas_price.spec_legacy_gas_price() <= u128::MAX,
    ensures
        relayer_balance.value() < required_balance(*value, estimated_gas_limit, *gas_price) ==> (r matches Err(
            AddTransactionError::TransactionEstimateGasError(id, m),
        ) && id == relayer_id && m@ == "Insufficient funds for gas * price + value"@),
        !(relayer_balance.value() < required_balance(*value, estimated_gas_limit, *gas_price)) ==> r == Ok::<
            GasLimit,
            AddTransactionError,
        >(estimated_gas_limit),
{
    let gas_cost: u128 = estimated_gas_limit * gas_price.legacy_gas_price();
    let total_required = value.wrapping_add(&Uint256::from_u128(gas_cost));
    if relayer_balance.lt(&total_required) {
        return Err(AddTransactionError::TransactionEstimateGasError(
            relayer_id,
            String::from_str("Insufficient funds for gas * price + value"),
        ));
    }
    Ok(estimated_gas_limit)
}

/// Creates the typed transaction a transaction is estimated or sent as: a
/// blob transaction where it carries blobs, else a legacy one where the
/// relayer's network takes only those, else an EIP-1559 one; always with
/// the given fees and gas limit.
pub fn create_typed_transaction(
    transaction: &Transaction,
    is_legacy_transactions: bool,
    gas_price: &GasPriceResult,
    blob_gas_price: Option<&BlobGasPriceResult>,
    gas_limit: GasLimit,
) -> (r: Result<alloy::consensus::TypedTransaction, TransactionConversionError>)
    ensures
        transaction.blobs is Some ==> same_conversion(
            r,
            transaction.spec_blob(Some(gas_price), blob_gas_price, Some(gas_limit)),
        ),
        transaction.blobs is None && is_legacy_transactions ==> r == transaction.spec_legacy(Some(gas_price), Some(gas_limit)),
        transaction.blobs is None && !is_legacy_transactions ==> r == transaction.spec_eip1559(Some(gas_price), Some(gas_limit)),
{
    if transaction.is_blob_transaction() {
        transaction.to_blob_typed_transaction_with_gas_limit(Some(gas_price), blob_gas_price, Some(gas_limit))
    } else if is_legacy_transactions {
        transaction.to_legacy_typed_transaction_with_gas_limit(Some(gas_price), Some(gas_limit))
    } else {
        transaction.to_eip1559_typed_transaction_with_gas_limit(Some(gas_price), Some(gas_limit))
    }
}


/// The gas limit a transaction is estimated with before its own is known.
pub const ESTIMATION_GAS_LIMIT: GasLimit = 1_000_000;

/// The typed transaction a gas estimation sends: the transaction at the
/// chain's current nonce, with a provisional gas limit of one million.
pub fn estimation_request(
    transaction: &Transaction,
    current_onchain_nonce: TransactionNonce,
    is_legacy_transactions: bool,
    gas_price: &GasPriceResult,
    blob_gas_price: Option<&BlobGasPriceResult>,
) -> (r: Result<alloy::consensus::TypedTransaction, TransactionConversionError>)
    ensures
        ({
            let estimated = Transaction { nonce: current_onchain_nonce, ..*transaction };
            &&& transaction.blobs is Some ==> same_conversion(
                r,
                estimated.spec_blob(Some(gas_price), blob_gas_price, Some(ESTIMATION_GAS_LIMIT)),
            )
            &&& transaction.blobs is None && is_legacy_transactions ==> r == estimated.spec_legacy(
                Some(gas_price),
                Some(ESTIMATION_GAS_LIMIT),
            )
            &&& transaction.blobs is None && !is_legacy_transactions ==> r == estimated.spec_eip1559(
                Some(gas_price),
                Some(ESTIMATION_GAS_LIMIT),
            )
        }),
{
    let mut estimation_transaction = transaction.duplicate();
    estimation_transaction.nonce = current_onchain_nonce;
    create_typed_transaction(&estimation_transaction, is_legacy_transactions, gas_price, blob_gas_price, ESTIMATION_GAS_LIMIT)
}


/// A queued transaction carries what was asked for (its id, recipient,
/// value, data, speed, blobs and external id) from the relayer, with the
/// nonce it was given; it is pending, unpriced, unsent and no noop.
pub proof fn lemma_queued_record_carries_the_request(
    to_send: TransactionToSend,
    relayer_id: RelayerId,
    relay_address: EvmAddress,
    chain_id: ChainId,
    nonce: TransactionNonce,
    now_ms: i64,
    expires_at_ms: i64,
)
    ensures
        ({
            let r = queued_view(to_send, relayer_id, relay_address, chain_id, nonce, now_ms, expires_at_ms);
            &&& r.id == to_send.id && r.to == to_send.to && r.value == to_send.value.value()
            &&& r.data == to_send.data@ && r.speed == to_send.speed
            &&& r.blobs == blobs_view(to_send.blobs) && r.external_id == opt_string_view(to_send.external_id)
            &&& r.relayer_id == relayer_id && r.from == relay_address && r.chain_id == chain_id && r.nonce == nonce
            &&& r.status == TransactionStatus::PENDING && !r.is_noop
            &&& r.gas_limit is None && r.sent_with_gas is None && r.sent_at is None
            &&& r.known_transaction_hash is None && r.send_attempt_count == 0
            &&& r.queued_at == now_ms && r.expires_at == expires_at_ms
        }),
{
}


/// Where the value plus the gas at the legacy price (the maximum fee) does
/// not reach 2^256, the balance a transaction needs is exactly that sum;
/// beyond it, the sum wraps around.
pub proof fn lemma_required_balance_is_value_plus_gas(value: Uint256, gas_limit: GasLimit, gas_price: GasPriceResult)
    ensures
        value.value() + gas_limit * gas_price.max_fee < uint256_modulus() ==> required_balance(value, gas_limit, gas_price)
            == value.value() + gas_limit * gas_price.max_fee,
        required_balance(value, gas_limit, gas_price) < uint256_modulus(),
{
    let s = value.value() + gas_limit * gas_price.max_fee;
    assert(gas_limit * gas_price.max_fee >= 0) by (nonlinear_arith);
    if s < uint256_modulus() {
        vstd::arithmetic::div_mod::lemma_small_mod(s as nat, uint256_modulus());
    }
    vstd::arithmetic::div_mod::lemma_mod_bound(s as int, uint256_modulus() as int);
}

} // verus!
