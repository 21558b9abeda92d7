use rrelayer_core::primitives::{EvmAddress, RelayerId, TransactionHash, TransactionId, Uint256};
use rrelayer_core::sending::{
    check_can_queue, check_relayer_balance, create_typed_transaction, expires_at, new_queued_transaction,
    record_gas_estimate, record_transaction_hash,
    AddTransactionError, TransactionToSend,
};
use rrelayer_core::transaction::{GasPriceResult, TransactionSpeed, TransactionStatus};
use rrelayer_core::webhooks::{WebhookEventType, WebhookPayload, WebhookTransactionData};

fn address(byte: u8) -> EvmAddress {
    EvmAddress { bytes: [byte; 20] }
}

fn to_send(blobs: Option<Vec<Vec<u8>>>) -> TransactionToSend {
    TransactionToSend {
        id: TransactionId(1),
        to: address(2),
        value: Uint256::from_u128(100),
        data: vec![1],
        speed: TransactionSpeed::MEDIUM,
        blobs,
        external_id: Some("ext".to_string()),
    }
}

#[test]
fn queue_admission_checks() {
    assert!(matches!(check_can_queue(RelayerId(1), false, false, true, &to_send(None)), Err(AddTransactionError::RelayerNotFound(_))));
    assert!(matches!(check_can_queue(RelayerId(1), true, true, true, &to_send(None)), Err(AddTransactionError::RelayerIsPaused(_))));
    match check_can_queue(RelayerId(1), true, false, false, &to_send(Some(vec![vec![0]]))) {
        Err(AddTransactionError::UnsupportedTransactionType { message }) => {
            assert_eq!(message, "EIP-4844 blob transactions are not supported by this wallet manager")
        }
        _ => panic!(),
    }
    assert!(check_can_queue(RelayerId(1), true, false, true, &to_send(Some(vec![vec![0]]))).is_ok());
}

#[test]
fn queued_record_and_funds_check() {
    let now = 1_000_000;
    let tx = new_queued_transaction(&to_send(None), RelayerId(3), address(4), 10, 12, now, expires_at(now));
    assert_eq!(tx.status, TransactionStatus::PENDING);
    assert_eq!(tx.from, address(4));
    assert_eq!(tx.nonce, 12);
    assert_eq!(tx.expires_at, now + 43_200_000);
    assert_eq!(tx.gas_limit, None);
    let price = GasPriceResult { max_fee: 10, max_priority_fee: 1, min_wait_time_estimate: None, max_wait_time_estimate: None };
    assert_eq!(check_relayer_balance(RelayerId(3), &Uint256::from_u128(300), &Uint256::from_u128(100), 20, &price).unwrap(), 20);
    match check_relayer_balance(RelayerId(3), &Uint256::from_u128(299), &Uint256::from_u128(100), 20, &price) {
        Err(AddTransactionError::TransactionEstimateGasError(_, m)) => assert_eq!(m, "Insufficient funds for gas * price + value"),
        _ => panic!(),
    }
    let legacy = create_typed_transaction(&tx, true, &price, None, 20).unwrap();
    assert!(matches!(legacy, alloy::consensus::TypedTransaction::Legacy(_)));
    let eip1559 = create_typed_transaction(&tx, false, &price, None, 20).unwrap();
    assert!(matches!(eip1559, alloy::consensus::TypedTransaction::Eip1559(_)));
}

#[test]
fn webhook_payloads_report_the_transaction() {
    let tx = new_queued_transaction(&to_send(None), RelayerId(3), address(4), 10, 12, 5, 6);
    let payload: WebhookPayload<()> = WebhookPayload::transaction_sent(&tx, 99);
    assert_eq!(payload.event_type, WebhookEventType::TransactionSent);
    assert_eq!(payload.timestamp, 99);
    assert_eq!(payload.api_version, "1.0");
    assert_eq!(payload.transaction.nonce, 12);
    assert!(payload.receipt.is_none());
    let replaced: WebhookPayload<()> = WebhookPayload::transaction_replaced(&tx, &tx, 1);
    assert_eq!(replaced.event_type, WebhookEventType::TransactionReplaced);
    assert!(replaced.original_transaction.is_some());
    let mined = WebhookPayload::transaction_mined_with_receipt(&tx, 7u8, 2);
    assert_eq!(mined.receipt, Some(7u8));
    let data = WebhookTransactionData::from_transaction(&tx);
    assert_eq!(data.external_id.as_deref(), Some("ext"));
}

#[test]
fn estimation_uses_the_chain_nonce_and_a_provisional_limit() {
    let tx = new_queued_transaction(&to_send(None), RelayerId(3), address(4), 10, 12, 5, 6);
    let price = GasPriceResult { max_fee: 10, max_priority_fee: 1, min_wait_time_estimate: None, max_wait_time_estimate: None };
    match rrelayer_core::sending::estimation_request(&tx, 40, false, &price, None).unwrap() {
        alloy::consensus::TypedTransaction::Eip1559(inner) => {
            assert_eq!(inner.nonce, 40);
            assert_eq!(inner.gas_limit, 1_000_000);
        }
        _ => panic!(),
    }
}

#[test]
fn queued_record_takes_its_estimate_and_hash() {
    let now = 1_000_000;
    let mut tx = new_queued_transaction(&to_send(None), RelayerId(3), address(4), 10, 12, now, expires_at(now));
    let before = tx.clone();
    record_gas_estimate(&mut tx, 21_000);
    assert_eq!(tx.gas_limit, Some(21_000));
    assert_eq!(tx.known_transaction_hash, None);
    record_transaction_hash(&mut tx, TransactionHash { bytes: [7; 32] });
    assert_eq!(tx.known_transaction_hash, Some(TransactionHash { bytes: [7; 32] }));
    assert_eq!(tx.gas_limit, Some(21_000));
    assert_eq!(tx.nonce, before.nonce);
    assert_eq!(tx.status, TransactionStatus::PENDING);
    assert_eq!(tx.send_attempt_count, 0);
}
