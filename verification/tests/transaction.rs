use rrelayer_core::primitives::{EvmAddress, RelayerId, TransactionHash, TransactionId, Uint256};
use rrelayer_core::sending::check_relayer_balance;
use rrelayer_core::top_up::transfer_cost;
use rrelayer_core::transaction::{
    build_transaction_from_transaction_view, BlobGasPriceResult, GasPriceResult, Transaction,
    TransactionConversionError, TransactionRow, TransactionSpeed, TransactionStatus,
};

fn address(byte: u8) -> EvmAddress {
    EvmAddress { bytes: [byte; 20] }
}

fn gas() -> GasPriceResult {
    GasPriceResult { max_fee: 2_000, max_priority_fee: 100, min_wait_time_estimate: None, max_wait_time_estimate: None }
}

fn tx() -> Transaction {
    Transaction {
        id: TransactionId(1),
        relayer_id: RelayerId(2),
        to: address(3),
        from: address(4),
        value: Uint256::from_u128(5),
        data: vec![6],
        nonce: 7,
        chain_id: 8,
        gas_limit: None,
        status: TransactionStatus::PENDING,
        blobs: None,
        known_transaction_hash: None,
        queued_at: 0,
        expires_at: 1,
        sent_at: None,
        confirmed_at: None,
        sent_with_gas: None,
        sent_with_blob_gas: None,
        mined_at: None,
        mined_at_block_number: None,
        speed: TransactionSpeed::FAST,
        sent_with_max_priority_fee_per_gas: None,
        sent_with_max_fee_per_gas: None,
        is_noop: false,
        external_id: None,
        cancelled_by_transaction_id: None,
        send_attempt_count: 0,
    }
}

#[test]
fn conversion_errors_come_in_order() {
    let t = tx();
    assert!(matches!(t.to_eip1559_typed_transaction(None), Err(TransactionConversionError::NoGasPrice)));
    assert!(matches!(t.to_eip1559_typed_transaction(Some(&gas())), Err(TransactionConversionError::NoGasLimit)));
    assert!(matches!(t.to_legacy_typed_transaction(Some(&gas())), Err(TransactionConversionError::NoGasLimit)));
    assert!(t.to_eip1559_typed_transaction_with_gas_limit(Some(&gas()), Some(21_000)).is_ok());
    assert!(matches!(t.to_blob_typed_transaction(Some(&gas()), None), Err(TransactionConversionError::NoBlobGasPrice)));
    assert!(matches!(
        t.to_blob_typed_transaction(Some(&gas()), Some(&BlobGasPriceResult { blob_gas_price: 1 })),
        Err(TransactionConversionError::NoBlobs)
    ));
    assert!(!t.is_blob_transaction());
    assert!(!t.has_been_sent_before());
}

#[test]
fn converted_transactions_carry_the_fields() {
    let mut t = tx();
    t.gas_limit = Some(30_000);
    t.sent_with_gas = Some(gas());
    match t.to_eip1559_typed_transaction(None).unwrap() {
        alloy::consensus::TypedTransaction::Eip1559(inner) => {
            assert_eq!(inner.gas_limit, 30_000);
            assert_eq!(inner.max_fee_per_gas, 2_000);
            assert_eq!(inner.max_priority_fee_per_gas, 100);
            assert_eq!(inner.nonce, 7);
            assert_eq!(inner.chain_id, 8);
            assert_eq!(inner.value, alloy::primitives::U256::from(5u64));
            assert_eq!(inner.to, alloy::primitives::TxKind::Call(alloy::primitives::Address::from([3u8; 20])));
        }
        _ => panic!("expected an EIP-1559 transaction"),
    }
    match t.to_legacy_typed_transaction(None).unwrap() {
        alloy::consensus::TypedTransaction::Legacy(inner) => {
            assert_eq!(inner.gas_price, 2_000);
            assert_eq!(inner.chain_id, Some(8));
        }
        _ => panic!("expected a legacy transaction"),
    }
}

#[test]
fn blob_transactions_build_their_sidecar() {
    let mut t = tx();
    t.gas_limit = Some(30_000);
    t.sent_with_gas = Some(gas());
    t.sent_with_blob_gas = Some(BlobGasPriceResult { blob_gas_price: 9 });
    t.blobs = Some(vec![b"hello blobs".to_vec()]);
    assert!(t.is_blob_transaction());
    match t.to_blob_typed_transaction(None, None).unwrap() {
        alloy::consensus::TypedTransaction::Eip4844(alloy::consensus::TxEip4844Variant::TxEip4844WithSidecar(inner)) => {
            assert_eq!(inner.tx.max_fee_per_blob_gas, 9);
            assert_eq!(inner.tx.blob_versioned_hashes.len(), 1);
        }
        _ => panic!("expected a blob transaction with its sidecar"),
    }
}

#[test]
fn stored_rows_rebuild_transactions() {
    let row = TransactionRow {
        id: TransactionId(1),
        relayer_id: RelayerId(2),
        to: address(9),
        from: address(9),
        value: Uint256::zero(),
        chain_id: 1,
        data: vec![],
        nonce: 3,
        gas_limit: Some(21_000),
        status: TransactionStatus::INMEMPOOL,
        blobs: None,
        hash: Some(TransactionHash { bytes: [1; 32] }),
        queued_at: 1,
        expires_at: 2,
        sent_at: Some(3),
        confirmed_at: None,
        sent_with_gas: Some(gas()),
        sent_with_blob_gas: None,
        mined_at: None,
        block_number: None,
        speed: TransactionSpeed::SLOW,
        sent_max_priority_fee_per_gas: Some(100),
        sent_max_fee_per_gas: Some(2_000),
        external_id: Some("x".to_string()),
        cancelled_by_transaction_id: None,
    };
    let t = build_transaction_from_transaction_view(row);
    assert!(t.is_noop);
    assert_eq!(t.send_attempt_count, 0);
    assert!(t.has_been_sent_before());
    assert_eq!(t.known_transaction_hash, Some(TransactionHash { bytes: [1; 32] }));
}

#[test]
fn uint256_arithmetic_wraps() {
    let max = Uint256 { limbs: [u64::MAX; 4] };
    let price = GasPriceResult { max_fee: 1, max_priority_fee: 1, min_wait_time_estimate: None, max_wait_time_estimate: None };
    // value + gas * price wraps around to zero, which any balance covers.
    assert!(check_relayer_balance(RelayerId(1), &Uint256::zero(), &max, 1, &price).is_ok());
    assert!(check_relayer_balance(RelayerId(1), &Uint256::from_u128(5), &Uint256::from_u128(4), 1, &price).is_ok());
    assert!(check_relayer_balance(RelayerId(1), &Uint256::from_u128(4), &Uint256::from_u128(4), 1, &price).is_err());
    assert_eq!(transfer_cost(6, 7), Uint256::from_u128(42));
    assert_eq!(transfer_cost(u128::MAX, 2), Uint256 { limbs: [u64::MAX - 1, u64::MAX, 1, 0] });
    assert_eq!(Uint256::from_u128(u128::MAX).limbs, [u64::MAX, u64::MAX, 0, 0]);
    assert_eq!(Uint256::from_u128(1).limbs, [1, 0, 0, 0]);
    assert!(Uint256::zero().is_zero());
}
