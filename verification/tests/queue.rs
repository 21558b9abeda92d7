use rrelayer_core::primitives::{EvmAddress, RelayerId, TransactionHash, TransactionId, Uint256};
use rrelayer_core::process_result::{
    compute_send_error_backoff_ms, ProcessInmempoolStatus, ProcessMinedStatus, ProcessPendingStatus,
    MAX_NOOP_SEND_ATTEMPTS,
};
use rrelayer_core::queue::{
    apply_gas_bump, assign_recovered_nonce, count_send_attempt, finish_confirmation, mark_transaction_confirmed,
    mark_transaction_sent, finish_inmempool_nonce_recovery, finish_mark_failed,
    finish_move_to_inmempool, finish_pending_nonce_recovery, finish_settlement, has_expired,
    inmempool_after_bump, inmempool_after_receipt, inmempool_gas_check, inmempool_loop_wait,
    is_nonce_desync_error, is_unrecoverable_send_error, mined_after_confirmation_check,
    mined_after_receipt, mined_loop_wait, pending_after_send, pending_loop_wait, plan_inmempool,
    plan_mined, plan_pending, transaction_to_noop, GasBumpDecision, InmempoolAfterBump,
    InmempoolAfterReceipt, InmempoolPlan, InmempoolSnapshot, MinedAfterCheck, MinedPlan,
    MinedSnapshot, PendingAfterSend, PendingPlan, PendingSnapshot, ProcessInmempoolTransactionError,
    ProcessMinedTransactionError, ProcessPendingTransactionError, Settlement,
    TransactionQueueSendTransactionError, TransactionSent,
};
use rrelayer_core::transaction::{
    GasPriceResult, Transaction, TransactionSpeed, TransactionStatus,
};

const DAY_MS: i64 = 86_400_000;
const NOW_MS: i64 = 1_739_880_000_000;

fn address(byte: u8) -> EvmAddress {
    EvmAddress { bytes: [byte; 20] }
}

/// A test transaction matching the stuck noop scenario: expired two days ago.
fn make_test_noop_transaction(send_attempt_count: u32) -> Transaction {
    let addr = address(0);
    Transaction {
        id: TransactionId(7),
        relayer_id: RelayerId(9),
        to: addr,
        from: addr,
        value: Uint256::zero(),
        data: Vec::new(),
        nonce: 36,
        chain_id: 1,
        gas_limit: Some(21000),
        status: TransactionStatus::PENDING,
        blobs: None,
        known_transaction_hash: None,
        queued_at: NOW_MS - 3 * DAY_MS,
        expires_at: NOW_MS - 2 * DAY_MS,
        sent_at: None,
        confirmed_at: None,
        sent_with_gas: None,
        sent_with_blob_gas: None,
        mined_at: None,
        mined_at_block_number: None,
        speed: TransactionSpeed::FAST,
        sent_with_max_priority_fee_per_gas: None,
        sent_with_max_fee_per_gas: None,
        is_noop: true,
        external_id: None,
        cancelled_by_transaction_id: None,
        send_attempt_count,
    }
}

fn pending_snapshot(next: Option<Transaction>) -> PendingSnapshot {
    PendingSnapshot {
        queue_exists: true,
        paused: false,
        relay_address: address(0xaa),
        next_pending: next,
        shutting_down: false,
        now_ms: NOW_MS,
        // These passes run with automatic failing of exhausted noops turned on.
        auto_fail_expired_transactions: true,
    }
}

/// One pass of the pending processor whose send fails with an ordinary
/// error: (should_fail, backoff_ms).
fn simulate_pending_loop_iteration(transaction: &Transaction) -> (bool, u64) {
    match plan_pending(RelayerId(9), pending_snapshot(Some(transaction.clone()))) {
        PendingPlan::FailNoop { .. } => (true, 0),
        PendingPlan::Send { transaction } => {
            let outcome = Err(TransactionQueueSendTransactionError::TransactionSendError(
                "connection refused".to_string(),
            ));
            match pending_after_send(RelayerId(9), address(0xaa), &transaction, outcome, None) {
                PendingAfterSend::CountAttemptAndWait(result) => {
                    assert_eq!(result.status, ProcessPendingStatus::SendErrorBackoff);
                    (false, result.process_again_after)
                }
                _ => panic!("an ordinary send error should back off"),
            }
        }
        PendingPlan::Done(_) => panic!("a pending transaction should be sent or failed"),
    }
}

#[test]
fn test_stuck_noop_hot_loop_exits_after_max_attempts() {
    let mut total_backoff_ms: u64 = 0;
    let mut iterations = 0;

    for attempt in 0..100 {
        let transaction = make_test_noop_transaction(attempt);
        let (should_fail, backoff_ms) = simulate_pending_loop_iteration(&transaction);

        if should_fail {
            iterations = attempt;
            break;
        }

        total_backoff_ms += backoff_ms;
    }

    assert_eq!(
        iterations, MAX_NOOP_SEND_ATTEMPTS,
        "Noop should fail after exactly {} attempts, but failed after {}",
        MAX_NOOP_SEND_ATTEMPTS, iterations
    );
    assert!(
        total_backoff_ms > 300_000,
        "Total backoff across {} attempts should be > 300s, but was {}ms",
        MAX_NOOP_SEND_ATTEMPTS,
        total_backoff_ms
    );
    assert!(total_backoff_ms > 100_000, "Total backoff {}ms is too low — hot loop not fixed", total_backoff_ms);
}

#[test]
fn test_non_noop_transactions_are_not_affected_by_noop_limit() {
    let mut transaction = make_test_noop_transaction(MAX_NOOP_SEND_ATTEMPTS + 5);
    transaction.is_noop = false;
    transaction.expires_at = NOW_MS + DAY_MS;

    let (should_fail, backoff_ms) = simulate_pending_loop_iteration(&transaction);

    assert!(!should_fail, "Non-noop transaction should not be failed by noop retry limit");
    assert!(backoff_ms >= 1_000, "Should still apply backoff, got {}ms", backoff_ms);
}

#[test]
fn test_expired_transaction_detection() {
    let expired_tx = make_test_noop_transaction(0);
    assert!(has_expired(&expired_tx, NOW_MS), "Test transaction should have expires_at in the past");

    let fresh_tx = Transaction { expires_at: NOW_MS + 12 * 3_600_000, ..make_test_noop_transaction(0) };
    assert!(!has_expired(&fresh_tx, NOW_MS), "Fresh transaction should have expires_at in the future");
}

#[test]
fn test_send_attempt_count_preserved_across_clones() {
    let mut tx = make_test_noop_transaction(5);
    tx.send_attempt_count = 7;

    let cloned = tx.clone();
    assert_eq!(cloned.send_attempt_count, 7);
    assert_eq!(tx.duplicate().send_attempt_count, 7);
}

#[test]
fn stuck_noop_total_backoff_is_362_seconds() {
    let total: u64 = (1..=MAX_NOOP_SEND_ATTEMPTS).map(compute_send_error_backoff_ms).sum();
    assert_eq!(total, 362_000);
}

#[test]
fn expired_transaction_is_sent_as_noop_to_relayer() {
    let mut tx = make_test_noop_transaction(0);
    tx.is_noop = false;
    tx.to = address(0x11);
    tx.value = Uint256::from_u128(5);
    tx.data = vec![1, 2, 3];
    tx.speed = TransactionSpeed::SLOW;
    match plan_pending(RelayerId(9), pending_snapshot(Some(tx))) {
        PendingPlan::Send { transaction } => {
            assert!(transaction.is_noop);
            assert_eq!(transaction.to, address(0xaa));
            assert!(transaction.value.is_zero());
            assert!(transaction.data.is_empty());
            assert_eq!(transaction.gas_limit, Some(21000));
            assert_eq!(transaction.speed, TransactionSpeed::FAST);
            assert_eq!(transaction.nonce, 36);
        }
        _ => panic!("expired transaction should be sent as a noop"),
    }
}

#[test]
fn transaction_to_noop_keeps_nonce_and_id() {
    let mut tx = make_test_noop_transaction(3);
    tx.is_noop = false;
    tx.data = vec![9; 4];
    transaction_to_noop(&mut tx, address(0x42));
    assert!(tx.is_noop);
    assert_eq!(tx.to, address(0x42));
    assert_eq!(tx.id, TransactionId(7));
    assert_eq!(tx.nonce, 36);
    assert_eq!(tx.send_attempt_count, 3);
    assert!(tx.data.is_empty());
}

#[test]
fn pending_plan_paused_missing_and_empty() {
    let mut snapshot = pending_snapshot(None);
    snapshot.queue_exists = false;
    assert!(matches!(
        plan_pending(RelayerId(9), snapshot),
        PendingPlan::Done(Err(ProcessPendingTransactionError::RelayerTransactionsQueueNotFound(RelayerId(9))))
    ));

    let mut snapshot = pending_snapshot(Some(make_test_noop_transaction(0)));
    snapshot.paused = true;
    match plan_pending(RelayerId(9), snapshot) {
        PendingPlan::Done(Ok(result)) => {
            assert_eq!(result.status, ProcessPendingStatus::RelayerPaused);
            assert_eq!(result.process_again_after, 30_000);
        }
        _ => panic!("paused relayer should wait"),
    }

    match plan_pending(RelayerId(9), pending_snapshot(None)) {
        PendingPlan::Done(Ok(result)) => {
            assert_eq!(result.status, ProcessPendingStatus::NoPendingTransactions);
            assert_eq!(result.process_again_after, 10);
        }
        _ => panic!("empty queue should wait"),
    }

    let mut snapshot = pending_snapshot(Some(make_test_noop_transaction(0)));
    snapshot.shutting_down = true;
    assert!(matches!(
        plan_pending(RelayerId(9), snapshot),
        PendingPlan::Done(Err(ProcessPendingTransactionError::RelayerTransactionsQueueNotFound(_)))
    ));
}

#[test]
fn noop_failure_reason_names_limit_and_relayer() {
    match plan_pending(RelayerId(0x0123456789abcdef0123456789abcdef), pending_snapshot(Some(make_test_noop_transaction(10)))) {
        PendingPlan::FailNoop { reason, error, .. } => {
            assert_eq!(
                reason,
                "Noop transaction exceeded max send attempts (10) for relayer 01234567-89ab-cdef-0123-456789abcdef"
            );
            match error {
                ProcessPendingTransactionError::SendTransactionError(
                    _,
                    _,
                    TransactionQueueSendTransactionError::TransactionConversionError(m),
                ) => assert_eq!(m, reason),
                _ => panic!("wrong error"),
            }
        }
        _ => panic!("noop at the limit should fail"),
    }
}

#[test]
fn sent_confirmed_and_renonced_records() {
    let mut tx = make_test_noop_transaction(2);
    mark_transaction_sent(&mut tx, TransactionHash { bytes: [5; 32] }, NOW_MS);
    assert_eq!(tx.status, TransactionStatus::INMEMPOOL);
    assert_eq!(tx.known_transaction_hash, Some(TransactionHash { bytes: [5; 32] }));
    assert_eq!(tx.sent_at, Some(NOW_MS));
    assert_eq!(tx.send_attempt_count, 2);
    mark_transaction_confirmed(&mut tx, NOW_MS + 7);
    assert_eq!(tx.status, TransactionStatus::CONFIRMED);
    assert_eq!(tx.confirmed_at, Some(NOW_MS + 7));
    assert_eq!(tx.sent_at, Some(NOW_MS));
    let mut pending = make_test_noop_transaction(0);
    assign_recovered_nonce(&mut pending, 99);
    assert_eq!(pending.nonce, 99);
    assert_eq!(pending.id, TransactionId(7));
}

#[test]
fn a_failed_send_counts_one_attempt() {
    let mut tx = make_test_noop_transaction(4);
    count_send_attempt(&mut tx);
    assert_eq!(tx.send_attempt_count, 5);
    assert_eq!(tx.nonce, 36);
}

#[test]
fn exhausted_noop_is_sent_when_auto_fail_is_off() {
    let mut snapshot = pending_snapshot(Some(make_test_noop_transaction(MAX_NOOP_SEND_ATTEMPTS + 5)));
    snapshot.auto_fail_expired_transactions = false;
    match plan_pending(RelayerId(9), snapshot) {
        PendingPlan::Send { transaction } => {
            assert!(transaction.is_noop);
            assert_eq!(transaction.send_attempt_count, MAX_NOOP_SEND_ATTEMPTS + 5);
        }
        _ => panic!("without automatic failing an exhausted noop is still sent"),
    }
}

#[test]
fn send_error_classification() {
    assert!(is_unrecoverable_send_error("Insufficient Funds for gas * price + value"));
    assert!(is_unrecoverable_send_error("execution reverted: nope"));
    assert!(is_unrecoverable_send_error("gas required exceeds allowance: balance 0"));
    assert!(!is_unrecoverable_send_error("connection refused"));
    assert!(is_nonce_desync_error("NONCE TOO LOW"));
    assert!(is_nonce_desync_error("already known"));
    assert!(!is_nonce_desync_error("nonce"));
}

#[test]
fn pending_after_send_outcomes() {
    let tx = make_test_noop_transaction(2);
    let relayer = RelayerId(1);
    let addr = address(3);
    assert!(matches!(pending_after_send(relayer, addr, &tx, Ok(()), None), PendingAfterSend::MoveToInmempool));
    match pending_after_send(relayer, addr, &tx, Err(TransactionQueueSendTransactionError::GasPriceTooHigh), Some(12_000)) {
        PendingAfterSend::Done(Ok(r)) => {
            assert_eq!(r.status, ProcessPendingStatus::GasPriceTooHigh);
            assert_eq!(r.process_again_after, 12_000);
        }
        _ => panic!(),
    }
    assert!(matches!(
        pending_after_send(relayer, addr, &tx, Err(TransactionQueueSendTransactionError::GasCalculationError), None),
        PendingAfterSend::Done(Err(ProcessPendingTransactionError::GasCalculationError(..)))
    ));
    match pending_after_send(
        relayer,
        addr,
        &tx,
        Err(TransactionQueueSendTransactionError::TransactionSendError("insufficient funds".to_string())),
        None,
    ) {
        PendingAfterSend::MarkFailed { reason, error } => {
            assert_eq!(reason, "insufficient funds");
            assert!(matches!(error, ProcessPendingTransactionError::SendTransactionError(..)));
        }
        _ => panic!(),
    }
    match pending_after_send(
        relayer,
        addr,
        &tx,
        Err(TransactionQueueSendTransactionError::TransactionSendError("Nonce too low".to_string())),
        None,
    ) {
        PendingAfterSend::RecoverNonce { send_error } => assert_eq!(send_error, "Nonce too low"),
        _ => panic!(),
    }
    match pending_after_send(relayer, addr, &tx, Err(TransactionQueueSendTransactionError::TransactionSendError("timeout".to_string())), None) {
        PendingAfterSend::CountAttemptAndWait(r) => assert_eq!(r.process_again_after, 8_000),
        _ => panic!(),
    }
    for e in [
        TransactionQueueSendTransactionError::TransactionEstimateGasError("e".to_string()),
        TransactionQueueSendTransactionError::TransactionConversionError("c".to_string()),
        TransactionQueueSendTransactionError::SafeProxyError("s".to_string()),
    ] {
        assert!(matches!(
            pending_after_send(relayer, addr, &tx, Err(e), None),
            PendingAfterSend::MarkFailed { error: ProcessPendingTransactionError::TransactionEstimateGasError(..), .. }
        ));
    }
    for e in [
        TransactionQueueSendTransactionError::CouldNotUpdateTransactionDb("db".to_string()),
        TransactionQueueSendTransactionError::SendTransactionGasPriceError("g".to_string()),
        TransactionQueueSendTransactionError::NoTransactionInQueue,
    ] {
        let expected = e.clone();
        match pending_after_send(relayer, addr, &tx, Err(e), None) {
            PendingAfterSend::Done(Err(ProcessPendingTransactionError::SendTransactionError(_, _, f))) => {
                assert_eq!(f, expected)
            }
            _ => panic!(),
        }
    }
}

#[test]
fn pending_finish_steps() {
    let relayer = RelayerId(1);
    let addr = address(3);
    assert!(matches!(
        finish_mark_failed(relayer, addr, Err("db down".to_string()), ProcessPendingTransactionError::DbError(relayer, addr, "x".to_string())),
        Err(ProcessPendingTransactionError::DbError(_, _, m)) if m == "db down"
    ));
    assert!(matches!(
        finish_mark_failed(relayer, addr, Ok(()), ProcessPendingTransactionError::TransactionEstimateGasError(relayer, addr, "e".to_string())),
        Err(ProcessPendingTransactionError::TransactionEstimateGasError(..))
    ));
    assert_eq!(finish_move_to_inmempool(relayer, addr, Ok(())).unwrap().status, ProcessPendingStatus::Success);
    assert!(matches!(
        finish_move_to_inmempool(relayer, addr, Err("m".to_string())),
        Err(ProcessPendingTransactionError::MovePendingTransactionToInmempoolError(..))
    ));
    let r = finish_pending_nonce_recovery(relayer, addr, Ok(()), "nonce too low".to_string()).unwrap();
    assert_eq!(r.status, ProcessPendingStatus::NonceSynchronized);
    assert_eq!(r.process_again_after, 100);
    assert!(matches!(
        finish_pending_nonce_recovery(relayer, addr, Err("rpc".to_string()), "nonce too low".to_string()),
        Err(ProcessPendingTransactionError::SendTransactionError(_, _, TransactionQueueSendTransactionError::TransactionSendError(m))) if m == "nonce too low"
    ));
}

#[test]
fn loop_waits_stop_only_when_queue_is_gone() {
    let ok = finish_move_to_inmempool(RelayerId(1), address(1), Ok(()));
    assert_eq!(pending_loop_wait(&ok), Some(10));
    let gone: Result<_, ProcessPendingTransactionError> = Err(ProcessPendingTransactionError::RelayerTransactionsQueueNotFound(RelayerId(1)));
    assert_eq!(pending_loop_wait(&gone), None);
    let failed = finish_move_to_inmempool(RelayerId(1), address(1), Err("x".to_string()));
    assert_eq!(pending_loop_wait(&failed), Some(1000));
    let gone: Result<_, ProcessInmempoolTransactionError> = Err(ProcessInmempoolTransactionError::RelayerTransactionsQueueNotFound(RelayerId(1)));
    assert_eq!(inmempool_loop_wait(&gone), None);
    let gone: Result<_, ProcessMinedTransactionError> = Err(ProcessMinedTransactionError::RelayerTransactionsQueueNotFound(RelayerId(1)));
    assert_eq!(mined_loop_wait(&gone), None);
}

fn sent_transaction() -> Transaction {
    let mut tx = make_test_noop_transaction(0);
    tx.status = TransactionStatus::INMEMPOOL;
    tx.known_transaction_hash = Some(TransactionHash { bytes: [5; 32] });
    tx.sent_at = Some(NOW_MS - 30_000);
    tx.sent_with_gas = Some(GasPriceResult { max_fee: 100, max_priority_fee: 10, min_wait_time_estimate: None, max_wait_time_estimate: None });
    tx
}

#[test]
fn inmempool_flow() {
    let snapshot = InmempoolSnapshot { queue_exists: true, relay_address: address(1), next_inmempool: None, shutting_down: false };
    match plan_inmempool(RelayerId(1), snapshot) {
        InmempoolPlan::Done(Ok(r)) => assert_eq!(r.status, ProcessInmempoolStatus::NoInmempoolTransactions),
        _ => panic!(),
    }
    let mut unknown = sent_transaction();
    unknown.known_transaction_hash = None;
    let snapshot = InmempoolSnapshot { queue_exists: true, relay_address: address(1), next_inmempool: Some(unknown), shutting_down: false };
    assert!(matches!(
        plan_inmempool(RelayerId(1), snapshot),
        InmempoolPlan::Done(Err(ProcessInmempoolTransactionError::UnknownTransactionHash(..)))
    ));
    let snapshot = InmempoolSnapshot { queue_exists: true, relay_address: address(1), next_inmempool: Some(sent_transaction()), shutting_down: false };
    match plan_inmempool(RelayerId(1), snapshot) {
        InmempoolPlan::FetchReceipt { hash, .. } => assert_eq!(hash, TransactionHash { bytes: [5; 32] }),
        _ => panic!(),
    }
    match inmempool_after_receipt(RelayerId(1), address(1), sent_transaction(), Ok(false), NOW_MS, Some(12_000)) {
        InmempoolAfterReceipt::CheckGasBump { elapsed_ms } => assert_eq!(elapsed_ms, 30_000),
        _ => panic!(),
    }
    let mut unsent = sent_transaction();
    unsent.sent_at = None;
    match inmempool_after_receipt(RelayerId(1), address(1), unsent, Ok(false), NOW_MS, Some(12_000)) {
        InmempoolAfterReceipt::Done(Ok(r)) => {
            assert_eq!(r.status, ProcessInmempoolStatus::StillInmempool);
            assert_eq!(r.process_again_after, 1_200);
        }
        _ => panic!(),
    }
    assert!(matches!(
        inmempool_after_receipt(RelayerId(1), address(1), sent_transaction(), Ok(true), NOW_MS, None),
        InmempoolAfterReceipt::Settle
    ));
    assert!(matches!(
        inmempool_after_receipt(RelayerId(1), address(1), sent_transaction(), Err("rpc".to_string()), NOW_MS, None),
        InmempoolAfterReceipt::Done(Err(ProcessInmempoolTransactionError::CouldNotGetTransactionReceipt(..)))
    ));
    let tx = sent_transaction();
    match inmempool_gas_check(&tx, true, false, true, None) {
        GasBumpDecision::Done(r) => assert_eq!(r.process_again_after, 10),
        _ => panic!("capped fees are not bumped"),
    }
    assert!(matches!(inmempool_gas_check(&tx, false, true, true, None), GasBumpDecision::Bump));
    assert!(matches!(inmempool_gas_check(&tx, false, false, false, Some(5_000)), GasBumpDecision::Done(_)));
    match inmempool_after_bump(RelayerId(1), address(1), Ok(())) {
        InmempoolAfterBump::Bumped(r) => assert_eq!(r.status, ProcessInmempoolStatus::GasIncreased),
        _ => panic!(),
    }
    assert!(matches!(
        inmempool_after_bump(RelayerId(1), address(1), Err(TransactionQueueSendTransactionError::TransactionSendError("invalid nonce".to_string()))),
        InmempoolAfterBump::RecoverNonce { .. }
    ));
    assert!(matches!(
        inmempool_after_bump(RelayerId(1), address(1), Err(TransactionQueueSendTransactionError::TransactionSendError("insufficient funds".to_string()))),
        InmempoolAfterBump::Done(Err(ProcessInmempoolTransactionError::SendTransactionError(..)))
    ));
    assert_eq!(
        finish_inmempool_nonce_recovery(RelayerId(1), address(1), Ok(()), "x".to_string()).unwrap().status,
        ProcessInmempoolStatus::NonceSynchronized
    );
}

#[test]
fn gas_bump_records_new_fees() {
    let mut tx = sent_transaction();
    let sent = TransactionSent {
        id: tx.id,
        hash: TransactionHash { bytes: [8; 32] },
        sent_with_gas: GasPriceResult { max_fee: 120, max_priority_fee: 12, min_wait_time_estimate: None, max_wait_time_estimate: None },
        sent_with_blob_gas: None,
    };
    apply_gas_bump(&mut tx, &sent, NOW_MS);
    assert_eq!(tx.known_transaction_hash, Some(TransactionHash { bytes: [8; 32] }));
    assert_eq!(tx.sent_with_max_fee_per_gas, Some(120));
    assert_eq!(tx.sent_with_max_priority_fee_per_gas, Some(12));
    assert_eq!(tx.sent_at, Some(NOW_MS));
}

#[test]
fn settlement_reports_first_failure() {
    let winner = sent_transaction();
    let mut loser = sent_transaction();
    loser.status = TransactionStatus::CANCELLED;
    let ok = finish_settlement(RelayerId(1), address(1), Ok(Settlement {
        winner: winner.clone(),
        winner_status: TransactionStatus::MINED,
        winner_recorded: Ok(()),
        loser: Some((loser.clone(), Ok(()))),
    }));
    assert_eq!(ok.unwrap().status, ProcessInmempoolStatus::Success);
    let loser_failed = finish_settlement(RelayerId(1), address(1), Ok(Settlement {
        winner: winner.clone(),
        winner_status: TransactionStatus::MINED,
        winner_recorded: Ok(()),
        loser: Some((loser, Err("db".to_string()))),
    }));
    assert!(matches!(
        loser_failed,
        Err(ProcessInmempoolTransactionError::CouldNotUpdateTransactionStatusInTheDatabase(_, _, _, TransactionStatus::CANCELLED, _))
    ));
    let winner_failed = finish_settlement(RelayerId(1), address(1), Ok(Settlement {
        winner,
        winner_status: TransactionStatus::EXPIRED,
        winner_recorded: Err("db".to_string()),
        loser: None,
    }));
    assert!(matches!(
        winner_failed,
        Err(ProcessInmempoolTransactionError::CouldNotUpdateTransactionStatusInTheDatabase(_, _, _, TransactionStatus::EXPIRED, _))
    ));
    assert!(matches!(
        finish_settlement(RelayerId(1), address(1), Err("queue".to_string())),
        Err(ProcessInmempoolTransactionError::MoveInmempoolTransactionToMinedError(..))
    ));
}

#[test]
fn mined_flow() {
    let mut mined = sent_transaction();
    mined.status = TransactionStatus::MINED;
    mined.mined_at = Some(NOW_MS - 60_000);
    let snapshot = MinedSnapshot { queue_exists: true, relay_address: address(1), next_mined: Some(mined.clone()), shutting_down: false, now_ms: NOW_MS };
    match plan_mined(RelayerId(1), snapshot) {
        MinedPlan::CheckConfirmation { elapsed_ms, .. } => assert_eq!(elapsed_ms, 60_000),
        _ => panic!(),
    }
    let mut no_mined_at = mined.clone();
    no_mined_at.mined_at = None;
    let snapshot = MinedSnapshot { queue_exists: true, relay_address: address(1), next_mined: Some(no_mined_at), shutting_down: false, now_ms: NOW_MS };
    assert!(matches!(plan_mined(RelayerId(1), snapshot), MinedPlan::Done(Err(ProcessMinedTransactionError::NoMinedAt(..)))));
    match mined_after_confirmation_check(RelayerId(1), address(1), mined.clone(), false) {
        MinedAfterCheck::Done(Ok(r)) => assert_eq!(r.status, ProcessMinedStatus::NotConfirmedYet),
        _ => panic!(),
    }
    let mut no_hash = mined.clone();
    no_hash.known_transaction_hash = None;
    match mined_after_confirmation_check(RelayerId(1), address(1), no_hash, true) {
        MinedAfterCheck::Done(Err(ProcessMinedTransactionError::CouldNotGetTransactionReceipt(_, _, _, m))) => {
            assert_eq!(m, "Transaction hash not found")
        }
        _ => panic!(),
    }
    match mined_after_receipt(RelayerId(1), address(1), mined.clone(), Ok(false)) {
        Err(ProcessMinedTransactionError::CouldNotGetTransactionReceipt(_, _, _, m)) => assert_eq!(m, "No receipt"),
        _ => panic!(),
    }
    assert!(mined_after_receipt(RelayerId(1), address(1), mined.clone(), Ok(true)).is_ok());
    assert_eq!(finish_confirmation(RelayerId(1), address(1), mined.clone(), Ok(())).unwrap().status, ProcessMinedStatus::Success);
    assert!(matches!(
        finish_confirmation(RelayerId(1), address(1), mined, Err("db".to_string())),
        Err(ProcessMinedTransactionError::TransactionConfirmedNotSaveToDatabase(..))
    ));
}
