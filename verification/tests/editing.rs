use rrelayer_core::editing::{
    competition_type_for, competitor_after_send, finish_cancel_inmempool, finish_cancel_nonce_recovery,
    finish_cancel_pending, finish_replace_inmempool, finish_replace_nonce_recovery, mark_competed_by,
    plan_cancel, plan_replace, reconstruct_competitions, transaction_replace,
    with_blob_gas_price, CancelPlan, CancelTransactionError, CancelTransactionResult, CompetitionType,
    CompetitorAfterSend, EditSnapshot, EditableTransaction, EditableTransactionType, RelayTransactionRequest,
    ReplacePlan, ReplaceTransactionError, ReplaceTransactionResult,
};
use rrelayer_core::primitives::{EvmAddress, RelayerId, TransactionHash, TransactionId, Uint256};
use rrelayer_core::queue::{mark_transaction_sent, TransactionQueueSendTransactionError, TransactionSent};
use rrelayer_core::transaction::{BlobGasPriceResult, GasPriceResult, Transaction, TransactionSpeed, TransactionStatus};

const NOW_MS: i64 = 1_739_880_000_000;

fn address(byte: u8) -> EvmAddress {
    EvmAddress { bytes: [byte; 20] }
}

fn gas(max_fee: u128, max_priority_fee: u128) -> GasPriceResult {
    GasPriceResult { max_fee, max_priority_fee, min_wait_time_estimate: Some(1), max_wait_time_estimate: Some(2) }
}

fn queued(id: u128) -> Transaction {
    Transaction {
        id: TransactionId(id),
        relayer_id: RelayerId(1),
        to: address(0x22),
        from: address(0x11),
        value: Uint256::from_u128(1_000),
        data: vec![0xde, 0xad],
        nonce: 5,
        chain_id: 10,
        gas_limit: Some(50_000),
        status: TransactionStatus::INMEMPOOL,
        blobs: None,
        known_transaction_hash: Some(TransactionHash { bytes: [1; 32] }),
        queued_at: NOW_MS - 1_000,
        expires_at: NOW_MS + 1_000,
        sent_at: Some(NOW_MS - 500),
        confirmed_at: None,
        sent_with_gas: Some(gas(1_000, 100)),
        sent_with_blob_gas: None,
        mined_at: None,
        mined_at_block_number: None,
        speed: TransactionSpeed::MEDIUM,
        sent_with_max_priority_fee_per_gas: Some(100),
        sent_with_max_fee_per_gas: Some(1_000),
        is_noop: false,
        external_id: Some("order-1".to_string()),
        cancelled_by_transaction_id: None,
        send_attempt_count: 0,
    }
}

fn snapshot(kind: Option<EditableTransactionType>, transaction: Transaction) -> EditSnapshot {
    EditSnapshot {
        queue_exists: true,
        paused: false,
        editable: kind.map(|kind| EditableTransaction { transaction, kind }),
        shutting_down: false,
        relay_address: address(0x11),
        chain_id: 10,
        now_ms: NOW_MS,
    }
}

#[test]
fn cancel_of_inmempool_transaction_bumps_fees_by_a_fifth() {
    let original = queued(0x00000000000000000000000000000abc);
    match plan_cancel(&original, TransactionId(77), snapshot(Some(EditableTransactionType::Inmempool), original.clone())) {
        CancelPlan::SendCancel { cancel } => {
            assert_eq!(cancel.id, TransactionId(77));
            assert_eq!(cancel.nonce, 5);
            assert_eq!(cancel.to, address(0x11));
            assert_eq!(cancel.from, address(0x11));
            assert!(cancel.value.is_zero());
            assert!(cancel.data.is_empty());
            assert!(cancel.is_noop);
            assert_eq!(cancel.gas_limit, Some(60_000));
            assert_eq!(cancel.speed, TransactionSpeed::SUPER);
            assert_eq!(cancel.status, TransactionStatus::PENDING);
            assert_eq!(cancel.expires_at, NOW_MS + 43_200_000);
            let g = cancel.sent_with_gas.unwrap();
            assert_eq!((g.max_fee, g.max_priority_fee), (1_200, 120));
            assert_eq!(g.min_wait_time_estimate, None);
            assert_eq!(cancel.external_id.as_deref(), Some("cancel_00000000-0000-0000-0000-000000000abc"));
        }
        _ => panic!("an in-mempool transaction is cancelled by a competing noop"),
    }
}

#[test]
fn cancel_other_cases() {
    let original = queued(1);
    match plan_cancel(&original, TransactionId(2), snapshot(Some(EditableTransactionType::Pending), original.clone())) {
        CancelPlan::CancelPending { cancelled } => assert_eq!(cancelled.status, TransactionStatus::CANCELLED),
        _ => panic!(),
    }
    match plan_cancel(&original, TransactionId(2), snapshot(None, original.clone())) {
        CancelPlan::Done(Ok(r)) => assert_eq!(r, CancelTransactionResult { success: false, cancel_transaction_id: None }),
        _ => panic!(),
    }
    let mut s = snapshot(None, original.clone());
    s.queue_exists = false;
    assert!(matches!(plan_cancel(&original, TransactionId(2), s), CancelPlan::Done(Err(CancelTransactionError::RelayerNotFound(_)))));
    let mut s = snapshot(None, original.clone());
    s.paused = true;
    assert!(matches!(plan_cancel(&original, TransactionId(2), s), CancelPlan::Done(Err(CancelTransactionError::RelayerIsPaused(_)))));
    let mut no_gas = original.clone();
    no_gas.sent_with_gas = None;
    assert!(matches!(
        plan_cancel(&original, TransactionId(2), snapshot(Some(EditableTransactionType::Inmempool), no_gas)),
        CancelPlan::Done(Err(CancelTransactionError::SendTransactionError(TransactionQueueSendTransactionError::GasCalculationError)))
    ));
    assert!(finish_cancel_pending(Ok(())).unwrap().success);
    assert!(matches!(finish_cancel_pending(Err("db".to_string())), Err(CancelTransactionError::CouldNotUpdateTransactionDb(_))));
    assert!(matches!(finish_cancel_nonce_recovery(Ok(()), "x".to_string()), Err(CancelTransactionError::NonceSynchronizationRecovered)));
    assert_eq!(
        finish_cancel_inmempool(TransactionId(9), Ok(()), Ok(()), Ok(())).unwrap(),
        CancelTransactionResult { success: true, cancel_transaction_id: Some(TransactionId(9)) }
    );
    assert!(matches!(
        finish_cancel_inmempool(TransactionId(9), Ok(()), Err(TransactionQueueSendTransactionError::NoTransactionInQueue), Ok(())),
        Err(CancelTransactionError::SendTransactionError(TransactionQueueSendTransactionError::NoTransactionInQueue))
    ));
}

fn request(external_id: Option<&str>) -> RelayTransactionRequest {
    RelayTransactionRequest {
        to: address(0x33),
        value: Uint256::from_u128(7),
        data: vec![1, 2, 3],
        blobs: None,
        external_id: external_id.map(|s| s.to_string()),
    }
}

#[test]
fn replace_of_inmempool_transaction() {
    let original = queued(0x10);
    match plan_replace(&original, &request(None), TransactionId(88), snapshot(Some(EditableTransactionType::Inmempool), original.clone())) {
        ReplacePlan::SendReplacement { replacement } => {
            assert_eq!(replacement.id, TransactionId(88));
            assert_eq!(replacement.to, address(0x33));
            assert_eq!(replacement.nonce, 5);
            assert_eq!(replacement.gas_limit, Some(60_000));
            assert!(!replacement.is_noop);
            assert_eq!(replacement.data, vec![1, 2, 3]);
            assert_eq!(replacement.external_id.as_deref(), Some("replace_00000000-0000-0000-0000-000000000010"));
            let priced = with_blob_gas_price(replacement, Some(Ok(BlobGasPriceResult { blob_gas_price: 3 }))).unwrap();
            assert_eq!(priced.sent_with_blob_gas, Some(BlobGasPriceResult { blob_gas_price: 3 }));
        }
        _ => panic!(),
    }
    match plan_replace(&original, &request(Some("mine")), TransactionId(88), snapshot(Some(EditableTransactionType::Inmempool), original.clone())) {
        ReplacePlan::SendReplacement { replacement } => assert_eq!(replacement.external_id.as_deref(), Some("mine")),
        _ => panic!(),
    }
    let mut bad = request(None);
    bad.blobs = Some(Err("odd length".to_string()));
    match plan_replace(&original, &bad, TransactionId(88), snapshot(Some(EditableTransactionType::Inmempool), original.clone())) {
        ReplacePlan::Done(Err(ReplaceTransactionError::SendTransactionError(TransactionQueueSendTransactionError::TransactionConversionError(m)))) => {
            assert_eq!(m, "Failed to convert blob hex to TransactionBlob: odd length")
        }
        _ => panic!(),
    }
    assert!(matches!(
        with_blob_gas_price(queued(1), Some(Err("oracle".to_string()))),
        Err(ReplaceTransactionError::SendTransactionError(TransactionQueueSendTransactionError::SendTransactionGasPriceError(_)))
    ));
}

#[test]
fn replace_of_pending_transaction_changes_its_content() {
    let original = queued(3);
    match plan_replace(&original, &request(None), TransactionId(4), snapshot(Some(EditableTransactionType::Pending), original.clone())) {
        ReplacePlan::ReplacePending { replaced, result } => {
            assert_eq!(replaced.id, TransactionId(3));
            assert_eq!(replaced.to, address(0x33));
            assert_eq!(replaced.gas_limit, None);
            assert_eq!(replaced.external_id, None);
            assert_eq!(result, ReplaceTransactionResult {
                success: true,
                replace_transaction_id: Some(TransactionId(3)),
                replace_transaction_hash: Some(TransactionHash { bytes: [1; 32] }),
            });
        }
        _ => panic!(),
    }
    let mut s = snapshot(None, original.clone());
    s.queue_exists = false;
    assert!(matches!(plan_replace(&original, &request(None), TransactionId(4), s), ReplacePlan::Done(Err(ReplaceTransactionError::TransactionNotFound(TransactionId(3))))));
    match plan_replace(&original, &request(None), TransactionId(4), snapshot(None, original.clone())) {
        ReplacePlan::Done(Ok(r)) => assert!(!r.success),
        _ => panic!(),
    }
}

#[test]
fn replacing_with_a_send_to_self_makes_a_noop() {
    let mut tx = queued(3);
    let mut req = request(Some("x"));
    req.to = tx.from;
    req.blobs = Some(Ok(vec![vec![1u8; 4]]));
    transaction_replace(&mut tx, &req);
    assert!(tx.is_noop);
    assert_eq!(tx.blobs, Some(vec![vec![1u8; 4]]));
    assert_eq!(tx.external_id.as_deref(), Some("x"));
}

#[test]
fn competitor_send_outcomes() {
    let sent = TransactionSent { id: TransactionId(1), hash: TransactionHash { bytes: [2; 32] }, sent_with_gas: gas(1, 1), sent_with_blob_gas: None };
    assert!(matches!(competitor_after_send(Ok(sent)), CompetitorAfterSend::Sent { hash } if hash == TransactionHash { bytes: [2; 32] }));
    assert!(matches!(
        competitor_after_send(Err(TransactionQueueSendTransactionError::TransactionSendError("nonce has already been used".to_string()))),
        CompetitorAfterSend::RecoverNonce { .. }
    ));
    assert!(matches!(
        competitor_after_send(Err(TransactionQueueSendTransactionError::GasPriceTooHigh)),
        CompetitorAfterSend::Failed(TransactionQueueSendTransactionError::GasPriceTooHigh)
    ));
    let mut tx = queued(1);
    mark_transaction_sent(&mut tx, TransactionHash { bytes: [3; 32] }, NOW_MS);
    assert_eq!(tx.status, TransactionStatus::INMEMPOOL);
    assert_eq!(tx.sent_at, Some(NOW_MS));
    mark_competed_by(&mut tx, TransactionId(5));
    assert_eq!(tx.cancelled_by_transaction_id, Some(TransactionId(5)));
    assert!(matches!(finish_replace_nonce_recovery(Ok(()), "n".to_string()), Err(ReplaceTransactionError::NonceSynchronizationRecovered)));
    assert_eq!(
        finish_replace_inmempool(TransactionId(6), TransactionHash { bytes: [4; 32] }, Ok(()), Ok(()), Ok(()), Ok(())).unwrap(),
        ReplaceTransactionResult { success: true, replace_transaction_id: Some(TransactionId(6)), replace_transaction_hash: Some(TransactionHash { bytes: [4; 32] }) }
    );
    assert!(matches!(
        finish_replace_inmempool(TransactionId(6), TransactionHash { bytes: [4; 32] }, Ok(()), Err("db".to_string()), Ok(()), Ok(())),
        Err(ReplaceTransactionError::CouldNotUpdateTransactionInDb(_))
    ));
}

#[test]
fn competitions_are_rebuilt_from_links() {
    let mut original = queued(1);
    original.cancelled_by_transaction_id = Some(TransactionId(2));
    let mut cancel = queued(2);
    cancel.is_noop = true;
    let standalone = queued(3);
    let mut dangling = queued(4);
    dangling.cancelled_by_transaction_id = Some(TransactionId(99));
    let mut replacement_original = queued(5);
    replacement_original.cancelled_by_transaction_id = Some(TransactionId(6));
    let replacement = queued(6);
    let rebuilt = reconstruct_competitions(&vec![cancel, original, standalone, dangling, replacement, replacement_original]);
    assert_eq!(rebuilt.len(), 4);
    assert_eq!(rebuilt[0].original.id, TransactionId(1));
    let (c, kind) = rebuilt[0].competitive.as_ref().unwrap();
    assert_eq!(c.id, TransactionId(2));
    assert_eq!(*kind, CompetitionType::Cancel);
    assert_eq!(rebuilt[1].original.id, TransactionId(3));
    assert!(rebuilt[1].competitive.is_none());
    assert_eq!(rebuilt[2].original.id, TransactionId(4));
    assert!(rebuilt[2].competitive.is_none());
    assert_eq!(rebuilt[3].original.id, TransactionId(5));
    assert_eq!(rebuilt[3].competitive.as_ref().unwrap().1, CompetitionType::Replace);
    let mut empty_transfer = queued(7);
    empty_transfer.value = Uint256::zero();
    empty_transfer.data = Vec::new();
    assert_eq!(competition_type_for(&empty_transfer), CompetitionType::Cancel);
}

#[test]
fn replace_refused_while_paused_or_shutting_down() {
    let original = queued(3);
    let mut s = snapshot(Some(EditableTransactionType::Inmempool), original.clone());
    s.paused = true;
    assert!(matches!(
        plan_replace(&original, &request(None), TransactionId(4), s),
        ReplacePlan::Done(Err(ReplaceTransactionError::RelayerIsPaused(RelayerId(1))))
    ));
    let mut s = snapshot(Some(EditableTransactionType::Inmempool), original.clone());
    s.shutting_down = true;
    assert!(matches!(
        plan_replace(&original, &request(None), TransactionId(4), s),
        ReplacePlan::Done(Err(ReplaceTransactionError::RelayerIsPaused(_)))
    ));
    let mut s = snapshot(Some(EditableTransactionType::Pending), original.clone());
    s.shutting_down = true;
    assert!(matches!(plan_cancel(&original, TransactionId(4), s), CancelPlan::Done(Err(CancelTransactionError::RelayerIsPaused(_)))));
}

#[test]
fn pending_edits_need_no_room_for_a_bump() {
    let mut huge = queued(5);
    huge.gas_limit = Some(u128::MAX);
    huge.sent_with_gas = Some(gas(u128::MAX, u128::MAX));
    match plan_cancel(&huge, TransactionId(6), snapshot(Some(EditableTransactionType::Pending), huge.clone())) {
        CancelPlan::CancelPending { cancelled } => {
            assert_eq!(cancelled.status, TransactionStatus::CANCELLED);
            assert_eq!(cancelled.gas_limit, Some(u128::MAX));
        }
        _ => panic!("a pending transaction is cancelled in place"),
    }
}

#[test]
fn refused_replacements_do_not_look_at_the_blobs() {
    let original = queued(8);
    let mut bad = request(None);
    bad.blobs = Some(Err("not hex".to_string()));
    let mut s = snapshot(Some(EditableTransactionType::Pending), original.clone());
    s.paused = true;
    assert!(matches!(
        plan_replace(&original, &bad, TransactionId(9), s),
        ReplacePlan::Done(Err(ReplaceTransactionError::RelayerIsPaused(_)))
    ));
    let mut s = snapshot(Some(EditableTransactionType::Pending), original.clone());
    s.queue_exists = false;
    assert!(matches!(
        plan_replace(&original, &bad, TransactionId(9), s),
        ReplacePlan::Done(Err(ReplaceTransactionError::TransactionNotFound(_)))
    ));
    let mut s = snapshot(Some(EditableTransactionType::Pending), original.clone());
    s.shutting_down = true;
    assert!(matches!(
        plan_replace(&original, &bad, TransactionId(9), s),
        ReplacePlan::Done(Err(ReplaceTransactionError::RelayerIsPaused(_)))
    ));
}

#[test]
fn each_id_starts_at_most_one_competition() {
    let mut first = queued(1);
    first.cancelled_by_transaction_id = Some(TransactionId(2));
    let competitor = queued(2);
    let again = queued(1);
    let rebuilt = reconstruct_competitions(&vec![first, again, competitor, queued(3)]);
    assert_eq!(rebuilt.len(), 2);
    assert_eq!(rebuilt[0].original.id, TransactionId(1));
    assert_eq!(rebuilt[0].competitive.as_ref().unwrap().0.id, TransactionId(2));
    assert_eq!(rebuilt[1].original.id, TransactionId(3));
}
