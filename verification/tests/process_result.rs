use rrelayer_core::process_result::{
    compute_send_error_backoff_ms, ProcessInmempoolStatus, ProcessMinedStatus, ProcessPendingStatus,
    ProcessResult, MAX_NOOP_SEND_ATTEMPTS,
};

#[test]
fn test_exponential_backoff_calculation() {
    // Attempt 0: 1000 * 2^0 = 1000ms (1s)
    assert_eq!(compute_send_error_backoff_ms(0), 1_000);
    // Attempt 1: 1000 * 2^1 = 2000ms (2s)
    assert_eq!(compute_send_error_backoff_ms(1), 2_000);
    // Attempt 2: 1000 * 2^2 = 4000ms (4s)
    assert_eq!(compute_send_error_backoff_ms(2), 4_000);
    // Attempt 3: 1000 * 2^3 = 8000ms (8s)
    assert_eq!(compute_send_error_backoff_ms(3), 8_000);
    // Attempt 5: 1000 * 2^5 = 32000ms (32s)
    assert_eq!(compute_send_error_backoff_ms(5), 32_000);
    // Attempt 6: 1000 * 2^6 = 64000ms -> capped at 60000ms (60s)
    assert_eq!(compute_send_error_backoff_ms(6), 60_000);
    // Attempt 10: still capped at 60s
    assert_eq!(compute_send_error_backoff_ms(10), 60_000);
    // Very high attempt: no overflow, still capped
    assert_eq!(compute_send_error_backoff_ms(100), 60_000);
}

#[test]
fn test_noop_should_fail_after_max_attempts() {
    // A noop transaction at exactly MAX_NOOP_SEND_ATTEMPTS should be failed
    assert!(MAX_NOOP_SEND_ATTEMPTS >= MAX_NOOP_SEND_ATTEMPTS);
    // Below the limit, should not fail
    assert!(MAX_NOOP_SEND_ATTEMPTS - 1 < MAX_NOOP_SEND_ATTEMPTS);
}

#[test]
fn test_send_error_backoff_variant_exists() {
    let result =
        ProcessResult::<ProcessPendingStatus>::other(ProcessPendingStatus::SendErrorBackoff, Some(&5000));
    assert_eq!(result.status, ProcessPendingStatus::SendErrorBackoff);
    assert_eq!(result.process_again_after, 5000);
}

#[test]
fn test_process_result_default_delay() {
    let result = ProcessResult::<ProcessPendingStatus>::other(ProcessPendingStatus::SendErrorBackoff, None);
    // Default should be 10ms when no delay specified
    assert_eq!(result.process_again_after, 10);
}

#[test]
fn test_backoff_never_below_one_second() {
    for attempt in 0..100 {
        assert!(
            compute_send_error_backoff_ms(attempt) >= 1_000,
            "Backoff at attempt {} was {} which is below 1 second",
            attempt,
            compute_send_error_backoff_ms(attempt)
        );
    }
}

#[test]
fn test_backoff_progression_prevents_hot_loop() {
    // Even 20 attempts of backoff exceed the 3.5 minute window in which
    // 1,342 retries used to happen.
    let mut total_delay_ms: u64 = 0;
    let attempts_in_original_bug = 1_342u32;

    for attempt in 0..attempts_in_original_bug {
        let backoff = compute_send_error_backoff_ms(attempt + 1);
        total_delay_ms = total_delay_ms.saturating_add(backoff);

        if attempt == 20 {
            assert!(
                total_delay_ms > 210_000,
                "After 20 attempts, total delay should exceed 210s (original bug window), got {}ms",
                total_delay_ms
            );
            break;
        }
    }
}

#[test]
fn success_results_wait_ten_milliseconds() {
    let pending = ProcessResult::<ProcessPendingStatus>::success();
    assert_eq!(pending.status, ProcessPendingStatus::Success);
    assert_eq!(pending.process_again_after, 10);
    let inmempool = ProcessResult::<ProcessInmempoolStatus>::success();
    assert_eq!(inmempool.status, ProcessInmempoolStatus::Success);
    assert_eq!(inmempool.process_again_after, 10);
    let mined = ProcessResult::<ProcessMinedStatus>::success();
    assert_eq!(mined.status, ProcessMinedStatus::Success);
    assert_eq!(mined.process_again_after, 10);
}

#[test]
fn backoff_doubles_until_the_cap_and_never_shrinks() {
    for attempt in 0..5u32 {
        assert_eq!(compute_send_error_backoff_ms(attempt + 1), 2 * compute_send_error_backoff_ms(attempt));
    }
    for attempt in 0..200u32 {
        assert!(compute_send_error_backoff_ms(attempt) <= compute_send_error_backoff_ms(attempt + 1));
        assert!(compute_send_error_backoff_ms(attempt) <= 60_000);
    }
    assert_eq!(compute_send_error_backoff_ms(u32::MAX), 60_000);
}
