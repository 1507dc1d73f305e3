use getmacaddress::fetch::{fetch_transition, os_error_line, FetchState, CODE_BUFFER_TOO_SMALL, CODE_SUCCESS};

#[test]
fn probe_too_small_leads_to_retry_with_reported_size() {
    let next = fetch_transition(FetchState::SizeProbe, CODE_BUFFER_TOO_SMALL, 16384);
    assert_eq!(next, FetchState::Retry { size: 16384 });
}

#[test]
fn probe_success_means_empty_snapshot() {
    let next = fetch_transition(FetchState::SizeProbe, CODE_SUCCESS, 0);
    assert_eq!(next, FetchState::Success { size: 0 });
}

#[test]
fn probe_failure_carries_the_code() {
    let next = fetch_transition(FetchState::SizeProbe, 5, 0);
    assert_eq!(next, FetchState::Failure { code: 5 });
    assert_eq!(os_error_line(5), "GetAdaptersAddresses failed with error code: 5");
}

#[test]
fn retry_success_keeps_the_allocated_size() {
    let next = fetch_transition(FetchState::Retry { size: 16384 }, CODE_SUCCESS, 16384);
    assert_eq!(next, FetchState::Success { size: 16384 });
}

#[test]
fn retry_failure_carries_the_code() {
    let next = fetch_transition(FetchState::Retry { size: 16384 }, 232, 0);
    assert_eq!(next, FetchState::Failure { code: 232 });
}

#[test]
fn second_too_small_answer_is_a_failure_not_a_loop() {
    let next = fetch_transition(
        FetchState::Retry { size: 16384 },
        CODE_BUFFER_TOO_SMALL,
        32768,
    );
    assert_eq!(next, FetchState::Failure { code: CODE_BUFFER_TOO_SMALL });
}

#[test]
fn terminal_states_do_not_move() {
    let success = FetchState::Success { size: 9 };
    let failure = FetchState::Failure { code: 87 };
    assert_eq!(fetch_transition(success, 1, 2), success);
    assert_eq!(fetch_transition(failure, 0, 2), failure);
}
