use event_relay::address::EvmAddress;
use event_relay::amount::Uint256;
use event_relay::event::{DecodedEvent, LogRecord, PolledLog};
use event_relay::session::{
    PollReport, SessionError, SessionState, WatchPlan, POLL_INTERVAL_SECS, POLL_LIMIT,
    WATCHED_CONTRACT,
};
use event_relay::transfer::{TransferError, TransferOrder};
use ic_cdk_timers::TimerId;

const ALICE: &str = "0x00000000000000000000000000000000000a11ce";
const BOB: &str = "0x0000000000000000000000000000000000000b0b";

fn timer() -> TimerId {
    TimerId::default()
}

fn event(proposal: u64, address: &str, amount: u64) -> DecodedEvent {
    DecodedEvent {
        proposal_id: Uint256::from_u64(proposal),
        target_address: address.to_string(),
        amount: Uint256::from_u64(amount),
    }
}

fn decoded(proposal: u64, address: &str, amount: u64) -> PolledLog {
    PolledLog::Decoded(event(proposal, address, amount))
}

fn malformed(reason: &str) -> PolledLog {
    PolledLog::Malformed(reason.to_string())
}

fn order(address: &str, amount: u64) -> TransferOrder {
    TransferOrder {
        to: EvmAddress::parse(address).expect("an address"),
        amount: Uint256::from_u64(amount),
    }
}

fn watching() -> SessionState {
    let mut session = SessionState::default();
    session.start(timer()).expect("a start");
    session
}

#[test]
fn default_session_is_idle_and_empty() {
    let session = SessionState::default();
    assert!(!session.is_polling());
    assert_eq!(session.poll_count(), 0);
    assert_eq!(session.collected_logs(), Vec::<String>::new());
    assert!(session.records().is_empty());
}

#[test]
fn limits_are_three_polls_ten_seconds_apart() {
    assert_eq!(POLL_LIMIT, 3);
    assert_eq!(POLL_INTERVAL_SECS, 10);
}

#[test]
fn start_succeeds_from_idle_and_names_the_limit() {
    let mut session = SessionState::default();
    assert_eq!(session.start(timer()), Ok("Watching for logs, polling 3 times.".to_string()));
    assert!(session.is_polling());
    assert_eq!(session.poll_count(), 0);
}

#[test]
fn second_start_is_refused_and_changes_nothing() {
    let mut session = watching();
    session.on_poll(&vec![decoded(1, ALICE, 5), malformed("bad topic")]);
    let logs = session.collected_logs();
    assert_eq!(session.start(timer()), Err(SessionError::AlreadyWatching));
    assert!(session.is_polling());
    assert_eq!(session.poll_count(), 1);
    assert_eq!(session.collected_logs(), logs);
    assert_eq!(logs.len(), 2);
}

#[test]
fn start_clears_records_and_count_of_the_last_campaign() {
    let mut session = watching();
    session.on_poll(&vec![decoded(1, ALICE, 5)]);
    session.on_poll(&vec![]);
    session.stop().expect("a stop");
    assert_eq!(session.poll_count(), 2);
    assert_eq!(session.collected_logs().len(), 1);
    session.start(timer()).expect("a start");
    assert_eq!(session.poll_count(), 0);
    assert!(session.collected_logs().is_empty());
    assert!(session.is_polling());
}

#[test]
fn stop_succeeds_only_while_watching() {
    let mut session = SessionState::default();
    assert_eq!(session.stop(), Err(SessionError::NotWatching));
    session.start(timer()).expect("a start");
    assert_eq!(session.stop(), Ok("Watching for logs stopped.".to_string()));
    assert!(!session.is_polling());
    assert_eq!(session.stop(), Err(SessionError::NotWatching));
}

#[test]
fn stop_keeps_records_and_count() {
    let mut session = watching();
    session.on_poll(&vec![decoded(1, ALICE, 5), decoded(2, BOB, 6)]);
    let logs = session.collected_logs();
    session.stop().expect("a stop");
    assert_eq!(session.poll_count(), 1);
    assert_eq!(session.collected_logs(), logs);
}

#[test]
fn errors_in_words() {
    assert_eq!(SessionError::AlreadyWatching.message(), "Already watching for logs.");
    assert_eq!(SessionError::NotWatching.message(), "No timer to clear.");
}

#[test]
fn watch_plan_names_contract_interval_and_limit() {
    let session = SessionState::default();
    assert_eq!(
        session.watch_plan(),
        Ok(WatchPlan {
            contract: EvmAddress { bytes: WATCHED_CONTRACT },
            poll_interval_secs: 10,
            poll_limit: 3,
        })
    );
    assert_eq!(
        EvmAddress::parse("A6E782af1b182329282CC67f1ce0f4680030E12F"),
        Some(EvmAddress { bytes: WATCHED_CONTRACT })
    );
}

#[test]
fn watch_plan_is_refused_while_watching() {
    let session = watching();
    assert_eq!(session.watch_plan(), Err(SessionError::AlreadyWatching));
    assert!(session.is_polling());
}

#[test]
fn campaign_ends_by_itself_at_the_third_poll() {
    let mut session = watching();
    assert_eq!(session.poll_count(), 0);
    assert!(!session.on_poll(&vec![]).finished);
    assert_eq!(session.poll_count(), 1);
    assert!(session.is_polling());
    assert!(!session.on_poll(&vec![decoded(1, ALICE, 5)]).finished);
    assert_eq!(session.poll_count(), 2);
    assert!(session.is_polling());
    assert!(session.on_poll(&vec![]).finished);
    assert_eq!(session.poll_count(), 3);
    assert!(!session.is_polling());
    assert_eq!(session.stop(), Err(SessionError::NotWatching));
}

#[test]
fn session_can_start_again_after_it_ended() {
    let mut session = watching();
    for _ in 0..3 {
        session.on_poll(&vec![]);
    }
    assert!(!session.is_polling());
    assert!(session.start(timer()).is_ok());
    assert_eq!(session.poll_count(), 0);
}

#[test]
fn poll_without_a_campaign_is_ignored() {
    let mut session = SessionState::default();
    let report = session.on_poll(&vec![decoded(1, ALICE, 5), malformed("x")]);
    assert_eq!(
        report,
        PollReport { accepted: false, orders: vec![], rejected: 0, finished: false }
    );
    assert_eq!(session.poll_count(), 0);
    assert!(session.collected_logs().is_empty());
}

#[test]
fn poll_after_the_end_is_ignored() {
    let mut session = watching();
    for _ in 0..3 {
        session.on_poll(&vec![decoded(1, ALICE, 5)]);
    }
    let report = session.on_poll(&vec![decoded(2, BOB, 6)]);
    assert!(!report.accepted);
    assert!(report.orders.is_empty());
    assert_eq!(session.poll_count(), 3);
    assert_eq!(session.collected_logs().len(), 3);
}

#[test]
fn empty_batch_is_counted() {
    let mut session = watching();
    let report = session.on_poll(&vec![]);
    assert_eq!(report, PollReport { accepted: true, orders: vec![], rejected: 0, finished: false });
    assert_eq!(session.poll_count(), 1);
}

#[test]
fn events_are_ordered_in_batch_order() {
    let mut session = watching();
    let report = session.on_poll(&vec![decoded(1, ALICE, 5), decoded(2, BOB, 6), decoded(3, ALICE, 7)]);
    assert_eq!(report.orders, vec![order(ALICE, 5), order(BOB, 6), order(ALICE, 7)]);
    assert_eq!(report.rejected, 0);
    assert_eq!(
        session.records(),
        &vec![
            LogRecord::TransferOrdered { event: event(1, ALICE, 5) },
            LogRecord::TransferOrdered { event: event(2, BOB, 6) },
            LogRecord::TransferOrdered { event: event(3, ALICE, 7) },
        ]
    );
}

#[test]
fn malformed_log_is_recorded_and_the_batch_goes_on() {
    let mut session = watching();
    let report =
        session.on_poll(&vec![decoded(1, ALICE, 5), malformed("topic mismatch"), decoded(2, BOB, 6)]);
    assert!(report.accepted);
    assert_eq!(report.orders, vec![order(ALICE, 5), order(BOB, 6)]);
    assert_eq!(report.rejected, 1);
    assert_eq!(session.poll_count(), 1);
    assert!(session.is_polling());
    let records = session.records();
    assert_eq!(records[1], LogRecord::DecodeFailure { reason: "topic mismatch".to_string() });
    assert!(records[1].is_failure());
    assert!(!records[0].is_failure());
    assert_eq!(
        session.collected_logs(),
        vec![
            format!("transfer ordered to {ALICE}"),
            "decode failure: topic mismatch".to_string(),
            format!("transfer ordered to {BOB}"),
        ]
    );
}

#[test]
fn batch_of_malformed_logs_orders_nothing_and_is_counted() {
    let mut session = watching();
    let report = session.on_poll(&vec![malformed("a"), malformed("b")]);
    assert_eq!(report, PollReport { accepted: true, orders: vec![], rejected: 2, finished: false });
    assert_eq!(session.poll_count(), 1);
    assert_eq!(session.collected_logs(), vec!["decode failure: a", "decode failure: b"]);
}

#[test]
fn event_with_invalid_address_is_recorded_not_ordered() {
    let mut session = watching();
    let report = session.on_poll(&vec![decoded(4, "bc1qxy2kgdygjrsqtzq2n0yrf2493p83kkfjhx0wlh", 9)]);
    assert!(report.orders.is_empty());
    assert_eq!(report.rejected, 1);
    let records = session.records();
    assert_eq!(
        records[0],
        LogRecord::InvalidAddress { event: event(4, "bc1qxy2kgdygjrsqtzq2n0yrf2493p83kkfjhx0wlh", 9) }
    );
    assert!(records[0].is_failure());
    assert_eq!(
        session.collected_logs(),
        vec!["invalid target address: bc1qxy2kgdygjrsqtzq2n0yrf2493p83kkfjhx0wlh"]
    );
}

#[test]
fn records_accumulate_over_polls() {
    let mut session = watching();
    session.on_poll(&vec![decoded(1, ALICE, 5)]);
    session.on_poll(&vec![malformed("m")]);
    session.on_poll(&vec![decoded(2, BOB, 6)]);
    assert_eq!(
        session.collected_logs(),
        vec![
            format!("transfer ordered to {ALICE}"),
            "decode failure: m".to_string(),
            format!("transfer ordered to {BOB}"),
        ]
    );
}

#[test]
fn transfer_outcomes_are_recorded() {
    let mut session = watching();
    session.record_transfer(&Ok("Transaction { nonce: 4 }".to_string()));
    session.record_transfer(&Err(TransferError::Unconfirmed));
    session.record_transfer(&Err(TransferError::SubmissionFailed("nonce too low".to_string())));
    assert_eq!(
        session.records(),
        &vec![
            LogRecord::TransferConfirmed { description: "Transaction { nonce: 4 }".to_string() },
            LogRecord::TransferFailed { error: TransferError::Unconfirmed },
            LogRecord::TransferFailed {
                error: TransferError::SubmissionFailed("nonce too low".to_string())
            },
        ]
    );
    assert_eq!(
        session.collected_logs(),
        vec![
            "transfer confirmed: Transaction { nonce: 4 }",
            "transfer failed: Could not get transaction.",
            "transfer failed: nonce too low",
        ]
    );
    assert_eq!(session.poll_count(), 0);
    assert!(session.is_polling());
}

#[test]
fn transfer_outcome_is_recorded_after_the_campaign_too() {
    let mut session = watching();
    session.stop().expect("a stop");
    session.record_transfer(&Err(TransferError::Unconfirmed));
    assert_eq!(session.collected_logs(), vec!["transfer failed: Could not get transaction."]);
    assert!(!session.is_polling());
}

#[test]
fn records_tell_success_from_failure() {
    assert!(!LogRecord::TransferOrdered { event: event(1, ALICE, 1) }.is_failure());
    assert!(!LogRecord::TransferConfirmed { description: String::new() }.is_failure());
    assert!(LogRecord::InvalidAddress { event: event(1, "x", 1) }.is_failure());
    assert!(LogRecord::DecodeFailure { reason: String::new() }.is_failure());
    assert!(LogRecord::TransferFailed { error: TransferError::Unconfirmed }.is_failure());
}

#[test]
fn examine_gives_record_and_order() {
    let (record, ordered) = decoded(1, ALICE, 5).examine();
    assert_eq!(record, LogRecord::TransferOrdered { event: event(1, ALICE, 5) });
    assert_eq!(ordered, Some(order(ALICE, 5)));
    let (record, ordered) = malformed("why").examine();
    assert_eq!(record, LogRecord::DecodeFailure { reason: "why".to_string() });
    assert_eq!(ordered, None);
}
