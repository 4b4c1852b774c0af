use stripe_testbed::flow::{run_flow, wait_seconds_of};
use stripe_testbed::model::{is_terminal_status, ChargeRecord, SettlementRecord};
use stripe_testbed::poller::{run_poll, PollAction, Poller};
use stripe_testbed::settings::PaymentSettings;

fn charge(status: &str) -> ChargeRecord {
    ChargeRecord { id: "pi_1".to_string(), status: status.to_string(), settlement: None }
}

fn settled(status: &str, amount: Option<i64>) -> ChargeRecord {
    ChargeRecord {
        id: "pi_1".to_string(),
        status: status.to_string(),
        settlement: Some(SettlementRecord {
            amount,
            fee: Some(59),
            net: Some(941),
            currency: "chf".to_string(),
            status: "available".to_string(),
            fee_details: vec![],
        }),
    }
}

#[test]
fn terminal_statuses_are_exactly_the_three() {
    assert!(is_terminal_status("succeeded"));
    assert!(is_terminal_status("failed"));
    assert!(is_terminal_status("canceled"));
    assert!(!is_terminal_status("processing"));
    assert!(!is_terminal_status("requires_action"));
    assert!(!is_terminal_status("unknown"));
}

#[test]
fn poller_spends_at_most_the_budget() {
    let obs = vec![false; 7];
    let r = run_poll(&obs, 6);
    assert!(!r.reached);
    assert_eq!(r.stop_index, 6);
    assert_eq!(r.sleeps, 6);
}

#[test]
fn immediate_terminal_value_needs_no_sleep() {
    let obs = vec![true, false, false];
    let r = run_poll(&obs, 2);
    assert!(r.reached);
    assert_eq!(r.stop_index, 0);
    assert_eq!(r.sleeps, 0);
}

#[test]
fn poller_stops_at_the_first_satisfying_observation() {
    let obs = vec![false, false, true, true];
    let r = run_poll(&obs, 3);
    assert!(r.reached);
    assert_eq!(r.stop_index, 2);
    assert_eq!(r.sleeps, 2);
}

#[test]
fn poller_steps_report_one_indexed_attempts() {
    let mut p = Poller::new(2);
    assert_eq!(p.attempt_number(), 1);
    assert_eq!(p.on_observation(false), PollAction::Wait);
    assert_eq!(p.attempt_number(), 2);
    assert_eq!(p.on_observation(false), PollAction::Wait);
    assert_eq!(p.on_observation(false), PollAction::GiveUp);
    assert_eq!(p.on_observation(true), PollAction::Finish);
}

#[test]
fn fetch_failure_aborts_without_spending_budget() {
    let mut p = Poller::new(3);
    assert_eq!(p.on_fetch(Ok::<bool, String>(false)).unwrap(), PollAction::Wait);
    assert_eq!(p.used, 1);
    let aborted = p.on_fetch(Err::<bool, String>("connection reset".to_string()));
    assert_eq!(aborted.unwrap_err(), "connection reset");
    assert_eq!(p.used, 1);
    assert_eq!(p.on_fetch(Ok::<bool, String>(true)).unwrap(), PollAction::Finish);
    assert_eq!(p.used, 1);
}

#[test]
fn failed_charge_skips_settlement_wait() {
    let settings = PaymentSettings { check_interval: 5, max_attempts: 2 };
    let r = run_flow(
        charge("failed"),
        vec![charge("failed"), charge("failed")],
        vec![charge("failed"), charge("failed")],
        &settings,
    );
    assert_eq!(r.final_status, "failed");
    assert!(!r.ran_settlement_wait);
    assert_eq!(r.phase2_fetches, 0);
    assert_eq!(r.phase2_sleeps, 0);
    assert!(r.settlement.is_none());
}

#[test]
fn canceled_charge_skips_settlement_wait() {
    let settings = PaymentSettings { check_interval: 5, max_attempts: 2 };
    let r = run_flow(
        charge("processing"),
        vec![charge("canceled"), charge("canceled")],
        vec![charge("canceled"), charge("canceled")],
        &settings,
    );
    assert_eq!(r.final_status, "canceled");
    assert!(!r.ran_settlement_wait);
    assert_eq!(r.phase2_fetches, 0);
}

#[test]
fn exhaustion_without_terminal_skips_settlement_wait() {
    let settings = PaymentSettings { check_interval: 5, max_attempts: 2 };
    let r = run_flow(
        charge("processing"),
        vec![charge("processing"), charge("processing")],
        vec![charge("processing"), charge("processing")],
        &settings,
    );
    assert_eq!(r.final_status, "processing");
    assert_eq!(r.phase1_sleeps, 2);
    assert!(!r.ran_settlement_wait);
    assert_eq!(r.phase2_fetches, 0);
    assert!(r.settlement.is_none());
}

#[test]
fn third_poll_success_waits_two_intervals() {
    let settings = PaymentSettings { check_interval: 5, max_attempts: 6 };
    let mut refetched = vec![charge("processing"), charge("succeeded")];
    for _ in 0..4 {
        refetched.push(charge("processing"));
    }
    let expanded: Vec<ChargeRecord> = (0..6).map(|_| settled("succeeded", Some(1000))).collect();
    let r = run_flow(charge("processing"), refetched, expanded, &settings);
    assert_eq!(r.final_status, "succeeded");
    assert_eq!(r.phase1_sleeps, 2);
    assert_eq!(r.phase1_wait_seconds, 10);
    assert!(r.ran_settlement_wait);
    assert!(r.settlement_found);
    assert_eq!(r.phase2_fetches, 1);
    assert_eq!(r.phase2_sleeps, 0);
    let settlement = r.settlement.expect("found settlement");
    assert_eq!(settlement.amount, Some(1000));
}

#[test]
fn settlement_exhaustion_is_a_reported_outcome() {
    let settings = PaymentSettings { check_interval: 5, max_attempts: 3 };
    let r = run_flow(
        charge("succeeded"),
        vec![charge("succeeded"), charge("succeeded"), charge("succeeded")],
        vec![
            settled("succeeded", None),
            settled("succeeded", None),
            settled("succeeded", None),
        ],
        &settings,
    );
    assert_eq!(r.final_status, "succeeded");
    assert_eq!(r.phase1_sleeps, 0);
    assert!(r.ran_settlement_wait);
    assert!(!r.settlement_found);
    assert!(r.settlement.is_none());
    assert_eq!(r.phase2_fetches, 3);
    assert_eq!(r.phase2_sleeps, 2);
    assert_eq!(r.wait_seconds, 10);
}

#[test]
fn settlement_found_on_a_later_fetch() {
    let settings = PaymentSettings { check_interval: 2, max_attempts: 3 };
    let r = run_flow(
        charge("succeeded"),
        vec![charge("succeeded"), charge("succeeded"), charge("succeeded")],
        vec![
            settled("succeeded", None),
            settled("succeeded", Some(750)),
            settled("succeeded", None),
        ],
        &settings,
    );
    assert!(r.settlement_found);
    assert_eq!(r.phase2_fetches, 2);
    assert_eq!(r.phase2_sleeps, 1);
    assert_eq!(r.settlement.expect("found").amount, Some(750));
    assert_eq!(r.wait_seconds, 2);
}

#[test]
fn wait_time_saturates_instead_of_overflowing() {
    assert_eq!(wait_seconds_of(3, 5), 15);
    assert_eq!(wait_seconds_of(0, 5), 0);
    assert_eq!(wait_seconds_of(u64::MAX, 2), u64::MAX);
}
