use netbridge::fault::{CauseChain, FaultKind};
use netbridge::scan::{
    filter_access_points, scan_request_outcome, AccessPoint, PollVerdict, ScanPoller,
    WIFI_SCAN_TIMEOUT_SECONDS,
};
use netbridge::web::usage;

fn ap(bytes: &[u8]) -> AccessPoint {
    AccessPoint { ssid: Some(bytes.to_vec()) }
}

#[test]
fn filter_drops_duplicates_empties_and_undecodable_labels() {
    let aps = vec![
        ap(b"net1"),
        ap(b"net1"),
        ap(b""),
        ap(&[0xff, 0xfe, 0xfd]),
        AccessPoint { ssid: None },
        ap(b"net2"),
        ap(b"net1"),
    ];
    let labels = filter_access_points(&aps);
    assert_eq!(labels, vec!["net1".to_string(), "net2".to_string()]);
}

#[test]
fn filter_keeps_first_seen_order() {
    let aps = vec![ap(b"zeta"), ap(b"alpha"), ap(b"zeta"), ap(b"mid"), ap(b"alpha")];
    let labels = filter_access_points(&aps);
    assert_eq!(
        labels,
        vec!["zeta".to_string(), "alpha".to_string(), "mid".to_string()]
    );
}

#[test]
fn filtering_a_clean_list_changes_nothing() {
    let aps = vec![ap(b"one"), ap(b"two"), ap(b"one"), ap(b"")];
    let once = filter_access_points(&aps);
    let rewrapped: Vec<AccessPoint> = once
        .iter()
        .map(|l| AccessPoint { ssid: Some(l.as_bytes().to_vec()) })
        .collect();
    let again = filter_access_points(&rewrapped);
    assert_eq!(again, once);
}

#[test]
fn filter_of_nothing_is_nothing() {
    let empty: Vec<AccessPoint> = Vec::new();
    let labels = filter_access_points(&empty);
    assert!(labels.is_empty());
}

#[test]
fn poller_completes_on_a_fresh_scan() {
    let mut poller = ScanPoller::new(10, WIFI_SCAN_TIMEOUT_SECONDS);
    assert!(matches!(poller.step(11), PollVerdict::ScanComplete));
}

#[test]
fn poller_waits_within_budget_then_gives_up() {
    let mut poller = ScanPoller::new(10, 3);
    // The subsystem keeps reporting the stale timestamp.
    assert!(matches!(poller.step(10), PollVerdict::WaitAndRetry));
    assert!(matches!(poller.step(9), PollVerdict::WaitAndRetry));
    assert!(matches!(poller.step(10), PollVerdict::WaitAndRetry));
    // Budget spent: proceed with whatever state is available, no error.
    assert!(matches!(poller.step(10), PollVerdict::BudgetExhausted));
    // A fresh scan is still recognised afterwards.
    assert!(matches!(poller.step(25), PollVerdict::ScanComplete));
}

#[test]
fn poll_budget_matches_the_fixed_timeout() {
    assert_eq!(WIFI_SCAN_TIMEOUT_SECONDS, 45);
}

#[test]
fn failed_scan_request_is_wrapped() {
    let cause = CauseChain::root(FaultKind::Call, "device busy".to_string());
    match scan_request_outcome(Err(cause)) {
        Err(c) => {
            assert_eq!(
                c.render(),
                vec![
                    "Failed to request WiFi scan".to_string(),
                    "device busy".to_string(),
                ]
            );
        }
        Ok(_) => panic!("a failed request must propagate"),
    }
}

#[test]
fn scan_request_success_passes_through() {
    assert!(scan_request_outcome(Ok(())).is_ok());
}

#[test]
fn usage_names_the_routes() {
    assert_eq!(
        usage(),
        "Use /check-connectivity, /list-connections or /list-wifi-networks\n"
    );
}
