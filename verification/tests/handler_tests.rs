use netbridge::command::{handler_for, HandlerKind, NetworkCommand, NetworkResponse};
use netbridge::fault::{CauseChain, FaultKind};
use netbridge::handlers::{
    client_outcome, connections_outcome, connectivity_outcome, find_any_wifi_device,
    wifi_networks_outcome, DeviceInfo, RawConnection, RawConnectionSettings,
};
use netbridge::web::{resolve_submission, AppResponse};

fn raw(id: Option<&str>, uuid: Option<&str>) -> RawConnection {
    RawConnection {
        settings: Some(RawConnectionSettings {
            id: id.map(|s| s.to_string()),
            uuid: uuid.map(|s| s.to_string()),
        }),
    }
}

#[test]
fn daemon_unreachable_reports_terminal_cause() {
    // The daemon answers as not running: the chain bottoms out in exactly
    // that condition.
    let outcome = client_outcome(Ok(()), false);
    let cause = match outcome {
        Err(c) => c,
        Ok(_) => panic!("an unreachable daemon must fail the client"),
    };
    assert!(matches!(cause.kind(), FaultKind::Transport));
    assert_eq!(cause.root_cause(), "NetworkManager daemon is not running");

    // Submitted as a check-connectivity request, the surface reports a
    // server error with a non-empty ordered cause list, terminal cause last.
    let resolved = resolve_submission(Some(Err(cause)), &NetworkCommand::CheckConnectivity);
    assert_eq!(resolved.status_code(), 500);
    match resolved {
        AppResponse::Error(chain) => {
            let errors = chain.render();
            assert!(!errors.is_empty());
            assert_eq!(
                errors,
                vec![
                    "Failed to check connectivity".to_string(),
                    "NetworkManager daemon is not running".to_string(),
                ]
            );
        }
        _ => panic!("the failure must surface as an error"),
    }
}

#[test]
fn failed_client_creation_is_wrapped() {
    let creation = CauseChain::root(FaultKind::Transport, "could not connect to bus".to_string());
    match client_outcome(Err(creation), true) {
        Err(c) => {
            assert_eq!(c.root_cause(), "could not connect to bus");
            assert_eq!(
                c.render(),
                vec![
                    "Failed to create NetworkManager client".to_string(),
                    "could not connect to bus".to_string(),
                ]
            );
        }
        Ok(_) => panic!("a failed creation must propagate"),
    }
}

#[test]
fn running_daemon_yields_a_client() {
    assert!(client_outcome(Ok(()), true).is_ok());
}

#[test]
fn zero_connections_is_success_not_error() {
    match connections_outcome(Vec::new()) {
        Ok(NetworkResponse::ListConnections(list)) => {
            assert!(list.connections.is_empty());
        }
        _ => panic!("an empty subsystem must list an empty sequence"),
    }
}

#[test]
fn connections_keep_order_and_drop_incomplete_entries() {
    let entries = vec![
        raw(Some("office"), Some("uuid-1")),
        RawConnection { settings: None },
        raw(None, Some("uuid-2")),
        raw(Some("home"), None),
        raw(Some("cafe"), Some("uuid-3")),
    ];
    match connections_outcome(entries) {
        Ok(NetworkResponse::ListConnections(list)) => {
            let pairs: Vec<(String, String)> = list
                .connections
                .into_iter()
                .map(|c| (c.id, c.uuid))
                .collect();
            assert_eq!(
                pairs,
                vec![
                    ("office".to_string(), "uuid-1".to_string()),
                    ("cafe".to_string(), "uuid-3".to_string()),
                ]
            );
        }
        _ => panic!("listing must succeed"),
    }
}

#[test]
fn connectivity_success_carries_the_state() {
    match connectivity_outcome(Ok("limited".to_string())) {
        Ok(NetworkResponse::CheckConnectivity(c)) => {
            assert_eq!(c.connectivity, "limited");
        }
        _ => panic!("a reported state must become the typed response"),
    }
}

#[test]
fn connectivity_failure_names_the_operation() {
    let cause = CauseChain::root(FaultKind::Call, "timeout on reply".to_string());
    match connectivity_outcome(Err(cause)) {
        Err(c) => {
            assert_eq!(
                c.render(),
                vec![
                    "Failed to execute check connectivity".to_string(),
                    "timeout on reply".to_string(),
                ]
            );
        }
        Ok(_) => panic!("a failed call must propagate"),
    }
}

#[test]
fn first_managed_wifi_device_is_picked() {
    let devices = vec![
        DeviceInfo { is_wifi: false, unmanaged: false },
        DeviceInfo { is_wifi: true, unmanaged: true },
        DeviceInfo { is_wifi: true, unmanaged: false },
        DeviceInfo { is_wifi: true, unmanaged: false },
    ];
    match find_any_wifi_device(&devices) {
        Ok(index) => assert_eq!(index, 2),
        Err(_) => panic!("a managed wireless device is present"),
    }
}

#[test]
fn no_managed_wifi_device_is_an_error() {
    let devices = vec![
        DeviceInfo { is_wifi: false, unmanaged: false },
        DeviceInfo { is_wifi: true, unmanaged: true },
    ];
    match find_any_wifi_device(&devices) {
        Err(c) => {
            assert_eq!(c.root_cause(), "Failed to find a managed WiFi device");
            assert!(matches!(c.kind(), FaultKind::Call));
        }
        Ok(_) => panic!("no device must mean an error"),
    }
}

#[test]
fn wifi_listing_wraps_the_labels() {
    let ssids = vec!["alpha".to_string(), "beta".to_string()];
    match wifi_networks_outcome(ssids) {
        Ok(NetworkResponse::ListWiFiNetworks(labels)) => {
            assert_eq!(labels, vec!["alpha".to_string(), "beta".to_string()]);
        }
        _ => panic!("the listing must succeed"),
    }
}

#[test]
fn dispatch_table_is_one_to_one() {
    assert!(matches!(
        handler_for(&NetworkCommand::CheckConnectivity),
        HandlerKind::CheckConnectivity
    ));
    assert!(matches!(
        handler_for(&NetworkCommand::ListConnections),
        HandlerKind::ListConnections
    ));
    assert!(matches!(
        handler_for(&NetworkCommand::ListWiFiNetworks),
        HandlerKind::ListWiFiNetworks
    ));
}
