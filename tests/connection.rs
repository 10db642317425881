use scmu_ubiquitous::connect::{ConnectAction, ConnectEvent, ConnectPhase, ConnectSession};
use scmu_ubiquitous::manager::{
    build_credentials, connection_outcome, find_access_point, find_connection_by_ssid,
    find_wifi_device, is_fully_connected, resolve_connect_request,
};
use scmu_ubiquitous::model::{
    AccessPoint, ConnectionState, Connectivity, Credentials, DeviceKind, SecurityClass, WifiError,
    FLAG_ENTERPRISE, FLAG_WEP, FLAG_WPA, FLAG_WPA2,
};
use scmu_ubiquitous::wait::{ConnectionWaiter, WaitDecision, WaitPolicy};

fn ap(ssid: &str, flags: u32, strength: u32) -> AccessPoint {
    AccessPoint { ssid: ssid.to_string(), security_flags: flags, strength }
}

fn run(session: &mut ConnectSession, events: &[ConnectEvent]) -> Vec<ConnectAction> {
    events.iter().map(|e| session.step(*e)).collect()
}

#[test]
fn security_class_from_flags() {
    assert_eq!(SecurityClass::from_flags(0), Some(SecurityClass::Open));
    assert_eq!(SecurityClass::from_flags(FLAG_WEP), Some(SecurityClass::SharedKey));
    assert_eq!(SecurityClass::from_flags(FLAG_WPA), Some(SecurityClass::ProtectedAccess));
    assert_eq!(SecurityClass::from_flags(FLAG_WPA2), Some(SecurityClass::ProtectedAccess));
    assert_eq!(SecurityClass::from_flags(FLAG_ENTERPRISE), Some(SecurityClass::Enterprise));
    assert_eq!(SecurityClass::from_flags(FLAG_WPA | FLAG_WPA2), Some(SecurityClass::ProtectedAccess));
    assert_eq!(
        SecurityClass::from_flags(FLAG_WPA2 | FLAG_ENTERPRISE),
        Some(SecurityClass::Enterprise)
    );
    assert_eq!(SecurityClass::from_flags(FLAG_WEP | 16), None);
    assert_eq!(SecurityClass::from_flags(16), None);
}

#[test]
fn wifi_device_is_first_wireless_one() {
    let kinds = vec![DeviceKind::Ethernet, DeviceKind::WiFi, DeviceKind::WiFi];
    assert_eq!(find_wifi_device(&kinds), Ok(1));
}

#[test]
fn no_wifi_device_is_resource_unavailable() {
    assert_eq!(find_wifi_device(&vec![]), Err(WifiError::ResourceUnavailable));
    let kinds = vec![DeviceKind::Ethernet, DeviceKind::Bridge, DeviceKind::Modem];
    assert_eq!(find_wifi_device(&kinds), Err(WifiError::ResourceUnavailable));
}

#[test]
fn stale_profile_lookup_takes_first_match() {
    let profiles = vec!["Office".to_string(), "Home".to_string(), "Home".to_string()];
    assert_eq!(find_connection_by_ssid(&profiles, &"Home".to_string()), Some(1));
    assert_eq!(find_connection_by_ssid(&profiles, &"Cafe".to_string()), None);
    assert_eq!(find_connection_by_ssid(&vec![], &"Home".to_string()), None);
}

#[test]
fn access_point_lookup_is_exact() {
    let aps = vec![ap("Home2", FLAG_WPA2, 40), ap("Home", FLAG_WPA2, 80)];
    assert_eq!(find_access_point(&aps, &"Home".to_string()), Some(1));
    assert_eq!(find_access_point(&aps, &"home".to_string()), None);
}

#[test]
fn credentials_per_class() {
    let c = build_credentials(SecurityClass::Open, None, None).unwrap();
    assert!(matches!(c, Credentials::Open));
    let c = build_credentials(SecurityClass::SharedKey, Some("k".to_string()), None).unwrap();
    assert!(matches!(c, Credentials::SharedKey { ref passphrase } if passphrase == "k"));
    let c = build_credentials(SecurityClass::Enterprise, Some("p".to_string()), Some("me".to_string()))
        .unwrap();
    assert!(matches!(c, Credentials::Enterprise { ref identity, ref passphrase }
        if identity == "me" && passphrase == "p"));
}

#[test]
fn missing_fields_are_credentials_missing() {
    assert!(matches!(
        build_credentials(SecurityClass::SharedKey, None, None),
        Err(WifiError::CredentialsMissing)
    ));
    assert!(matches!(
        build_credentials(SecurityClass::Enterprise, Some("p".to_string()), None),
        Err(WifiError::CredentialsMissing)
    ));
    assert!(matches!(
        build_credentials(SecurityClass::Enterprise, None, Some("me".to_string())),
        Err(WifiError::CredentialsMissing)
    ));
}

#[test]
fn open_network_connects_without_passphrase() {
    let aps = vec![ap("Lobby", 0, 55)];
    let r = resolve_connect_request(&aps, &"Lobby".to_string(), None, None);
    assert!(matches!(r, Ok((0, Credentials::Open))));
}

#[test]
fn protected_network_without_passphrase_fails_before_any_request() {
    let aps = vec![ap("Home", FLAG_WPA2, 80)];
    let r = resolve_connect_request(&aps, &"Home".to_string(), None, None);
    assert!(matches!(r, Err(WifiError::CredentialsMissing)));
}

#[test]
fn unknown_network_and_unsupported_security() {
    let aps = vec![ap("Home", 16, 80)];
    let r = resolve_connect_request(&aps, &"Elsewhere".to_string(), None, None);
    assert!(matches!(r, Err(WifiError::AccessPointNotFound)));
    let r = resolve_connect_request(&aps, &"Home".to_string(), Some("x".to_string()), None);
    assert!(matches!(r, Err(WifiError::UnsupportedSecurity)));
}

#[test]
fn outcome_of_connection_states() {
    assert_eq!(connection_outcome(ConnectionState::Activated), Ok(()));
    assert_eq!(connection_outcome(ConnectionState::Activating), Ok(()));
    assert_eq!(connection_outcome(ConnectionState::Unknown), Err(WifiError::ConnectFailed));
    assert_eq!(connection_outcome(ConnectionState::Deactivated), Err(WifiError::ConnectFailed));
    assert_eq!(connection_outcome(ConnectionState::Deactivating), Err(WifiError::ConnectFailed));
}

#[test]
fn only_full_connectivity_counts() {
    assert!(is_fully_connected(Connectivity::Full));
    assert!(!is_fully_connected(Connectivity::Limited));
    assert!(!is_fully_connected(Connectivity::Portal));
    assert!(!is_fully_connected(Connectivity::Disconnected));
    assert!(!is_fully_connected(Connectivity::Unknown));
}

#[test]
fn deactivated_join_deletes_new_profile_and_fails() {
    let mut s = ConnectSession::new("Home".to_string(), Credentials::Open);
    let actions = run(
        &mut s,
        &[
            ConnectEvent::Begin,
            ConnectEvent::ProfileDeleted,
            ConnectEvent::DeviceLocated(true),
            ConnectEvent::ConnectReported(Ok(ConnectionState::Deactivated)),
            ConnectEvent::ProfileDeleted,
        ],
    );
    assert_eq!(
        actions,
        vec![
            ConnectAction::DeleteProfile,
            ConnectAction::LocateDevice,
            ConnectAction::Connect,
            ConnectAction::DeleteProfile,
            ConnectAction::Finish(Err(WifiError::ConnectFailed)),
        ]
    );
    assert!(s.is_finished());
}

#[test]
fn missing_device_ends_attempt() {
    let mut s = ConnectSession::new("Home".to_string(), Credentials::Open);
    let actions = run(
        &mut s,
        &[ConnectEvent::Begin, ConnectEvent::ProfileDeleted, ConnectEvent::DeviceLocated(false)],
    );
    assert_eq!(actions[2], ConnectAction::Finish(Err(WifiError::ResourceUnavailable)));
    assert_eq!(s.phase, ConnectPhase::Finished(Err(WifiError::ResourceUnavailable)));
}

#[test]
fn refused_join_cleans_up_and_reports_service_error() {
    let mut s = ConnectSession::new("Home".to_string(), Credentials::Open);
    let actions = run(
        &mut s,
        &[
            ConnectEvent::Begin,
            ConnectEvent::ProfileDeleted,
            ConnectEvent::DeviceLocated(true),
            ConnectEvent::ConnectReported(Err(WifiError::ServiceFailed)),
            ConnectEvent::ProfileDeleted,
        ],
    );
    assert_eq!(actions[3], ConnectAction::DeleteProfile);
    assert_eq!(actions[4], ConnectAction::Finish(Err(WifiError::ServiceFailed)));
}

#[test]
fn unexpected_event_is_a_mismatch() {
    let mut s = ConnectSession::new("Home".to_string(), Credentials::Open);
    assert_eq!(
        s.step(ConnectEvent::DeviceLocated(true)),
        ConnectAction::Finish(Err(WifiError::ResultTypeMismatch))
    );
    assert_eq!(
        s.step(ConnectEvent::Begin),
        ConnectAction::Finish(Err(WifiError::ResultTypeMismatch))
    );
}

#[test]
fn end_to_end_home_network() {
    let aps = vec![ap("Home", FLAG_WPA2, 80)];
    let (index, credentials) =
        resolve_connect_request(&aps, &"Home".to_string(), Some("secret1".to_string()), None)
            .unwrap();
    assert_eq!(index, 0);
    assert!(matches!(credentials, Credentials::ProtectedAccess { ref passphrase } if passphrase == "secret1"));
    let mut s = ConnectSession::new(aps[index].ssid.clone(), credentials);
    let actions = run(
        &mut s,
        &[
            ConnectEvent::Begin,
            ConnectEvent::ProfileDeleted,
            ConnectEvent::DeviceLocated(true),
            ConnectEvent::ConnectReported(Ok(ConnectionState::Activated)),
        ],
    );
    assert_eq!(
        actions,
        vec![
            ConnectAction::DeleteProfile,
            ConnectAction::LocateDevice,
            ConnectAction::Connect,
            ConnectAction::Finish(Ok(())),
        ]
    );
    assert_eq!(s.ssid, "Home");
}

#[test]
fn wait_does_not_end_before_connectivity() {
    let mut w = ConnectionWaiter::new(WaitPolicy::unbounded(200));
    let k = 4;
    for _ in 0..k - 1 {
        assert_eq!(w.observe(Ok(false)), WaitDecision::PollAgain(200));
    }
    assert_eq!(w.observe(Ok(true)), WaitDecision::Connected);
    assert_eq!(w.polls, 4);
}

#[test]
fn failed_check_counts_as_not_connected() {
    let mut w = ConnectionWaiter::new(WaitPolicy::unbounded(50));
    assert_eq!(w.observe(Err(WifiError::ServiceFailed)), WaitDecision::PollAgain(50));
}

#[test]
fn bounded_wait_gives_up() {
    let mut w = ConnectionWaiter::new(WaitPolicy { interval_ms: 10, max_polls: Some(2) });
    assert_eq!(w.observe(Ok(false)), WaitDecision::PollAgain(10));
    assert_eq!(w.observe(Ok(false)), WaitDecision::GaveUp);
}

#[test]
fn error_messages() {
    assert_eq!(WifiError::ResourceUnavailable.message(), "No wifi device has been found");
    assert_eq!(WifiError::ConnectFailed.message(), "Failed to establish connection");
    assert_eq!(WifiError::BridgeSendFailed.message(), "Error executing operation");
    assert_eq!(WifiError::BridgeReceiveFailed.message(), "Error receiving response");
    assert!(WifiError::ResultTypeMismatch.is_bridge_error());
    assert!(!WifiError::ScanFailed.is_bridge_error());
}

#[test]
fn mixed_wpa_network_takes_passphrase() {
    let aps = vec![ap("Home", FLAG_WPA | FLAG_WPA2, 80)];
    let r = resolve_connect_request(&aps, &"Home".to_string(), Some("p".to_string()), None);
    assert!(matches!(r, Ok((0, Credentials::ProtectedAccess { ref passphrase })) if passphrase == "p"));
}

#[test]
fn enterprise_network_needs_identity() {
    let aps = vec![ap("Corp", FLAG_WPA2 | FLAG_ENTERPRISE, 60)];
    let r = resolve_connect_request(&aps, &"Corp".to_string(), Some("p".to_string()), None);
    assert!(matches!(r, Err(WifiError::CredentialsMissing)));
    let r = resolve_connect_request(
        &aps,
        &"Corp".to_string(),
        Some("p".to_string()),
        Some("me".to_string()),
    );
    assert!(matches!(r, Ok((0, Credentials::Enterprise { .. }))));
}
