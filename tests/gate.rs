use scmu_ubiquitous::gate::{Delivery, GateState, TaskGate};
use scmu_ubiquitous::model::WifiError;

#[test]
fn cycles_run_one_at_a_time() {
    let mut g = TaskGate::new();
    let t0 = g.begin().unwrap();
    assert_eq!(g.state(), GateState::Busy(t0));
    assert_eq!(g.begin(), Err(WifiError::BridgeSendFailed));
    assert_eq!(g.deliver(t0, Some(t0)), Ok(Delivery::Accepted));
    assert_eq!(g.state(), GateState::Idle);
    let t1 = g.begin().unwrap();
    assert_ne!(t0, t1);
    assert_eq!(g.deliver(t1, Some(t1)), Ok(Delivery::Accepted));
}

#[test]
fn result_for_another_ticket_is_refused() {
    let mut g = TaskGate::new();
    let t0 = g.begin().unwrap();
    assert_eq!(g.deliver(t0 + 1, Some(t0 + 1)), Err(WifiError::ResultTypeMismatch));
    assert_eq!(g.state(), GateState::Busy(t0));
    assert_eq!(g.deliver(t0, Some(t0 + 7)), Err(WifiError::ResultTypeMismatch));
    assert_eq!(g.state(), GateState::Closed);
}

#[test]
fn each_submitter_gets_its_own_ticket() {
    let mut g = TaskGate::new();
    let mut seen = Vec::new();
    for _ in 0..16 {
        let t = g.begin().unwrap();
        assert!(!seen.contains(&t));
        seen.push(t);
        assert_eq!(g.deliver(t, Some(t)), Ok(Delivery::Accepted));
    }
}

#[test]
fn closed_gate_fails_fast() {
    let mut g = TaskGate::new();
    let t = g.begin().unwrap();
    assert_eq!(g.deliver(t, None), Err(WifiError::BridgeReceiveFailed));
    assert_eq!(g.state(), GateState::Closed);
    assert_eq!(g.begin(), Err(WifiError::BridgeSendFailed));
}

#[test]
fn failed_handover_closes_gate() {
    let mut g = TaskGate::new();
    let t = g.begin().unwrap();
    assert_eq!(g.abort(t), WifiError::BridgeSendFailed);
    assert_eq!(g.state(), GateState::Closed);
    assert_eq!(g.begin(), Err(WifiError::BridgeSendFailed));
}

#[test]
fn abandoned_cycle_frees_the_gate() {
    let mut g = TaskGate::new();
    let t1 = g.begin().unwrap();
    g.abandon(t1);
    assert_eq!(g.state(), GateState::Idle);
    let t2 = g.begin().unwrap();
    assert!(t2 > t1);
    assert_eq!(g.deliver(t2, Some(t1)), Ok(Delivery::Discarded));
    assert_eq!(g.state(), GateState::Busy(t2));
    assert_eq!(g.deliver(t2, Some(t2)), Ok(Delivery::Accepted));
    assert_eq!(g.state(), GateState::Idle);
}

#[test]
fn abandon_of_another_ticket_changes_nothing() {
    let mut g = TaskGate::new();
    let t = g.begin().unwrap();
    g.abandon(t + 1);
    assert_eq!(g.state(), GateState::Busy(t));
}

#[test]
fn result_from_a_later_ticket_closes_gate() {
    let mut g = TaskGate::new();
    let t = g.begin().unwrap();
    assert_eq!(g.deliver(t, Some(t + 1)), Err(WifiError::ResultTypeMismatch));
    assert_eq!(g.state(), GateState::Closed);
}
