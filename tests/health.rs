use sqsproxyd::health::{GateAction, GateState, HealthGate};

#[test]
fn test_healthcheck() {
    let mut gate = HealthGate::new(1);
    let results = [false, false, false, true];
    let mut actions = Vec::new();
    for ok in results {
        actions.push(gate.on_checked(ok));
    }
    assert_eq!(
        actions,
        vec![
            GateAction::Sleep { seconds: 1 },
            GateAction::Sleep { seconds: 1 },
            GateAction::Sleep { seconds: 1 },
            GateAction::Open,
        ]
    );
    assert_eq!(gate.state(), GateState::Open);
}

#[test]
fn health_gate_recovers_after_three_failures() {
    let mut gate = HealthGate::new(5);
    let mut attempts = 0;
    let mut slept = 0;
    let outcomes = [false, false, false, true];
    loop {
        let ok = outcomes[attempts];
        attempts += 1;
        match gate.on_checked(ok) {
            GateAction::Sleep { seconds } => slept += seconds,
            GateAction::Open => break,
            GateAction::Abandon => panic!("gate abandoned"),
        }
    }
    assert_eq!(attempts, 4);
    assert_eq!(slept, 15);
}

#[test]
fn health_gate_opens_at_once() {
    let mut gate = HealthGate::new(3);
    assert_eq!(gate.on_checked(true), GateAction::Open);
    assert_eq!(gate.on_checked(false), GateAction::Open);
}

#[test]
fn shutdown_cancels_closed_gate() {
    let mut gate = HealthGate::new(1);
    assert_eq!(gate.on_checked(false), GateAction::Sleep { seconds: 1 });
    assert_eq!(gate.on_shutdown(), GateAction::Abandon);
    assert_eq!(gate.state(), GateState::Cancelled);
    assert_eq!(gate.on_checked(true), GateAction::Abandon);
}

#[test]
fn shutdown_leaves_open_gate_open() {
    let mut gate = HealthGate::new(1);
    assert_eq!(gate.on_checked(true), GateAction::Open);
    assert_eq!(gate.on_shutdown(), GateAction::Open);
}
