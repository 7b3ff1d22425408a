use world_boundary::addr::AddrRange;
use world_boundary::call_gate::{CallGate, GateState, ValidatedTarget, run_gate_cycles};

fn window() -> AddrRange {
    AddrRange::new(0x0020_0800, 0x0020_08FF).unwrap()
}

#[test]
fn empty_range_is_refused() {
    assert!(AddrRange::new(0x0020_08FF, 0x0020_0800).is_none());
}

#[test]
fn in_window_mailbox_invokes_exactly_once() {
    let mut gate = CallGate::new(window());
    let target = gate.on_tick(0x0020_0850);
    let target = target.expect("an in-window candidate must be invoked");
    assert_eq!(target.address(), 0x0020_0850);
    assert_eq!(gate.invocations, 1);
    gate.on_return();
    gate.finish_cycle();
    assert_eq!(gate.state, GateState::Idle);
    assert_eq!(gate.invocations, 1);
}

#[test]
fn out_of_window_mailbox_invokes_nothing() {
    let mut gate = CallGate::new(window());
    let target = gate.on_tick(0x0030_0000);
    // No call is made and no fault is raised: the cycle just ends.
    assert!(target.is_none());
    assert_eq!(gate.invocations, 0);
    assert_eq!(gate.state, GateState::Idle);
}

#[test]
fn window_boundaries_are_inclusive() {
    assert!(ValidatedTarget::validate(0x0020_0800, &window()).is_some());
    assert!(ValidatedTarget::validate(0x0020_08FF, &window()).is_some());
    assert!(ValidatedTarget::validate(0x0020_07FF, &window()).is_none());
    assert!(ValidatedTarget::validate(0x0020_0900, &window()).is_none());
}

#[test]
fn validate_returns_the_candidate_address() {
    let t = ValidatedTarget::validate(0x0020_08A0, &window()).unwrap();
    assert_eq!(t.address(), 0x0020_08A0);
}

#[test]
fn full_cycle_states_in_order() {
    let mut gate = CallGate::new(window());
    assert_eq!(gate.state, GateState::Idle);
    gate.trigger(0x0020_0850);
    assert_eq!(gate.state, GateState::Triggered { candidate: 0x0020_0850 });
    gate.begin_validation();
    assert_eq!(gate.state, GateState::Validating { candidate: 0x0020_0850 });
    let t = gate.resolve();
    assert!(t.is_some());
    assert_eq!(gate.state, GateState::Invoking { target: 0x0020_0850 });
    gate.on_return();
    assert_eq!(gate.state, GateState::Returned);
    gate.finish_cycle();
    assert_eq!(gate.state, GateState::Idle);
}

#[test]
fn rejected_cycle_states_in_order() {
    let mut gate = CallGate::new(window());
    gate.trigger(0x0030_0000);
    gate.begin_validation();
    let t = gate.resolve();
    assert!(t.is_none());
    assert_eq!(gate.state, GateState::Rejected);
    gate.finish_cycle();
    assert_eq!(gate.state, GateState::Idle);
    assert_eq!(gate.invocations, 0);
}

#[test]
fn cycles_count_only_in_window_values() {
    let mut gate = CallGate::new(window());
    let values = vec![
        0x0020_0850, // in
        0x0030_0000, // out
        0x0020_0800, // in (low edge)
        0x0000_0000, // out
        0x0020_08FF, // in (high edge)
        0xFFFF_FFFF, // out
    ];
    let fired = run_gate_cycles(&mut gate, &values);
    assert_eq!(fired, 3);
    assert_eq!(gate.invocations, 3);
    assert_eq!(gate.state, GateState::Idle);
}
