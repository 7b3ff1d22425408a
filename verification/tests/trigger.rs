use world_boundary::addr::AddrRange;
use world_boundary::call_gate::{CallGate, run_gate_cycles};
use world_boundary::trigger::{
    TriggerError, configure_trigger, expected_firings, period_micros, run_observation_window,
    MAX_RELOAD,
};

#[test]
fn zero_reload_rejected() {
    assert_eq!(configure_trigger(0), Err(TriggerError::ZeroReload));
}

#[test]
fn oversized_reload_rejected() {
    assert_eq!(configure_trigger(0x0100_0000), Err(TriggerError::ReloadTooLarge));
}

#[test]
fn counter_width_is_the_ceiling() {
    let c = configure_trigger(MAX_RELOAD).unwrap();
    assert_eq!(c.reload, 0x00FF_FFFF);
    assert_eq!(configure_trigger(1).unwrap().reload, 1);
}

#[test]
fn reload_64000_at_64_mhz_is_one_millisecond() {
    let c = configure_trigger(64_000).unwrap();
    assert_eq!(period_micros(c.reload, 64_000_000), 1_000);
}

#[test]
fn ten_millisecond_window_fires_ten_times() {
    // End to end: reload 64000 at a 64 MHz tick source gives a nominal
    // 1 ms period; over a 10 ms observation window the trigger fires 10
    // times, and each firing drives one gate cycle.
    let period = period_micros(64_000, 64_000_000);
    let firings = expected_firings(10_000, period);
    assert_eq!(firings, 10);

    let window = AddrRange { base: 0x0020_0800, limit: 0x0020_08FF };
    let mut gate = CallGate::new(window);
    let mailbox_per_tick = vec![0x0020_0850u32; firings as usize];
    let fired = run_gate_cycles(&mut gate, &mailbox_per_tick);
    assert_eq!(fired, 10);
    assert_eq!(gate.invocations, 10);
}

#[test]
fn observation_window_with_in_window_mailbox_fires_each_period() {
    let window = AddrRange { base: 0x0020_0800, limit: 0x0020_08FF };
    let mut gate = CallGate::new(window);
    let fired = run_observation_window(&mut gate, 10_000, 1_000, 0x0020_0850);
    assert_eq!(fired, 10);
    assert_eq!(gate.invocations, 10);
}

#[test]
fn observation_window_with_stale_mailbox_never_fires() {
    let window = AddrRange { base: 0x0020_0800, limit: 0x0020_08FF };
    let mut gate = CallGate::new(window);
    let fired = run_observation_window(&mut gate, 10_000, 1_000, 0x0030_0000);
    assert_eq!(fired, 0);
    assert_eq!(gate.invocations, 0);
}
