//! Periodic Trigger: validates the countdown-timer reload value and relates
//! it to the nominal invocation period, so the boot code can program the
//! timer that drives the call gate once per expiry.

use vstd::prelude::*;
use crate::call_gate::{CallGate, GateState};

verus! {

/// The countdown timer's counter is 24 bits wide: the largest programmable
/// reload value.
pub const MAX_RELOAD: u32 = 0x00FF_FFFF;

/// Reload values the timer cannot be programmed with.
#[derive(Clone, Copy, PartialEq, Eq, Structural, Debug)]
pub enum TriggerError {
    /// A zero reload would never count down to an expiry.
    ZeroReload,
    /// The value does not fit the counter's bit width.
    ReloadTooLarge,
}

/// An accepted timer configuration.
#[derive(Clone, Copy, PartialEq, Eq, Structural, Debug)]
pub struct TriggerConfig {
    pub reload: u32,
}

impl TriggerConfig {
    /// A reload is programmable when it is positive and fits the counter.
    pub open spec fn wf(self) -> bool {
        0 < self.reload <= MAX_RELOAD
    }
}

/// Checks a caller-supplied reload value against the counter's limits.
pub fn configure_trigger(reload: u32) -> (r: Result<TriggerConfig, TriggerError>)
    ensures
        r is Ok <==> 0 < reload <= MAX_RELOAD,
        r matches Ok(c) ==> c.reload == reload && c.wf(),
        r == Err::<TriggerConfig, TriggerError>(TriggerError::ZeroReload) <==> reload == 0,
        r == Err::<TriggerConfig, TriggerError>(TriggerError::ReloadTooLarge) <==> reload
            > MAX_RELOAD,
{
    if reload == 0 {
        Err(TriggerError::ZeroReload)
    } else if reload > MAX_RELOAD {
        Err(TriggerError::ReloadTooLarge)
    } else {
        Ok(TriggerConfig { reload })
    }
}

/// The nominal period between timer expiries, in microseconds, for a tick
/// source of `tick_hz` counts per second: `reload * 1_000_000 / tick_hz`,
/// rounded down.
pub fn period_micros(reload: u32, tick_hz: u32) -> (p: u64)
    requires
        tick_hz > 0,
    ensures
        p == reload as int * 1_000_000 / tick_hz as int,
{
    (reload as u64 * 1_000_000) / (tick_hz as u64)
}

/// How many whole periods fit in an observation window: the nominal number
/// of times the trigger fires — and so drives the call gate — during it.
pub fn expected_firings(window_micros: u64, period_micros: u64) -> (n: u64)
    requires
        period_micros > 0,
    ensures
        n == window_micros as int / period_micros as int,
{
    window_micros / period_micros
}

/// Law (end to end): over an observation window the trigger fires once per
/// whole period, each firing drives one call-gate cycle on the mailbox
/// value, and so the call gate invokes exactly once per firing when the
/// mailbox holds an in-window address — and not at all when it does not.
#[verifier::loop_isolation(false)]
pub fn run_observation_window(
    gate: &mut CallGate,
    window_micros: u64,
    period_micros: u64,
    mailbox: u32,
) -> (fired: u64)
    requires
        old(gate).wf(),
        old(gate).state == GateState::Idle,
        period_micros > 0,
        old(gate).invocations + window_micros as int / period_micros as int <= u64::MAX,
    ensures
        final(gate).wf(),
        final(gate).state == GateState::Idle,
        final(gate).window == old(gate).window,
        fired == if old(gate).window.spec_contains(mailbox) {
            window_micros as int / period_micros as int
        } else {
            0int
        },
        final(gate).invocations == old(gate).invocations + fired,
{
    let firings = expected_firings(window_micros, period_micros);
    let mut fired: u64 = 0;
    let mut i: u64 = 0;
    while i < firings
        invariant
            i <= firings,
            gate.wf(),
            gate.state == GateState::Idle,
            gate.window == old(gate).window,
            fired == if old(gate).window.spec_contains(mailbox) {
                i as int
            } else {
                0int
            },
            gate.invocations == old(gate).invocations + fired,
        decreases firings - i,
    {
        if let Some(_target) = gate.on_tick(mailbox) {
            gate.on_return();
            gate.finish_cycle();
            fired = fired + 1;
        }
        i = i + 1;
    }
    fired
}

} // verus!
