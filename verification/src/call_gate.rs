//! Non-secure Call Gate: trusted-side logic that reads a candidate address
//! from the shared mailbox, validates it against the approved callable
//! window, and only on success hands out a capability through which the
//! controlled branch into untrusted code may be made. An address that was
//! never validated can never become callable.

use vstd::prelude::*;
use crate::addr::AddrRange;

verus! {

/// A call target that is callable by construction: the only way to obtain
/// one is through `validate`, so holding one proves the address passed the
/// window check.
#[derive(Clone, Copy, Debug)]
pub struct ValidatedTarget {
    target: u32,
    window: AddrRange,
}

impl ValidatedTarget {
    /// Capability invariant: the target lies inside the window it was
    /// validated against.
    #[verifier::type_invariant]
    pub closed spec fn inv(self) -> bool {
        self.window.wf() && self.window.spec_contains(self.target)
    }

    /// The validated address.
    pub closed spec fn spec_addr(self) -> u32 {
        self.target
    }

    /// The window the address was validated against.
    pub closed spec fn spec_window(self) -> AddrRange {
        self.window
    }

    /// The one constructor: the candidate from the mailbox becomes callable
    /// exactly when it lies inside the approved window.
    pub fn validate(candidate: u32, window: &AddrRange) -> (r: Option<ValidatedTarget>)
        requires
            window.wf(),
        ensures
            r is Some <==> window.spec_contains(candidate),
            r matches Some(t) ==> t.spec_addr() == candidate && t.spec_window() == *window,
    {
        if window.contains(candidate) {
            Some(ValidatedTarget { target: candidate, window: *window })
        } else {
            None
        }
    }

    /// The address to branch to.
    pub fn address(&self) -> (a: u32)
        ensures
            a == self.spec_addr(),
            self.spec_window().spec_contains(a),
    {
        proof {
            use_type_invariant(self);
        }
        self.target
    }
}

/// The call gate's cycle: Idle until a tick arrives with a mailbox value, then
/// validating, then either invoking the validated target (awaiting the
/// untrusted function's return) or rejecting the cycle.
#[derive(Clone, Copy, PartialEq, Eq, Structural, Debug)]
pub enum GateState {
    Idle,
    Triggered { candidate: u32 },
    Validating { candidate: u32 },
    Invoking { target: u32 },
    Rejected,
    Returned,
}

/// The trusted side of the call-gate mechanism: the approved window, the
/// cycle state, and a count of controlled invocations actually made.
pub struct CallGate {
    pub window: AddrRange,
    pub state: GateState,
    pub invocations: u64,
}

impl CallGate {
    /// Gate invariant: the window is non-empty and an in-flight invocation
    /// only ever targets an address inside it.
    pub open spec fn wf(self) -> bool {
        &&& self.window.wf()
        &&& self.state matches GateState::Invoking { target } ==> self.window.spec_contains(target)
    }

    pub fn new(window: AddrRange) -> (g: CallGate)
        requires
            window.wf(),
        ensures
            g.wf(),
            g.window == window,
            g.state == GateState::Idle,
            g.invocations == 0,
    {
        CallGate { window, state: GateState::Idle, invocations: 0 }
    }

    /// A periodic tick arrives: the mailbox value becomes the candidate.
    pub fn trigger(&mut self, mailbox: u32)
        requires
            old(self).wf(),
            old(self).state == GateState::Idle,
        ensures
            final(self).wf(),
            final(self).state == (GateState::Triggered { candidate: mailbox }),
            final(self).window == old(self).window,
            final(self).invocations == old(self).invocations,
    {
        self.state = GateState::Triggered { candidate: mailbox };
    }

    /// The candidate moves into validation.
    pub fn begin_validation(&mut self)
        requires
            old(self).wf(),
            old(self).state matches GateState::Triggered { .. },
        ensures
            final(self).wf(),
            old(self).state matches GateState::Triggered { candidate } ==> final(self).state
                == (GateState::Validating { candidate }),
            final(self).window == old(self).window,
            final(self).invocations == old(self).invocations,
    {
        let candidate = match self.state {
            GateState::Triggered { candidate } => candidate,
            _ => 0,
        };
        self.state = GateState::Validating { candidate };
    }

    /// The security-critical step: the candidate is checked against the
    /// approved window. Exactly when it lies inside, a capability comes
    /// back, the invocation is counted and the call gate is invoking; otherwise
    /// the cycle is rejected — no call, no fault, done on the next tick.
    pub fn resolve(&mut self) -> (r: Option<ValidatedTarget>)
        requires
            old(self).wf(),
            old(self).state matches GateState::Validating { .. },
            old(self).invocations < u64::MAX,
        ensures
            final(self).wf(),
            final(self).window == old(self).window,
            old(self).state matches GateState::Validating { candidate } ==> {
                &&& (r is Some <==> old(self).window.spec_contains(candidate))
                &&& (r matches Some(t) ==> t.spec_addr() == candidate
                    && t.spec_window() == old(self).window
                    && final(self).state == (GateState::Invoking { target: candidate })
                    && final(self).invocations == old(self).invocations + 1)
                &&& (r is None ==> final(self).state == GateState::Rejected
                    && final(self).invocations == old(self).invocations)
            },
    {
        let candidate = match self.state {
            GateState::Validating { candidate } => candidate,
            _ => 0,
        };
        match ValidatedTarget::validate(candidate, &self.window) {
            Some(t) => {
                self.state = GateState::Invoking { target: candidate };
                self.invocations = self.invocations + 1;
                Some(t)
            },
            None => {
                self.state = GateState::Rejected;
                None
            },
        }
    }

    /// The untrusted function returned through the controlled branch.
    pub fn on_return(&mut self)
        requires
            old(self).wf(),
            old(self).state matches GateState::Invoking { .. },
        ensures
            final(self).wf(),
            final(self).state == GateState::Returned,
            final(self).window == old(self).window,
            final(self).invocations == old(self).invocations,
    {
        self.state = GateState::Returned;
    }

    /// The cycle ends — after a return or a rejection — and the call gate goes
    /// idle until the next tick.
    pub fn finish_cycle(&mut self)
        requires
            old(self).wf(),
            old(self).state == GateState::Rejected || old(self).state == GateState::Returned,
        ensures
            final(self).wf(),
            final(self).state == GateState::Idle,
            final(self).window == old(self).window,
            final(self).invocations == old(self).invocations,
    {
        self.state = GateState::Idle;
    }

    /// One whole tick, as the periodic trigger's handler drives it: read
    /// the mailbox value, validate it, and either hand out the capability
    /// (the caller performs the branch, then reports back with `on_return`
    /// followed by `finish_cycle`) or reject and go idle. Exactly one
    /// invocation is counted per in-window tick, none otherwise.
    pub fn on_tick(&mut self, mailbox: u32) -> (r: Option<ValidatedTarget>)
        requires
            old(self).wf(),
            old(self).state == GateState::Idle,
            old(self).invocations < u64::MAX,
        ensures
            final(self).wf(),
            final(self).window == old(self).window,
            r is Some <==> old(self).window.spec_contains(mailbox),
            r matches Some(t) ==> t.spec_addr() == mailbox && t.spec_window() == old(self).window
                && final(self).state == (GateState::Invoking { target: mailbox })
                && final(self).invocations == old(self).invocations + 1,
            r is None ==> final(self).state == GateState::Idle
                && final(self).invocations == old(self).invocations,
    {
        self.trigger(mailbox);
        self.begin_validation();
        let r = self.resolve();
        if r.is_none() {
            self.finish_cycle();
        }
        r
    }
}

/// How many of a sequence of mailbox values lie inside the window.
pub open spec fn count_in_window(window: AddrRange, vals: Seq<u32>) -> int
    decreases vals.len(),
{
    if vals.len() == 0 {
        0
    } else {
        count_in_window(window, vals.drop_last()) + if window.spec_contains(vals.last()) {
            1int
        } else {
            0int
        }
    }
}

/// Law (and simulation driver): over any sequence of ticks, the call gate makes
/// exactly one invocation per mailbox value inside the window and none for
/// a value outside it — never more, never fewer.
#[verifier::loop_isolation(false)]
pub fn run_gate_cycles(gate: &mut CallGate, mailbox_values: &Vec<u32>) -> (fired: u64)
    requires
        old(gate).wf(),
        old(gate).state == GateState::Idle,
        old(gate).invocations + mailbox_values@.len() <= u64::MAX,
    ensures
        final(gate).wf(),
        final(gate).state == GateState::Idle,
        final(gate).window == old(gate).window,
        final(gate).invocations == old(gate).invocations + count_in_window(
            old(gate).window,
            mailbox_values@,
        ),
        fired == count_in_window(old(gate).window, mailbox_values@),
{
    let mut i: usize = 0;
    let mut fired: u64 = 0;
    let n: usize = mailbox_values.len();
    while i < n
        invariant
            i <= n,
            gate.wf(),
            gate.state == GateState::Idle,
            gate.window == old(gate).window,
            fired == count_in_window(old(gate).window, mailbox_values@.take(i as int)),
            gate.invocations == old(gate).invocations + fired,
            0 <= fired <= i,
        decreases n - i,
    {
        proof {
            lemma_count_in_window_bounds(old(gate).window, mailbox_values@.take(i as int + 1));
            assert(mailbox_values@.take(i as int + 1).drop_last() =~= mailbox_values@.take(
                i as int,
            ));
            assert(mailbox_values@.take(i as int + 1).last() == mailbox_values@[i as int]);
        }
        let v = mailbox_values[i];
        let r = gate.on_tick(v);
        if r.is_some() {
            gate.on_return();
            gate.finish_cycle();
            fired = fired + 1;
        }
        i = i + 1;
    }
    proof {
        assert(mailbox_values@.take(n as int) =~= mailbox_values@);
    }
    fired
}

/// The count of in-window values never exceeds the number of values.
pub proof fn lemma_count_in_window_bounds(window: AddrRange, vals: Seq<u32>)
    ensures
        0 <= count_in_window(window, vals) <= vals.len(),
    decreases vals.len(),
{
    if vals.len() > 0 {
        lemma_count_in_window_bounds(window, vals.drop_last());
    }
}

} // verus!
