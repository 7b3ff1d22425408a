//! Fault Diagnostics: the terminal handler for unrecoverable exceptions.
//! It captures the hardware-stacked register frame and the fault-status
//! word as one snapshot, and then the system halts for good — a halted
//! diagnostics state never changes again.

use vstd::prelude::*;

verus! {

/// The number of words in a complete snapshot.
pub const SNAPSHOT_FIELDS: usize = 9;

/// The register frame the hardware stacks on exception entry.
#[derive(Clone, Copy, PartialEq, Eq, Structural, Debug)]
pub struct StackedFrame {
    pub r0: u32,
    pub r1: u32,
    pub r2: u32,
    pub r3: u32,
    pub r12: u32,
    pub lr: u32,
    pub pc: u32,
    pub xpsr: u32,
}

/// Everything the diagnostic report carries: the eight stacked registers
/// and the fault-status word.
#[derive(Clone, Copy, PartialEq, Eq, Structural, Debug)]
pub struct ExceptionSnapshot {
    pub frame: StackedFrame,
    pub fault_status: u32,
}

/// The snapshot taken for a frame and a fault-status word.
pub open spec fn spec_snapshot(frame: StackedFrame, fault_status: u32) -> ExceptionSnapshot {
    ExceptionSnapshot { frame, fault_status }
}

impl ExceptionSnapshot {
    /// The report's words in their fixed order: r0, r1, r2, r3, r12, lr,
    /// pc, xpsr, fault status — all nine fields, none omitted.
    pub fn words(&self) -> (v: Vec<u32>)
        ensures
            v@.len() == SNAPSHOT_FIELDS,
            v@ == seq![
                self.frame.r0,
                self.frame.r1,
                self.frame.r2,
                self.frame.r3,
                self.frame.r12,
                self.frame.lr,
                self.frame.pc,
                self.frame.xpsr,
                self.fault_status,
            ],
    {
        let mut v: Vec<u32> = Vec::new();
        v.push(self.frame.r0);
        v.push(self.frame.r1);
        v.push(self.frame.r2);
        v.push(self.frame.r3);
        v.push(self.frame.r12);
        v.push(self.frame.lr);
        v.push(self.frame.pc);
        v.push(self.frame.xpsr);
        v.push(self.fault_status);
        proof {
            assert(v@ =~= seq![
                self.frame.r0,
                self.frame.r1,
                self.frame.r2,
                self.frame.r3,
                self.frame.r12,
                self.frame.lr,
                self.frame.pc,
                self.frame.xpsr,
                self.fault_status,
            ]);
        }
        v
    }
}

/// The diagnostics subsystem is either still running or halted with the
/// one snapshot it captured.
#[derive(Clone, Copy, PartialEq, Eq, Structural, Debug)]
pub enum DiagState {
    Running,
    Halted { snapshot: ExceptionSnapshot },
}

/// The trusted-side diagnostics state machine.
#[derive(Clone, Copy, PartialEq, Eq, Structural, Debug)]
pub struct FaultDiagnostics {
    pub state: DiagState,
}

impl FaultDiagnostics {
    pub fn new() -> (d: FaultDiagnostics)
        ensures
            d.state == DiagState::Running,
    {
        FaultDiagnostics { state: DiagState::Running }
    }

    /// An unrecoverable exception fired. A running system captures exactly
    /// one snapshot — all nine fields from the stacked frame and the
    /// fault-status word — and halts; a halted system makes no forward
    /// progress at all, so the snapshot it holds never changes.
    pub fn on_fault(&mut self, frame: &StackedFrame, fault_status: u32)
        ensures
            *final(self) == spec_on_fault(*old(self), *frame, fault_status),
            old(self).state == DiagState::Running ==> final(self).state == (DiagState::Halted {
                snapshot: spec_snapshot(*frame, fault_status),
            }),
            old(self).state matches DiagState::Halted { .. } ==> *final(self) == *old(self),
    {
        match self.state {
            DiagState::Running => {
                self.state = DiagState::Halted {
                    snapshot: ExceptionSnapshot { frame: *frame, fault_status },
                };
            },
            DiagState::Halted { .. } => {
            },
        }
    }

    pub fn is_halted(&self) -> (r: bool)
        ensures
            r == (self.state matches DiagState::Halted { .. }),
    {
        match self.state {
            DiagState::Running => false,
            DiagState::Halted { .. } => true,
        }
    }

    /// The captured snapshot, if the system has halted.
    pub fn snapshot(&self) -> (r: Option<ExceptionSnapshot>)
        ensures
            self.state matches DiagState::Halted { snapshot } ==> r == Some(snapshot),
            self.state == DiagState::Running ==> r is None,
    {
        match self.state {
            DiagState::Running => None,
            DiagState::Halted { snapshot } => Some(snapshot),
        }
    }
}

/// Law: the halted state is terminal — whatever further fault events
/// arrive, the state after any of them is the state before, so the one
/// captured snapshot is never replaced and no forward progress happens.
pub proof fn lemma_halt_is_terminal(d: FaultDiagnostics, frame: StackedFrame, fault_status: u32)
    requires
        d.state matches DiagState::Halted { .. },
    ensures
        spec_on_fault(d, frame, fault_status) == d,
{
}

/// What `on_fault` leaves behind, as a function of the prior state.
pub open spec fn spec_on_fault(
    d: FaultDiagnostics,
    frame: StackedFrame,
    fault_status: u32,
) -> FaultDiagnostics {
    match d.state {
        DiagState::Running => FaultDiagnostics {
            state: DiagState::Halted { snapshot: spec_snapshot(frame, fault_status) },
        },
        DiagState::Halted { .. } => d,
    }
}

} // verus!
