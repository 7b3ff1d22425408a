use world_boundary::fault::{
    DiagState, ExceptionSnapshot, FaultDiagnostics, StackedFrame, SNAPSHOT_FIELDS,
};

fn frame() -> StackedFrame {
    StackedFrame {
        r0: 0x1111_1111,
        r1: 0x2222_2222,
        r2: 0x3333_3333,
        r3: 0x4444_4444,
        r12: 0x5555_5555,
        lr: 0xFFFF_FFF9,
        pc: 0x0020_0123,
        xpsr: 0x6100_0000,
    }
}

#[test]
fn fault_captures_one_complete_snapshot() {
    let mut diag = FaultDiagnostics::new();
    assert!(!diag.is_halted());
    assert!(diag.snapshot().is_none());

    diag.on_fault(&frame(), 0x0000_0008);
    assert!(diag.is_halted());

    let snap = diag.snapshot().expect("a fault must leave a snapshot");
    assert_eq!(snap.frame, frame());
    assert_eq!(snap.fault_status, 0x0000_0008);

    // The report carries all nine fields, in the fixed order.
    let words = snap.words();
    assert_eq!(words.len(), SNAPSHOT_FIELDS);
    assert_eq!(
        words,
        vec![
            0x1111_1111,
            0x2222_2222,
            0x3333_3333,
            0x4444_4444,
            0x5555_5555,
            0xFFFF_FFF9,
            0x0020_0123,
            0x6100_0000,
            0x0000_0008,
        ]
    );
}

#[test]
fn halted_state_makes_no_further_progress() {
    let mut diag = FaultDiagnostics::new();
    diag.on_fault(&frame(), 0x0000_0008);
    let first = diag.snapshot().unwrap();

    // A second fault event changes nothing: the one captured snapshot
    // stays, and the state remains halted.
    let other = StackedFrame { r0: 0xDEAD_BEEF, ..frame() };
    diag.on_fault(&other, 0x0000_0040);
    assert!(diag.is_halted());
    assert_eq!(diag.snapshot().unwrap(), first);
    assert_eq!(
        diag.state,
        DiagState::Halted {
            snapshot: ExceptionSnapshot { frame: frame(), fault_status: 0x0000_0008 }
        }
    );
}
