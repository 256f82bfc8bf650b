use event_sync::sync::{SyncAction, SyncEvent, SyncMachine, SyncPhase};

#[test]
fn tip_at_cursor_idles_without_scanning() {
    let mut machine = SyncMachine::new(7);
    let action = machine.step(SyncEvent::TipKnown { tip: 7 });
    assert!(matches!(action, SyncAction::Sleep { seconds: 10 }));
    assert!(matches!(machine.phase, SyncPhase::Idle));
    assert_eq!(machine.cursor, 7);
}

#[test]
fn tip_below_cursor_idles_without_scanning() {
    let mut machine = SyncMachine::new(7);
    let action = machine.step(SyncEvent::TipKnown { tip: 3 });
    assert!(matches!(action, SyncAction::Sleep { .. }));
    assert!(matches!(machine.phase, SyncPhase::Idle));
    assert_eq!(machine.cursor, 7);
}

#[test]
fn unknown_tip_skips_the_cycle() {
    let mut machine = SyncMachine::new(7);
    let action = machine.step(SyncEvent::TipUnknown);
    assert!(matches!(action, SyncAction::Sleep { .. }));
    assert_eq!(machine.cursor, 7);
}

#[test]
fn a_two_block_range_is_walked_in_order() {
    let mut machine = SyncMachine::new(0);
    let action = machine.step(SyncEvent::TipKnown { tip: 2 });
    assert!(matches!(action, SyncAction::ScanBlock { block: 1 }));
    let action = machine.step(SyncEvent::BlockScanned);
    assert!(matches!(action, SyncAction::SaveCursor { block: 1 }));
    let action = machine.step(SyncEvent::CursorSaved);
    assert_eq!(machine.cursor, 1);
    assert!(matches!(action, SyncAction::ScanBlock { block: 2 }));
    let action = machine.step(SyncEvent::BlockScanned);
    assert!(matches!(action, SyncAction::SaveCursor { block: 2 }));
    let action = machine.step(SyncEvent::CursorSaved);
    assert_eq!(machine.cursor, 2);
    assert!(matches!(action, SyncAction::Sleep { seconds: 10 }));
    assert!(matches!(machine.phase, SyncPhase::Idle));
}

#[test]
fn failed_cursor_save_keeps_the_mirror_and_continues() {
    let mut machine = SyncMachine::new(0);
    machine.step(SyncEvent::TipKnown { tip: 2 });
    machine.step(SyncEvent::BlockScanned);
    let action = machine.step(SyncEvent::CursorSaveFailed);
    assert_eq!(machine.cursor, 0);
    assert!(matches!(action, SyncAction::ScanBlock { block: 2 }));
    machine.step(SyncEvent::BlockScanned);
    let action = machine.step(SyncEvent::CursorSaved);
    assert_eq!(machine.cursor, 2);
    assert!(matches!(action, SyncAction::Sleep { .. }));
}

#[test]
fn cursor_never_decreases_under_injected_failures() {
    let mut machine = SyncMachine::new(5);
    let events = [
        SyncEvent::TipUnknown,
        SyncEvent::TipKnown { tip: 8 },
        SyncEvent::BlockScanned,
        SyncEvent::CursorSaveFailed,
        SyncEvent::BlockScanned,
        SyncEvent::CursorSaved,
        SyncEvent::BlockScanned,
        SyncEvent::CursorSaveFailed,
        SyncEvent::TipKnown { tip: 9 },
        SyncEvent::TipUnknown,
        SyncEvent::BlockScanned,
        SyncEvent::CursorSaved,
    ];
    let mut last = machine.cursor;
    for event in events {
        machine.step(event);
        assert!(machine.cursor >= last);
        last = machine.cursor;
    }
}

#[test]
fn stray_events_change_nothing() {
    let mut machine = SyncMachine::new(4);
    let action = machine.step(SyncEvent::BlockScanned);
    assert!(matches!(action, SyncAction::Sleep { .. }));
    assert_eq!(machine.cursor, 4);
    let action = machine.step(SyncEvent::CursorSaved);
    assert!(matches!(action, SyncAction::Sleep { .. }));
    assert_eq!(machine.cursor, 4);
}
