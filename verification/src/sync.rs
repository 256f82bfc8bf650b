//! The synchronization loop as an explicit state machine.
//!
//! The machine owns the decisions of the loop: when a reported chain tip
//! opens a block range, which block to scan next, when the persisted cursor
//! is owed a write, and when to idle.  The outside world performs the actions
//! (the RPC queries, the store writes, the sleep) and reports each result
//! back as an event.  The machine's cursor field mirrors the persisted
//! last-processed-block value: it moves only when a save is reported
//! successful, and it never decreases, whatever sequence of events — failures
//! included — is reported.

use vstd::prelude::*;

verus! {

/// The fixed idle interval between cycles, in seconds.
pub const IDLE_SECONDS: u64 = 10;

/// The phase the loop is in.
#[derive(Clone, Copy)]
pub enum SyncPhase {
    /// Waiting for the next cycle's tip report.
    Idle,
    /// `block` is being scanned; every block up to `tip` is still owed.
    Scanning { block: u64, tip: u64 },
    /// `block` is fully scanned; the cursor write for it is owed.
    Saving { block: u64, tip: u64 },
}

/// What the outside world reports to the machine.
#[derive(Clone, Copy)]
pub enum SyncEvent {
    /// The chain tip was read.
    TipKnown { tip: u64 },
    /// The tip could not be read this cycle; the cycle is skipped.
    TipUnknown,
    /// Every tracked address was scanned for the current block.
    BlockScanned,
    /// The cursor write succeeded.
    CursorSaved,
    /// The cursor write failed; the store keeps its old value.
    CursorSaveFailed,
}

/// What the machine asks the outside world to do next.
#[derive(Clone, Copy)]
pub enum SyncAction {
    /// Scan every tracked address for `block`, decode and project.
    ScanBlock { block: u64 },
    /// Persist `block` as the last processed block.
    SaveCursor { block: u64 },
    /// Idle for `seconds`, then report the next tip.
    Sleep { seconds: u64 },
}

/// The loop's state: the mirror of the persisted cursor, and the phase.
#[derive(Clone, Copy)]
pub struct SyncMachine {
    pub cursor: u64,
    pub phase: SyncPhase,
}

/// After a finished block: the next block of the range, or back to idle when
/// the range is exhausted.
pub open spec fn advance_spec(cursor: u64, block: u64, tip: u64) -> (SyncMachine, SyncAction) {
    if block < tip {
        (
            SyncMachine {
                cursor,
                phase: SyncPhase::Scanning { block: (block + 1) as u64, tip },
            },
            SyncAction::ScanBlock { block: (block + 1) as u64 },
        )
    } else {
        (SyncMachine { cursor, phase: SyncPhase::Idle }, SyncAction::Sleep { seconds: IDLE_SECONDS })
    }
}

/// The whole transition relation: next state and requested action for a
/// state and a reported event.  An event that does not belong to the current
/// phase changes nothing and asks for an idle interval.
pub open spec fn step_spec(m: SyncMachine, e: SyncEvent) -> (SyncMachine, SyncAction) {
    match (m.phase, e) {
        (SyncPhase::Idle, SyncEvent::TipKnown { tip }) => if tip > m.cursor {
            (
                SyncMachine {
                    cursor: m.cursor,
                    phase: SyncPhase::Scanning { block: (m.cursor + 1) as u64, tip },
                },
                SyncAction::ScanBlock { block: (m.cursor + 1) as u64 },
            )
        } else {
            (m, SyncAction::Sleep { seconds: IDLE_SECONDS })
        },
        (SyncPhase::Scanning { block, tip }, SyncEvent::BlockScanned) => (
            SyncMachine { cursor: m.cursor, phase: SyncPhase::Saving { block, tip } },
            SyncAction::SaveCursor { block },
        ),
        (SyncPhase::Saving { block, tip }, SyncEvent::CursorSaved) => advance_spec(
            block,
            block,
            tip,
        ),
        (SyncPhase::Saving { block, tip }, SyncEvent::CursorSaveFailed) => advance_spec(
            m.cursor,
            block,
            tip,
        ),
        _ => (m, SyncAction::Sleep { seconds: IDLE_SECONDS }),
    }
}

/// The machine after a whole sequence of reported events.
pub open spec fn run_spec(m: SyncMachine, events: Seq<SyncEvent>) -> SyncMachine
    decreases events.len(),
{
    if events.len() == 0 {
        m
    } else {
        run_spec(step_spec(m, events[0]).0, events.drop_first())
    }
}

impl SyncMachine {
    /// A scanned or owed block always lies strictly above the cursor and
    /// within the reported range.
    pub open spec fn wf(self) -> bool {
        match self.phase {
            SyncPhase::Idle => true,
            SyncPhase::Scanning { block, tip } => self.cursor < block && block <= tip,
            SyncPhase::Saving { block, tip } => self.cursor < block && block <= tip,
        }
    }

    /// Start the machine at the persisted last-processed-block value, idle.
    pub fn new(last_processed_block: u64) -> (m: SyncMachine)
        ensures
            m.cursor == last_processed_block,
            m.phase is Idle,
            m.wf(),
    {
        SyncMachine { cursor: last_processed_block, phase: SyncPhase::Idle }
    }

    /// Take one reported event and decide the next action, exactly as
    /// `step_spec` states; the cursor mirror never decreases, and a cursor
    /// write is only ever requested for a block strictly above it.
    pub fn step(&mut self, event: SyncEvent) -> (action: SyncAction)
        requires
            old(self).wf(),
        ensures
            (*final(self), action) == step_spec(*old(self), event),
            final(self).wf(),
            old(self).cursor <= final(self).cursor,
            action matches SyncAction::SaveCursor { block } ==> old(self).cursor < block,
            action matches SyncAction::ScanBlock { block } ==> final(self).cursor < block,
    {
        match (self.phase, event) {
            (SyncPhase::Idle, SyncEvent::TipKnown { tip }) => {
                if tip > self.cursor {
                    let block = self.cursor + 1;
                    self.phase = SyncPhase::Scanning { block, tip };
                    SyncAction::ScanBlock { block }
                } else {
                    SyncAction::Sleep { seconds: IDLE_SECONDS }
                }
            },
            (SyncPhase::Scanning { block, tip }, SyncEvent::BlockScanned) => {
                self.phase = SyncPhase::Saving { block, tip };
                SyncAction::SaveCursor { block }
            },
            (SyncPhase::Saving { block, tip }, SyncEvent::CursorSaved) => {
                self.cursor = block;
                self.advance(block, tip)
            },
            (SyncPhase::Saving { block, tip }, SyncEvent::CursorSaveFailed) => {
                self.advance(block, tip)
            },
            _ => SyncAction::Sleep { seconds: IDLE_SECONDS },
        }
    }

    /// Move past a finished block: the next one of the range, or idle.
    fn advance(&mut self, block: u64, tip: u64) -> (action: SyncAction)
        requires
            old(self).cursor <= block,
            block <= tip,
        ensures
            (*final(self), action) == advance_spec(old(self).cursor, block, tip),
            final(self).cursor == old(self).cursor,
    {
        if block < tip {
            self.phase = SyncPhase::Scanning { block: block + 1, tip };
            SyncAction::ScanBlock { block: block + 1 }
        } else {
            self.phase = SyncPhase::Idle;
            SyncAction::Sleep { seconds: IDLE_SECONDS }
        }
    }
}

/// One step never lowers the cursor, and keeps the machine well-formed.
pub proof fn lemma_step_monotonic(m: SyncMachine, e: SyncEvent)
    requires
        m.wf(),
    ensures
        m.cursor <= step_spec(m, e).0.cursor,
        step_spec(m, e).0.wf(),
{
}

/// Across any sequence of reported events — tip failures and cursor-write
/// failures included — the cursor mirror is monotonic non-decreasing.
pub proof fn lemma_cursor_monotonic(m: SyncMachine, events: Seq<SyncEvent>)
    requires
        m.wf(),
    ensures
        m.cursor <= run_spec(m, events).cursor,
        run_spec(m, events).wf(),
    decreases events.len(),
{
    if events.len() > 0 {
        lemma_step_monotonic(m, events[0]);
        lemma_cursor_monotonic(step_spec(m, events[0]).0, events.drop_first());
    }
}

} // verus!
