//! A model of the relational store's two record tables.
//!
//! The real tables live in the external store; the library models them so
//! that what its writes do — and that re-applying them changes nothing — can
//! be stated and proved.  An event record carries an active flag and an
//! outcome; a bet record carries a claimable flag for one side of one event.
//! Both writes set absolute values on the rows whose key matches and leave
//! every other row untouched.

use vstd::prelude::*;

verus! {

/// A row of the events table: keyed by address, resolved by clearing
/// `is_active` and recording the outcome.
pub struct EventRecord {
    pub address: String,
    pub is_active: bool,
    pub outcome: u8,
}

/// The mathematical image of an event record.
pub ghost struct EventRecordV {
    pub address: Seq<char>,
    pub is_active: bool,
    pub outcome: u8,
}

impl View for EventRecord {
    type V = EventRecordV;

    open spec fn view(&self) -> EventRecordV {
        EventRecordV { address: self.address@, is_active: self.is_active, outcome: self.outcome }
    }
}

/// A row of the bets table: keyed by event address and bet side, paid out
/// once `is_claimable` is set.
pub struct BetRecord {
    pub event_address: String,
    pub bet: u8,
    pub is_claimable: bool,
}

/// The mathematical image of a bet record.
pub ghost struct BetRecordV {
    pub event_address: Seq<char>,
    pub bet: u8,
    pub is_claimable: bool,
}

impl View for BetRecord {
    type V = BetRecordV;

    open spec fn view(&self) -> BetRecordV {
        BetRecordV {
            event_address: self.event_address@,
            bet: self.bet,
            is_claimable: self.is_claimable,
        }
    }
}

/// The two record tables.
pub struct Store {
    pub events: Vec<EventRecord>,
    pub bets: Vec<BetRecord>,
}

/// The mathematical image of the store.
pub ghost struct StoreV {
    pub events: Seq<EventRecordV>,
    pub bets: Seq<BetRecordV>,
}

impl View for Store {
    type V = StoreV;

    open spec fn view(&self) -> StoreV {
        StoreV {
            events: self.events@.map_values(|r: EventRecord| r@),
            bets: self.bets@.map_values(|r: BetRecord| r@),
        }
    }
}

/// One event row after a resolution write for `addr` with `outcome`: a
/// matching row is deactivated and takes the outcome, any other row is
/// untouched.
pub open spec fn resolve_event_row(r: EventRecordV, addr: Seq<char>, outcome: u8) -> EventRecordV {
    if r.address == addr {
        EventRecordV { address: r.address, is_active: false, outcome }
    } else {
        r
    }
}

/// The events table after a resolution write.
pub open spec fn resolve_events(rows: Seq<EventRecordV>, addr: Seq<char>, outcome: u8) -> Seq<
    EventRecordV,
> {
    rows.map_values(|r: EventRecordV| resolve_event_row(r, addr, outcome))
}

/// One bet row after a claim write for `addr` and side `side`: a matching row
/// becomes claimable, any other row is untouched.
pub open spec fn claim_bet_row(r: BetRecordV, addr: Seq<char>, side: u8) -> BetRecordV {
    if r.event_address == addr && r.bet == side {
        BetRecordV { event_address: r.event_address, bet: r.bet, is_claimable: true }
    } else {
        r
    }
}

/// The bets table after a claim write.
pub open spec fn claim_bets(rows: Seq<BetRecordV>, addr: Seq<char>, side: u8) -> Seq<BetRecordV> {
    rows.map_values(|r: BetRecordV| claim_bet_row(r, addr, side))
}

impl Store {
    /// Resolve the event records for `address`: clear `is_active` and record
    /// `outcome` on every matching row; every other row and the bets table
    /// are untouched.
    pub fn resolve_event(&mut self, address: &String, outcome: u8)
        ensures
            final(self)@.events == resolve_events(old(self)@.events, address@, outcome),
            final(self)@.bets == old(self)@.bets,
    {
        let mut i: usize = 0;
        while i < self.events.len()
            invariant
                i <= self.events@.len(),
                self.events@.len() == old(self).events@.len(),
                self.bets == old(self).bets,
                forall|j: int|
                    0 <= j < i ==> #[trigger] self.events@[j]@ == resolve_event_row(
                        old(self).events@[j]@,
                        address@,
                        outcome,
                    ),
                forall|j: int|
                    i <= j < self.events@.len() ==> #[trigger] self.events@[j] == old(
                        self,
                    ).events@[j],
            decreases self.events@.len() - i,
        {
            if self.events[i].address == *address {
                self.events[i].is_active = false;
                self.events[i].outcome = outcome;
            }
            i = i + 1;
        }
        proof {
            assert(final(self)@.events =~= resolve_events(old(self)@.events, address@, outcome));
            assert(final(self)@.bets =~= old(self)@.bets);
        }
    }

    /// Mark the bet records for `event_address` on side `side` claimable;
    /// every other row and the events table are untouched.
    pub fn mark_bets_claimable(&mut self, event_address: &String, side: u8)
        ensures
            final(self)@.bets == claim_bets(old(self)@.bets, event_address@, side),
            final(self)@.events == old(self)@.events,
    {
        let mut i: usize = 0;
        while i < self.bets.len()
            invariant
                i <= self.bets@.len(),
                self.bets@.len() == old(self).bets@.len(),
                self.events == old(self).events,
                forall|j: int|
                    0 <= j < i ==> #[trigger] self.bets@[j]@ == claim_bet_row(
                        old(self).bets@[j]@,
                        event_address@,
                        side,
                    ),
                forall|j: int|
                    i <= j < self.bets@.len() ==> #[trigger] self.bets@[j] == old(self).bets@[j],
            decreases self.bets@.len() - i,
        {
            if self.bets[i].event_address == *event_address && self.bets[i].bet == side {
                self.bets[i].is_claimable = true;
            }
            i = i + 1;
        }
        proof {
            assert(final(self)@.bets =~= claim_bets(old(self)@.bets, event_address@, side));
            assert(final(self)@.events =~= old(self)@.events);
        }
    }
}

/// Resolving twice with the same address and outcome is the same as resolving
/// once: the write sets absolute values.
pub proof fn lemma_resolve_events_idempotent(rows: Seq<EventRecordV>, addr: Seq<char>, outcome: u8)
    ensures
        resolve_events(resolve_events(rows, addr, outcome), addr, outcome) == resolve_events(
            rows,
            addr,
            outcome,
        ),
{
    assert(resolve_events(resolve_events(rows, addr, outcome), addr, outcome) =~= resolve_events(
        rows,
        addr,
        outcome,
    ));
}

/// Claiming twice with the same address and side is the same as claiming
/// once: the write only sets a flag.
pub proof fn lemma_claim_bets_idempotent(rows: Seq<BetRecordV>, addr: Seq<char>, side: u8)
    ensures
        claim_bets(claim_bets(rows, addr, side), addr, side) == claim_bets(rows, addr, side),
{
    assert(claim_bets(claim_bets(rows, addr, side), addr, side) =~= claim_bets(rows, addr, side));
}

} // verus!
