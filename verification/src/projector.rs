//! Projection of decoded events into the store.
//!
//! Applying one event is two sequential writes, not one transaction: first
//! the event record for the subject address is resolved, then the bet records
//! for the winning side are marked claimable.  If the first write fails the
//! second is never attempted; a failure of the second is accepted and not
//! rolled back.  Both writes set absolute values, so re-applying the events
//! of an already-scanned block changes nothing — proved here at the level of
//! whole event sequences.

use crate::event::{EventTimeout, EventTimeoutV};
use crate::store::{
    claim_bet_row, claim_bets, resolve_event_row, resolve_events, BetRecordV, EventRecordV, Store,
    StoreV,
};
use vstd::prelude::*;

verus! {

/// The side whose bets become claimable for an outcome code: side 1 for
/// outcome 1, side 0 for any other outcome.
pub open spec fn claim_side_spec(outcome: u8) -> u8 {
    if outcome == 1 {
        1
    } else {
        0
    }
}

/// Compute the claimable side for an outcome code.
pub fn claim_side(outcome: u8) -> (r: u8)
    ensures
        r == claim_side_spec(outcome),
{
    if outcome == 1 {
        1
    } else {
        0
    }
}

/// The first write of the projection: resolve the event record.
pub struct ResolveWrite {
    pub address: String,
    pub outcome: u8,
}

/// The second write of the projection: mark one side's bets claimable.
pub struct ClaimWrite {
    pub event_address: String,
    pub bet: u8,
}

/// Plan the first write for a decoded event: resolve its event record with
/// its outcome code.
pub fn resolution_write(event: &EventTimeout) -> (w: ResolveWrite)
    ensures
        w.address@ == event.event_address@,
        w.outcome == event.event_outcome,
{
    ResolveWrite { address: event.event_address.clone(), outcome: event.event_outcome }
}

/// Plan the second write, given whether the first one succeeded: a claim
/// write for the outcome's winning side exactly when it did, and nothing at
/// all when it failed.
pub fn claim_write_after(event: &EventTimeout, resolve_ok: bool) -> (r: Option<ClaimWrite>)
    ensures
        r is Some <==> resolve_ok,
        r matches Some(w) ==> w.event_address@ == event.event_address@ && w.bet
            == claim_side_spec(event.event_outcome),
{
    if resolve_ok {
        Some(
            ClaimWrite {
                event_address: event.event_address.clone(),
                bet: claim_side(event.event_outcome),
            },
        )
    } else {
        None
    }
}

/// The store after both writes of one event's projection.
pub open spec fn apply_event_spec(s: StoreV, ev: EventTimeoutV) -> StoreV {
    StoreV {
        events: resolve_events(s.events, ev.event_address, ev.event_outcome),
        bets: claim_bets(s.bets, ev.event_address, claim_side_spec(ev.event_outcome)),
    }
}

/// The store after projecting a sequence of events in order.
pub open spec fn apply_events_spec(s: StoreV, evs: Seq<EventTimeoutV>) -> StoreV
    decreases evs.len(),
{
    if evs.len() == 0 {
        s
    } else {
        apply_events_spec(apply_event_spec(s, evs[0]), evs.drop_first())
    }
}

/// Project one decoded event into the model store: both writes, in order.
pub fn update_database_for_event_finished(event: &EventTimeout, store: &mut Store)
    ensures
        final(store)@ == apply_event_spec(old(store)@, event@),
{
    store.resolve_event(&event.event_address, event.event_outcome);
    let side = claim_side(event.event_outcome);
    store.mark_bets_claimable(&event.event_address, side);
}

/// Project a sequence of decoded events into the model store, in order.
pub fn apply_events(store: &mut Store, events: &Vec<EventTimeout>)
    ensures
        final(store)@ == apply_events_spec(
            old(store)@,
            events@.map_values(|e: EventTimeout| e@),
        ),
{
    let ghost all = events@.map_values(|e: EventTimeout| e@);
    let mut i: usize = 0;
    proof {
        assert(all.take(0) =~= Seq::<EventTimeoutV>::empty());
    }
    while i < events.len()
        invariant
            i <= events@.len(),
            all == events@.map_values(|e: EventTimeout| e@),
            store@ == apply_events_spec(old(store)@, all.take(i as int)),
        decreases events@.len() - i,
    {
        update_database_for_event_finished(&events[i], store);
        proof {
            assert(all.take(i + 1) =~= all.take(i as int).push(all[i as int]));
            lemma_apply_events_snoc(old(store)@, all.take(i as int), all[i as int]);
        }
        i = i + 1;
    }
    proof {
        assert(all.take(events@.len() as int) =~= all);
    }
}

/// Appending one event to a projected sequence projects it onto the result.
pub proof fn lemma_apply_events_snoc(s: StoreV, evs: Seq<EventTimeoutV>, e: EventTimeoutV)
    ensures
        apply_events_spec(s, evs.push(e)) == apply_event_spec(apply_events_spec(s, evs), e),
    decreases evs.len(),
{
    if evs.len() == 0 {
        assert(evs.push(e)[0] == e);
        assert(evs.push(e).drop_first() =~= Seq::<EventTimeoutV>::empty());
        assert(apply_events_spec(s, evs.push(e)) == apply_events_spec(
            apply_event_spec(s, e),
            evs.push(e).drop_first(),
        ));
        assert(apply_events_spec(apply_event_spec(s, e), evs.push(e).drop_first())
            == apply_event_spec(s, e));
        assert(apply_events_spec(s, evs) == s);
    } else {
        assert(evs.push(e)[0] == evs[0]);
        assert(evs.push(e).drop_first() =~= evs.drop_first().push(e));
        lemma_apply_events_snoc(apply_event_spec(s, evs[0]), evs.drop_first(), e);
        assert(apply_events_spec(s, evs.push(e)) == apply_events_spec(
            apply_event_spec(s, evs[0]),
            evs.drop_first().push(e),
        ));
        assert(apply_events_spec(s, evs) == apply_events_spec(
            apply_event_spec(s, evs[0]),
            evs.drop_first(),
        ));
    }
}

/// One event row carried through a whole event sequence.
pub open spec fn fold_event_row(r: EventRecordV, evs: Seq<EventTimeoutV>) -> EventRecordV
    decreases evs.len(),
{
    if evs.len() == 0 {
        r
    } else {
        fold_event_row(
            resolve_event_row(r, evs[0].event_address, evs[0].event_outcome),
            evs.drop_first(),
        )
    }
}

/// One bet row carried through a whole event sequence.
pub open spec fn fold_bet_row(b: BetRecordV, evs: Seq<EventTimeoutV>) -> BetRecordV
    decreases evs.len(),
{
    if evs.len() == 0 {
        b
    } else {
        fold_bet_row(
            claim_bet_row(b, evs[0].event_address, claim_side_spec(evs[0].event_outcome)),
            evs.drop_first(),
        )
    }
}

/// The outcome of the last event of the sequence aimed at `addr`, if any.
pub open spec fn last_outcome_for(addr: Seq<char>, evs: Seq<EventTimeoutV>) -> Option<u8>
    decreases evs.len(),
{
    if evs.len() == 0 {
        None
    } else {
        match last_outcome_for(addr, evs.drop_first()) {
            Some(o) => Some(o),
            None => if evs[0].event_address == addr {
                Some(evs[0].event_outcome)
            } else {
                None
            },
        }
    }
}

/// Whether some event of the sequence claims side `bet` of event `addr`.
pub open spec fn some_event_claims(addr: Seq<char>, bet: u8, evs: Seq<EventTimeoutV>) -> bool
    decreases evs.len(),
{
    if evs.len() == 0 {
        false
    } else {
        (evs[0].event_address == addr && claim_side_spec(evs[0].event_outcome) == bet)
            || some_event_claims(addr, bet, evs.drop_first())
    }
}

/// What a folded event row is: untouched when no event aims at its address,
/// else deactivated with the last aimed outcome.
pub proof fn lemma_fold_event_row(r: EventRecordV, evs: Seq<EventTimeoutV>)
    ensures
        fold_event_row(r, evs) == (match last_outcome_for(r.address, evs) {
            None => r,
            Some(o) => EventRecordV { address: r.address, is_active: false, outcome: o },
        }),
    decreases evs.len(),
{
    if evs.len() > 0 {
        let r1 = resolve_event_row(r, evs[0].event_address, evs[0].event_outcome);
        lemma_fold_event_row(r1, evs.drop_first());
    }
}

/// What a folded bet row is: claimable once any event claims its side, and
/// otherwise untouched; its keys never change.
pub proof fn lemma_fold_bet_row(b: BetRecordV, evs: Seq<EventTimeoutV>)
    ensures
        fold_bet_row(b, evs) == (if some_event_claims(b.event_address, b.bet, evs) {
            BetRecordV { event_address: b.event_address, bet: b.bet, is_claimable: true }
        } else {
            b
        }),
    decreases evs.len(),
{
    if evs.len() > 0 {
        let b1 = claim_bet_row(b, evs[0].event_address, claim_side_spec(evs[0].event_outcome));
        lemma_fold_bet_row(b1, evs.drop_first());
    }
}

/// Projecting a sequence of events moves every row through its own fold and
/// touches nothing else.
pub proof fn lemma_apply_events_pointwise(s: StoreV, evs: Seq<EventTimeoutV>)
    ensures
        apply_events_spec(s, evs).events.len() == s.events.len(),
        apply_events_spec(s, evs).bets.len() == s.bets.len(),
        forall|j: int|
            0 <= j < s.events.len() ==> apply_events_spec(s, evs).events[j] == fold_event_row(
                s.events[j],
                evs,
            ),
        forall|j: int|
            0 <= j < s.bets.len() ==> apply_events_spec(s, evs).bets[j] == fold_bet_row(
                s.bets[j],
                evs,
            ),
    decreases evs.len(),
{
    if evs.len() > 0 {
        let s1 = apply_event_spec(s, evs[0]);
        lemma_apply_events_pointwise(s1, evs.drop_first());
    }
}

/// Re-running a whole scan is invisible: projecting the same event sequence
/// a second time returns the store it already reached.  This is what makes
/// replaying a block at or below the cursor safe.
pub proof fn lemma_reapply_events_identity(s: StoreV, evs: Seq<EventTimeoutV>)
    ensures
        apply_events_spec(apply_events_spec(s, evs), evs) == apply_events_spec(s, evs),
{
    let t = apply_events_spec(s, evs);
    let t2 = apply_events_spec(t, evs);
    lemma_apply_events_pointwise(s, evs);
    lemma_apply_events_pointwise(t, evs);
    assert forall|j: int| 0 <= j < t.events.len() implies t2.events[j] == t.events[j] by {
        lemma_fold_event_row(s.events[j], evs);
        lemma_fold_event_row(t.events[j], evs);
    }
    assert forall|j: int| 0 <= j < t.bets.len() implies t2.bets[j] == t.bets[j] by {
        lemma_fold_bet_row(s.bets[j], evs);
        lemma_fold_bet_row(t.bets[j], evs);
    }
    assert(t2.events =~= t.events);
    assert(t2.bets =~= t.bets);
}

} // verus!
