//! Decoding of raw on-chain events into the typed timed-out resolution event.
//!
//! A raw event carries an ordered sequence of field elements.  A payload with
//! at least three fields decodes to a typed event: field 0 is the subject
//! address (rendered fixed-width and normalized), field 1 the outcome code and
//! field 2 the timestamp, both read leniently with out-of-range values
//! coerced to zero.  A shorter payload is invalid and dropped.

use crate::address::{format_address, normalized};
use crate::field::{coerced_u64, coerced_u8, fixed_hex, FieldValue};
use vstd::prelude::*;

verus! {

/// A timed-out event resolution, decoded from a raw payload.
#[derive(Debug)]
pub struct EventTimeout {
    /// The subject address in canonical `0x`-prefixed 64-digit form.
    pub event_address: String,
    /// The outcome code; out-of-range payload values coerce to 0.
    pub event_outcome: u8,
    /// The resolution timestamp; out-of-range payload values coerce to 0.
    pub timestamp: u64,
}

/// The mathematical image of a decoded event.
pub ghost struct EventTimeoutV {
    pub event_address: Seq<char>,
    pub event_outcome: u8,
    pub timestamp: u64,
}

impl View for EventTimeout {
    type V = EventTimeoutV;

    open spec fn view(&self) -> EventTimeoutV {
        EventTimeoutV {
            event_address: self.event_address@,
            event_outcome: self.event_outcome,
            timestamp: self.timestamp,
        }
    }
}

/// One raw on-chain event: the ordered field elements of its payload.
pub struct RawEvent {
    pub data: Vec<FieldValue>,
}

impl RawEvent {
    pub open spec fn wf(self) -> bool {
        forall|i: int| 0 <= i < self.data@.len() ==> (#[trigger] self.data@[i]).wf()
    }
}

impl View for RawEvent {
    type V = Seq<Seq<u8>>;

    open spec fn view(&self) -> Seq<Seq<u8>> {
        self.data@.map_values(|f: FieldValue| f@)
    }
}

/// What a raw payload decodes to: a typed event for three or more fields,
/// nothing for fewer.
pub open spec fn decode_spec(fields: Seq<Seq<u8>>) -> Option<EventTimeoutV> {
    if fields.len() >= 3 {
        Some(
            EventTimeoutV {
                event_address: fixed_hex(fields[0]),
                event_outcome: coerced_u8(fields[1]),
                timestamp: coerced_u64(fields[2]),
            },
        )
    } else {
        None
    }
}

/// Normalizing an already fixed-width rendering changes nothing: it has the
/// `0x` prefix and exactly 64 digits already.
pub proof fn lemma_normalized_of_fixed_hex(s: Seq<u8>)
    requires
        s.len() == 32,
    ensures
        normalized(fixed_hex(s)) == fixed_hex(s),
{
    let h = fixed_hex(s);
    assert(h[0] == '0' && h[1] == 'x');
    assert(crate::address::strip_hex_prefix(h) =~= crate::field::hex_of_bytes(s));
    assert(normalized(h) =~= h);
}

/// Decode one raw payload: a typed event exactly when it has at least three
/// fields, its values as `decode_spec` states; never a panic, whatever the
/// field values.
pub fn parse_event_finished_event(data: &Vec<FieldValue>) -> (r: Option<EventTimeout>)
    requires
        forall|i: int| 0 <= i < data@.len() ==> (#[trigger] data@[i]).wf(),
    ensures
        r is Some <==> data@.len() >= 3,
        r matches Some(ev) ==> Some(ev@) == decode_spec(data@.map_values(|f: FieldValue| f@)),
{
    if data.len() >= 3 {
        let rendered = data[0].to_fixed_hex();
        let event_address = format_address(rendered.as_str());
        proof {
            lemma_normalized_of_fixed_hex(data@[0]@);
        }
        let event_outcome = match data[1].to_u8() {
            Some(v) => v,
            None => 0,
        };
        let timestamp = match data[2].to_u64() {
            Some(v) => v,
            None => 0,
        };
        proof {
            assert(data@.map_values(|f: FieldValue| f@)[0] == data@[0]@);
            assert(data@.map_values(|f: FieldValue| f@)[1] == data@[1]@);
            assert(data@.map_values(|f: FieldValue| f@)[2] == data@[2]@);
        }
        Some(EventTimeout { event_address, event_outcome, timestamp })
    } else {
        None
    }
}

/// The decoded projection of a sequence of raw payloads, kept in order, with
/// invalid payloads dropped.
pub open spec fn decoded_of(evs: Seq<Seq<Seq<u8>>>) -> Seq<EventTimeoutV>
    decreases evs.len(),
{
    if evs.len() == 0 {
        Seq::empty()
    } else {
        decoded_of(evs.drop_last()) + match decode_spec(evs.last()) {
            Some(e) => seq![e],
            None => Seq::empty(),
        }
    }
}

/// Decode a fetched page of raw events in order, dropping the invalid ones.
pub fn decode_events(events: &Vec<RawEvent>) -> (r: Vec<EventTimeout>)
    requires
        forall|i: int| 0 <= i < events@.len() ==> (#[trigger] events@[i]).wf(),
    ensures
        r@.map_values(|e: EventTimeout| e@) == decoded_of(
            events@.map_values(|ev: RawEvent| ev@),
        ),
{
    let ghost all = events@.map_values(|ev: RawEvent| ev@);
    let mut r: Vec<EventTimeout> = Vec::new();
    let mut i: usize = 0;
    proof {
        assert(r@.map_values(|e: EventTimeout| e@) =~= decoded_of(all.take(0)));
    }
    while i < events.len()
        invariant
            i <= events@.len(),
            all == events@.map_values(|ev: RawEvent| ev@),
            forall|j: int| 0 <= j < events@.len() ==> (#[trigger] events@[j]).wf(),
            r@.map_values(|e: EventTimeout| e@) == decoded_of(all.take(i as int)),
        decreases events@.len() - i,
    {
        let ghost before = r@.map_values(|e: EventTimeout| e@);
        if let Some(ev) = parse_event_finished_event(&events[i].data) {
            r.push(ev);
        }
        proof {
            assert(all.take(i + 1).drop_last() =~= all.take(i as int));
            assert(all.take(i + 1).last() == events@[i as int]@);
            assert(events@[i as int]@ == events@[i as int].data@.map_values(
                |f: FieldValue| f@,
            ));
            assert(r@.map_values(|e: EventTimeout| e@) =~= decoded_of(all.take(i + 1)));
        }
        i = i + 1;
    }
    proof {
        assert(all.take(events@.len() as int) =~= all);
    }
    r
}

} // verus!
