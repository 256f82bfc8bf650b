use event_sync::event::{parse_event_finished_event, EventTimeout};
use event_sync::field::FieldValue;
use event_sync::projector::{
    apply_events, claim_side, claim_write_after, resolution_write,
    update_database_for_event_finished,
};
use event_sync::store::{BetRecord, EventRecord, Store};

fn field_of_u64(v: u64) -> FieldValue {
    let mut bytes = vec![0u8; 32];
    bytes[24..32].copy_from_slice(&v.to_be_bytes());
    FieldValue::from_bytes(bytes).unwrap()
}

fn canonical(tail: &str) -> String {
    format!("0x{}{}", "0".repeat(64 - tail.len()), tail)
}

fn store_with(addr: &str) -> Store {
    Store {
        events: vec![EventRecord { address: addr.to_owned(), is_active: true, outcome: 0 }],
        bets: vec![
            BetRecord { event_address: addr.to_owned(), bet: 0, is_claimable: false },
            BetRecord { event_address: addr.to_owned(), bet: 1, is_claimable: false },
        ],
    }
}

#[test]
fn outcome_one_marks_side_one_claimable() {
    let addr = canonical("ab");
    let mut store = store_with(&addr);
    let data = vec![field_of_u64(0xab), field_of_u64(1), field_of_u64(1_700_000_000)];
    let ev = parse_event_finished_event(&data).unwrap();
    assert_eq!(ev.event_address, addr);
    update_database_for_event_finished(&ev, &mut store);
    assert!(!store.events[0].is_active);
    assert_eq!(store.events[0].outcome, 1);
    assert!(store.bets[1].is_claimable);
    assert!(!store.bets[0].is_claimable);
}

#[test]
fn other_outcome_marks_side_zero_claimable() {
    let addr = canonical("ab");
    let mut store = store_with(&addr);
    let ev = EventTimeout { event_address: addr.clone(), event_outcome: 2, timestamp: 5 };
    update_database_for_event_finished(&ev, &mut store);
    assert!(!store.events[0].is_active);
    assert_eq!(store.events[0].outcome, 2);
    assert!(store.bets[0].is_claimable);
    assert!(!store.bets[1].is_claimable);
}

#[test]
fn unrelated_rows_are_untouched() {
    let addr = canonical("ab");
    let other = canonical("cd");
    let mut store = store_with(&addr);
    store.events.push(EventRecord { address: other.clone(), is_active: true, outcome: 0 });
    store.bets.push(BetRecord { event_address: other.clone(), bet: 1, is_claimable: false });
    let ev = EventTimeout { event_address: addr, event_outcome: 1, timestamp: 5 };
    update_database_for_event_finished(&ev, &mut store);
    assert!(store.events[1].is_active);
    assert_eq!(store.events[1].outcome, 0);
    assert!(!store.bets[2].is_claimable);
}

#[test]
fn reapplying_a_scan_changes_nothing() {
    let addr_a = canonical("a1");
    let addr_b = canonical("a2");
    let mut store = Store {
        events: vec![
            EventRecord { address: addr_a.clone(), is_active: true, outcome: 0 },
            EventRecord { address: addr_b.clone(), is_active: true, outcome: 0 },
        ],
        bets: vec![
            BetRecord { event_address: addr_a.clone(), bet: 0, is_claimable: false },
            BetRecord { event_address: addr_a.clone(), bet: 1, is_claimable: false },
            BetRecord { event_address: addr_b.clone(), bet: 0, is_claimable: false },
        ],
    };
    let scanned = vec![
        EventTimeout { event_address: addr_a.clone(), event_outcome: 1, timestamp: 10 },
        EventTimeout { event_address: addr_b.clone(), event_outcome: 2, timestamp: 11 },
        EventTimeout { event_address: addr_a.clone(), event_outcome: 3, timestamp: 12 },
    ];
    apply_events(&mut store, &scanned);
    let events_once: Vec<(String, bool, u8)> = store
        .events
        .iter()
        .map(|r| (r.address.clone(), r.is_active, r.outcome))
        .collect();
    let bets_once: Vec<(String, u8, bool)> = store
        .bets
        .iter()
        .map(|r| (r.event_address.clone(), r.bet, r.is_claimable))
        .collect();
    apply_events(&mut store, &scanned);
    let events_twice: Vec<(String, bool, u8)> = store
        .events
        .iter()
        .map(|r| (r.address.clone(), r.is_active, r.outcome))
        .collect();
    let bets_twice: Vec<(String, u8, bool)> = store
        .bets
        .iter()
        .map(|r| (r.event_address.clone(), r.bet, r.is_claimable))
        .collect();
    assert_eq!(events_once, events_twice);
    assert_eq!(bets_once, bets_twice);
    assert_eq!(store.events[0].outcome, 3);
}

#[test]
fn claim_side_follows_the_outcome_rule() {
    assert_eq!(claim_side(1), 1);
    assert_eq!(claim_side(0), 0);
    assert_eq!(claim_side(2), 0);
    assert_eq!(claim_side(255), 0);
}

#[test]
fn failed_resolution_plans_no_claim_write() {
    let ev = EventTimeout { event_address: canonical("ab"), event_outcome: 1, timestamp: 5 };
    let first = resolution_write(&ev);
    assert_eq!(first.address, ev.event_address);
    assert_eq!(first.outcome, 1);
    assert!(claim_write_after(&ev, false).is_none());
}

#[test]
fn successful_resolution_plans_the_claim_write() {
    let ev = EventTimeout { event_address: canonical("ab"), event_outcome: 2, timestamp: 5 };
    let second = claim_write_after(&ev, true).unwrap();
    assert_eq!(second.event_address, ev.event_address);
    assert_eq!(second.bet, 0);
}
