use teledex::models::{Envelope, Event, EventKind, TransportError};
use teledex::poller::{UpdatePoller, LONG_POLL_TIMEOUT_S};

fn other_event(id: u64) -> Event {
    Event { event_id: id, kind: EventKind::Other }
}

fn ok_envelope(ids: &[u64]) -> Envelope<Vec<Event>> {
    Envelope {
        ok: true,
        result: Some(ids.iter().map(|&id| other_event(id)).collect()),
        description: None,
    }
}

#[test]
fn cursor_starts_unset() {
    let p = UpdatePoller::new();
    assert_eq!(p.current_offset(), None);
}

#[test]
fn fetch_request_carries_cursor_and_timeout() {
    let mut p = UpdatePoller::new();
    let r = p.fetch_request();
    assert_eq!(r.path, "/getUpdates");
    assert_eq!(r.offset, None);
    assert_eq!(r.timeout_s, 20);
    assert_eq!(r.timeout_s, LONG_POLL_TIMEOUT_S);

    p.ingest(ok_envelope(&[4]));
    let r = p.fetch_request();
    assert_eq!(r.offset, Some(5));
    assert_eq!(r.path, "/getUpdates");
}

#[test]
fn cursor_is_max_plus_one_for_ascending_batch() {
    let mut p = UpdatePoller::new();
    let events = p.ingest(ok_envelope(&[1, 2, 5]));
    assert_eq!(events.len(), 3);
    assert_eq!(p.current_offset(), Some(6));
}

#[test]
fn cursor_never_decreases_across_batches() {
    let mut p = UpdatePoller::new();
    p.ingest(ok_envelope(&[5]));
    assert_eq!(p.current_offset(), Some(6));
    // A stale id cannot pull the cursor backwards.
    p.ingest(ok_envelope(&[3]));
    assert_eq!(p.current_offset(), Some(7));
}

#[test]
fn cursor_untouched_on_rejected_envelope() {
    let mut p = UpdatePoller::new();
    p.ingest(ok_envelope(&[9]));
    assert_eq!(p.current_offset(), Some(10));
    let rejected = Envelope::<Vec<Event>> {
        ok: false,
        result: None,
        description: Some(String::from("flood control")),
    };
    let events = p.ingest(rejected);
    assert_eq!(events.len(), 0);
    assert_eq!(p.current_offset(), Some(10));
}

#[test]
fn cursor_untouched_on_empty_batch() {
    let mut p = UpdatePoller::new();
    p.ingest(ok_envelope(&[9]));
    let events = p.ingest(ok_envelope(&[]));
    assert_eq!(events.len(), 0);
    assert_eq!(p.current_offset(), Some(10));
}

#[test]
fn rejected_envelope_while_cursor_unset_keeps_it_unset() {
    let mut p = UpdatePoller::new();
    let rejected = Envelope::<Vec<Event>> { ok: false, result: None, description: None };
    p.ingest(rejected);
    assert_eq!(p.current_offset(), None);
}

#[test]
fn ingest_returns_events_unchanged_in_order() {
    let mut p = UpdatePoller::new();
    let events = p.ingest(ok_envelope(&[7, 2, 11]));
    let ids: Vec<u64> = events.iter().map(|e| e.event_id).collect();
    assert_eq!(ids, vec![7, 2, 11]);
    // The fold saw 8, then 9, then 12.
    assert_eq!(p.current_offset(), Some(12));
}

#[test]
fn cursor_reaches_the_top_of_the_id_range() {
    let mut p = UpdatePoller::new();
    p.ingest(ok_envelope(&[u64::MAX - 1]));
    assert_eq!(p.current_offset(), Some(u64::MAX));
}

#[test]
fn transport_error_kinds_are_distinguishable() {
    assert!(matches!(TransportError::Network, TransportError::Network));
    assert!(matches!(TransportError::Decode, TransportError::Decode));
    assert!(!matches!(TransportError::Decode, TransportError::Network));
}
