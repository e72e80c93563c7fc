use trc2ctf::events::{Event, TaskEvent};
use trc2ctf::plugin::{DriverInput, EventEnvelope, TrcPluginState};
use trc2ctf::types::{BorrowedCtfState, Message, MessageIteratorStatus};

fn envelope(event_count: u16, timestamp: u64) -> DriverInput {
    DriverInput::Event(EventEnvelope {
        event_id: 0x30,
        event_type: 0x30,
        event_type_name: "TASK_READY".to_string(),
        event_count,
        timestamp,
        event: Event::TaskReady(TaskEvent { handle: 2, name: "B".to_string(), priority: 1 }),
    })
}

#[test]
fn first_event_opens_the_stream() {
    let mut state = TrcPluginState::new(0, 32);
    let mut batch = BorrowedCtfState::new(16);
    let status = state.iterator_next(envelope(1, 100), &mut batch).unwrap();
    assert_eq!(status, MessageIteratorStatus::Messages(3));
    let (_, msgs) = batch.release();
    assert_eq!(msgs[0], Message::StreamBegin);
    assert_eq!(msgs[1], Message::PacketBegin);
    assert!(matches!(msgs[2], Message::Event(_)));
    assert!(state.stream_is_open);
    assert!(state.first_event_observed);
}

#[test]
fn later_events_skip_the_boundary_messages() {
    let mut state = TrcPluginState::new(0, 32);
    let mut batch = BorrowedCtfState::new(16);
    state.iterator_next(envelope(1, 100), &mut batch).unwrap();
    let mut batch2 = BorrowedCtfState::new(16);
    let status = state.iterator_next(envelope(2, 110), &mut batch2).unwrap();
    assert_eq!(status, MessageIteratorStatus::Messages(1));
    let (_, msgs) = batch2.release();
    assert!(matches!(msgs[0], Message::Event(_)));
}

#[test]
fn loss_marker_precedes_the_event_records() {
    let mut state = TrcPluginState::new(0, 32);
    let mut batch = BorrowedCtfState::new(16);
    state.iterator_next(envelope(1, 100), &mut batch).unwrap();
    let mut batch2 = BorrowedCtfState::new(16);
    // the counter jumps from 1 to 5: three events were dropped
    let status = state.iterator_next(envelope(5, 120), &mut batch2).unwrap();
    assert_eq!(status, MessageIteratorStatus::Messages(2));
    let (_, msgs) = batch2.release();
    assert_eq!(msgs[0], Message::DiscardedEvents(3));
    assert!(matches!(msgs[1], Message::Event(_)));
}

#[test]
fn reconstructed_count_and_timestamp_reach_the_records() {
    let mut state = TrcPluginState::new(7, 8);
    let mut batch = BorrowedCtfState::new(16);
    // raw tick 250 with 7 declared wraps of an 8-bit timer
    state.iterator_next(envelope(10, 250), &mut batch).unwrap();
    let mut batch2 = BorrowedCtfState::new(16);
    // raw tick 3: one more wrap
    state.iterator_next(envelope(11, 3), &mut batch2).unwrap();
    let (_, msgs) = batch2.release();
    match &msgs[0] {
        Message::Event(rec) => {
            assert_eq!(rec.common.event_count, 11);
            assert_eq!(rec.common.timer, 8 * 256 + 3);
            assert_eq!(rec.timestamp, 8 * 256 + 3);
        },
        _ => panic!("expected an event record"),
    }
}

#[test]
fn end_of_data_closes_the_stream_once() {
    let mut state = TrcPluginState::new(0, 32);
    let mut batch = BorrowedCtfState::new(16);
    state.iterator_next(envelope(1, 100), &mut batch).unwrap();
    let mut batch2 = BorrowedCtfState::new(16);
    let status = state.iterator_next(DriverInput::NoData, &mut batch2).unwrap();
    assert_eq!(status, MessageIteratorStatus::Messages(2));
    let (_, msgs) = batch2.release();
    assert_eq!(msgs[0], Message::PacketEnd);
    assert_eq!(msgs[1], Message::StreamEnd);
    let mut batch3 = BorrowedCtfState::new(16);
    let status = state.iterator_next(DriverInput::NoData, &mut batch3).unwrap();
    assert_eq!(status, MessageIteratorStatus::Done);
}

#[test]
fn interruption_closes_the_stream() {
    let mut state = TrcPluginState::new(0, 32);
    let mut batch = BorrowedCtfState::new(16);
    state.iterator_next(envelope(1, 100), &mut batch).unwrap();
    let mut batch2 = BorrowedCtfState::new(16);
    let status = state.iterator_next(DriverInput::Interrupted, &mut batch2).unwrap();
    assert_eq!(status, MessageIteratorStatus::Messages(2));
    let (_, msgs) = batch2.release();
    assert_eq!(msgs[0], Message::PacketEnd);
    assert_eq!(msgs[1], Message::StreamEnd);
    let mut batch3 = BorrowedCtfState::new(16);
    let status = state.iterator_next(DriverInput::Interrupted, &mut batch3).unwrap();
    assert_eq!(status, MessageIteratorStatus::Done);
}

#[test]
fn restart_reinitializes_the_trackers() {
    let mut state = TrcPluginState::new(0, 32);
    let mut batch = BorrowedCtfState::new(16);
    state.iterator_next(envelope(1, 100), &mut batch).unwrap();
    state.handle_restart();
    assert!(!state.first_event_observed);
    // an open stream with no event since the restart reports no messages
    let mut batch2 = BorrowedCtfState::new(16);
    let status = state.iterator_next(DriverInput::NoData, &mut batch2).unwrap();
    assert_eq!(status, MessageIteratorStatus::NoMessages);
    // the next event re-seeds the counter: no loss is reported even though
    // the raw count jumped
    let mut batch3 = BorrowedCtfState::new(16);
    let status = state.iterator_next(envelope(40, 500), &mut batch3).unwrap();
    assert_eq!(status, MessageIteratorStatus::Messages(1));
    let (_, msgs) = batch3.release();
    assert!(matches!(msgs[0], Message::Event(_)));
}

#[test]
fn a_batch_too_small_for_the_boundaries_is_an_error() {
    let mut state = TrcPluginState::new(0, 32);
    // the first event needs room for stream-begin, packet-begin and its record
    let mut batch = BorrowedCtfState::new(1);
    let r = state.iterator_next(envelope(1, 100), &mut batch);
    assert!(r.is_err());
}

#[test]
fn interner_and_schema_cache_survive_a_restart() {
    let mut state = TrcPluginState::new(0, 32);
    let mut batch = BorrowedCtfState::new(16);
    state.iterator_next(envelope(1, 100), &mut batch).unwrap();
    let strings_before = state.converter.string_cache.strings_len();
    let classes_before = state.converter.class_specs.len();
    state.handle_restart();
    assert_eq!(state.converter.string_cache.strings_len(), strings_before);
    assert_eq!(state.converter.class_specs.len(), classes_before);
}
