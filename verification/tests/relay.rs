use stdio_tee::error::TeeError;
use stdio_tee::relay::Relay;
use stdio_tee::relay::RelayAction;
use stdio_tee::relay::RelayEvent;
use stdio_tee::relay::CHUNK_LEN;
use stdio_tee::relay::POLL_MILLIS;

fn read_at(store: &[u8], offset: u64, limit: usize) -> Vec<u8> {
    let start = (offset as usize).min(store.len());
    let end = start.saturating_add(limit).min(store.len());
    store[start..end].to_vec()
}

/// Runs a relay over `store`; the stop flag reads as set from the
/// `stop_at`-th time it is looked at (counted from 0). Returns what reached
/// the destination, the actions in order, and the relay.
fn run_relay(store: &[u8], stop_at: usize) -> (Vec<u8>, Vec<RelayAction>, Relay) {
    let (mut relay, mut action) = Relay::start();
    let mut destination = Vec::new();
    let mut trace = Vec::new();
    let mut looks = 0;
    loop {
        let event = match &action {
            RelayAction::CheckStop => {
                looks += 1;
                RelayEvent::Flag { stop: looks > stop_at }
            }
            RelayAction::ReadAt { offset, limit } => RelayEvent::Chunk {
                bytes: read_at(store, *offset, *limit),
            },
            RelayAction::Write { bytes } => {
                destination.extend_from_slice(bytes);
                RelayEvent::Written
            }
            RelayAction::Sleep { .. } => RelayEvent::Woke,
            RelayAction::Exit { .. } => {
                trace.push(action);
                return (destination, trace, relay);
            }
        };
        assert!(relay.has_room_for(match &event {
            RelayEvent::Chunk { bytes } => bytes.len(),
            _ => 0,
        }));
        trace.push(action);
        action = relay.step(event);
    }
}

#[test]
fn relay_starts_by_checking_the_flag() {
    let (relay, action) = Relay::start();
    assert_eq!(action, RelayAction::CheckStop);
    assert_eq!(relay.offset(), 0);
    assert_eq!(relay.outcome(), None);
}

#[test]
fn relay_reads_a_chunk_at_its_offset_when_not_stopped() {
    let (mut relay, _) = Relay::start();
    let action = relay.step(RelayEvent::Flag { stop: false });
    assert_eq!(action, RelayAction::ReadAt { offset: 0, limit: 1024 });
    assert_eq!(CHUNK_LEN, 1024);
}

#[test]
fn relay_writes_exactly_what_it_read_and_advances() {
    let (mut relay, _) = Relay::start();
    relay.step(RelayEvent::Flag { stop: false });
    let action = relay.step(RelayEvent::Chunk { bytes: b"hello\n".to_vec() });
    assert_eq!(action, RelayAction::Write { bytes: b"hello\n".to_vec() });
    assert_eq!(relay.offset(), 6);
    assert_eq!(relay.step(RelayEvent::Written), RelayAction::CheckStop);
    let action = relay.step(RelayEvent::Flag { stop: false });
    assert_eq!(action, RelayAction::ReadAt { offset: 6, limit: 1024 });
}

#[test]
fn relay_pauses_when_nothing_is_new() {
    let (mut relay, _) = Relay::start();
    relay.step(RelayEvent::Flag { stop: false });
    let action = relay.step(RelayEvent::Chunk { bytes: Vec::new() });
    assert_eq!(action, RelayAction::Sleep { millis: 5 });
    assert_eq!(POLL_MILLIS, 5);
    assert_eq!(relay.offset(), 0);
    assert_eq!(relay.step(RelayEvent::Woke), RelayAction::CheckStop);
}

#[test]
fn relay_exits_cleanly_on_stop() {
    let (mut relay, _) = Relay::start();
    let action = relay.step(RelayEvent::Flag { stop: true });
    assert_eq!(action, RelayAction::Exit { outcome: Ok(()) });
    assert_eq!(relay.outcome(), Some(Ok(())));
}

#[test]
fn relay_exits_with_read_error() {
    let (mut relay, _) = Relay::start();
    relay.step(RelayEvent::Flag { stop: false });
    let action = relay.step(RelayEvent::ReadFailed);
    assert_eq!(action, RelayAction::Exit { outcome: Err(TeeError::Read) });
    assert_eq!(relay.outcome(), Some(Err(TeeError::Read)));
}

#[test]
fn relay_exits_with_write_error() {
    let (mut relay, _) = Relay::start();
    relay.step(RelayEvent::Flag { stop: false });
    relay.step(RelayEvent::Chunk { bytes: vec![1, 2, 3] });
    let action = relay.step(RelayEvent::WriteFailed);
    assert_eq!(action, RelayAction::Exit { outcome: Err(TeeError::Write) });
    assert_eq!(relay.outcome(), Some(Err(TeeError::Write)));
}

#[test]
fn relay_stays_out_once_it_has_left() {
    let (mut relay, _) = Relay::start();
    relay.step(RelayEvent::Flag { stop: false });
    relay.step(RelayEvent::Chunk { bytes: vec![9; 10] });
    relay.step(RelayEvent::WriteFailed);
    let events = vec![
        RelayEvent::Flag { stop: false },
        RelayEvent::Flag { stop: true },
        RelayEvent::Chunk { bytes: vec![1, 2] },
        RelayEvent::ReadFailed,
        RelayEvent::Written,
        RelayEvent::Woke,
    ];
    for event in events {
        let action = relay.step(event);
        assert_eq!(action, RelayAction::Exit { outcome: Err(TeeError::Write) });
        assert_eq!(relay.offset(), 10);
    }
}

#[test]
fn relay_forwards_a_long_store_in_order_and_in_chunks() {
    let store: Vec<u8> = (0..5000u32).map(|i| (i % 251) as u8).collect();
    let (destination, trace, relay) = run_relay(&store, 100);
    assert_eq!(destination, store);
    assert_eq!(relay.offset(), 5000);
    assert_eq!(relay.outcome(), Some(Ok(())));
    let writes: Vec<usize> = trace
        .iter()
        .filter_map(|action| match action {
            RelayAction::Write { bytes } => Some(bytes.len()),
            _ => None,
        })
        .collect();
    assert_eq!(writes, vec![1024, 1024, 1024, 1024, 904]);
}

#[test]
fn relay_stopped_early_forwards_a_head_of_the_store() {
    let store: Vec<u8> = (0..5000u32).map(|i| (i % 7) as u8).collect();
    let (destination, _, relay) = run_relay(&store, 2);
    assert_eq!(destination, store[..2048].to_vec());
    assert_eq!(relay.offset(), 2048);
}

#[test]
fn relay_has_room_up_to_the_largest_offset() {
    let (relay, _) = Relay::start();
    assert!(relay.has_room_for(0));
    assert!(relay.has_room_for(1024));
    assert!(relay.has_room_for(usize::MAX));
    let (mut moved, _) = Relay::start();
    moved.step(RelayEvent::Chunk { bytes: vec![0; 3] });
    assert!(moved.has_room_for(usize::MAX - 3));
    assert_eq!(moved.has_room_for(usize::MAX - 2), (usize::MAX as u128) < (u64::MAX as u128));
}

#[test]
fn relay_looks_at_the_flag_between_any_two_reads() {
    let store: Vec<u8> = vec![42; 3000];
    let (_, trace, _) = run_relay(&store, 6);
    let mut since_look = 0;
    for action in &trace {
        match action {
            RelayAction::CheckStop | RelayAction::Exit { .. } => since_look = 0,
            _ => {
                since_look += 1;
                assert!(since_look <= 2);
            }
        }
    }
    assert_eq!(trace.first(), Some(&RelayAction::CheckStop));
    assert_eq!(trace.last(), Some(&RelayAction::Exit { outcome: Ok(()) }));
    let pauses = trace.iter().filter(|action| matches!(action, RelayAction::Sleep { .. })).count();
    assert_eq!(pauses, 3);
}
