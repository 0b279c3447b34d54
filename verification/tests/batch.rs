use roadsense::batch::{BatchAccumulator, BatchAction, BatchEvent, FlushTrigger};
use roadsense::config::ConfigError;
use roadsense::double::Double;
use roadsense::message::JsonMessage;

fn sample_at(device: &str, timestamp: i64) -> JsonMessage {
    JsonMessage {
        lat: Double::from_bits(45.5f64.to_bits()),
        lon: Double::from_bits(9.25f64.to_bits()),
        timestamp,
        device_id: device.to_string(),
        bumpiness: 3,
    }
}

#[test]
fn single_message_is_flushed_once_by_the_timeout() {
    let mut acc = BatchAccumulator::new(2, 10_000).unwrap();
    let first = sample_at("a", 1);
    assert_eq!(
        acc.step(BatchEvent::Message { at: 0, message: first.clone() }),
        BatchAction::Wait
    );
    assert_eq!(acc.time_to_deadline(0), Some(10_000));
    assert_eq!(acc.time_to_deadline(4_000), Some(6_000));
    assert_eq!(acc.step(BatchEvent::Tick { at: 9_999 }), BatchAction::Wait);
    assert_eq!(
        acc.step(BatchEvent::Tick { at: 10_000 }),
        BatchAction::Flush { batch: vec![first], trigger: FlushTrigger::TimedOut }
    );
    assert!(acc.is_empty());
    assert_eq!(acc.step(BatchEvent::Tick { at: 20_000 }), BatchAction::Wait);
    assert_eq!(acc.step(BatchEvent::Tick { at: 30_000 }), BatchAction::Wait);
}

#[test]
fn two_messages_are_flushed_by_size_without_a_timeout_flush() {
    let mut acc = BatchAccumulator::new(2, 10_000).unwrap();
    let first = sample_at("a", 1);
    let second = sample_at("b", 2);
    assert_eq!(
        acc.step(BatchEvent::Message { at: 0, message: first.clone() }),
        BatchAction::Wait
    );
    assert_eq!(
        acc.step(BatchEvent::Message { at: 100, message: second.clone() }),
        BatchAction::Flush { batch: vec![first, second], trigger: FlushTrigger::SizeFull }
    );
    assert_eq!(acc.len(), 0);
    assert_eq!(acc.time_to_deadline(100), None);
    assert_eq!(acc.step(BatchEvent::Tick { at: 10_000 }), BatchAction::Wait);
    assert_eq!(acc.step(BatchEvent::Tick { at: 10_100 }), BatchAction::Wait);
}

#[test]
fn zero_batch_size_is_refused() {
    assert_eq!(BatchAccumulator::new(0, 10_000).err(), Some(ConfigError::InvalidBatchSize));
}

#[test]
fn tick_on_an_empty_batch_does_nothing() {
    let mut acc = BatchAccumulator::new(50, 10_000).unwrap();
    assert_eq!(acc.step(BatchEvent::Tick { at: 0 }), BatchAction::Wait);
    assert_eq!(acc.step(BatchEvent::Tick { at: 1_000_000 }), BatchAction::Wait);
    assert!(acc.is_empty());
    assert!(!acc.is_terminated());
}

#[test]
fn batch_of_one_flushes_every_message() {
    let mut acc = BatchAccumulator::new(1, 10_000).unwrap();
    for k in 0..3 {
        let m = sample_at("solo", k);
        assert_eq!(
            acc.step(BatchEvent::Message { at: 5, message: m.clone() }),
            BatchAction::Flush { batch: vec![m], trigger: FlushTrigger::SizeFull }
        );
        assert_eq!(acc.len(), 0);
    }
}

#[test]
fn timeout_counts_from_the_first_message_of_the_batch() {
    let mut acc = BatchAccumulator::new(5, 10_000).unwrap();
    let a = sample_at("a", 1);
    let b = sample_at("b", 2);
    assert_eq!(acc.step(BatchEvent::Message { at: 1_000, message: a.clone() }), BatchAction::Wait);
    assert_eq!(acc.step(BatchEvent::Message { at: 9_000, message: b.clone() }), BatchAction::Wait);
    assert_eq!(acc.time_to_deadline(9_000), Some(2_000));
    assert_eq!(acc.step(BatchEvent::Tick { at: 10_999 }), BatchAction::Wait);
    assert_eq!(acc.time_to_deadline(11_000), Some(0));
    assert_eq!(
        acc.step(BatchEvent::Tick { at: 11_000 }),
        BatchAction::Flush { batch: vec![a, b], trigger: FlushTrigger::TimedOut }
    );
}

#[test]
fn late_message_finds_the_old_batch_flushed() {
    let mut acc = BatchAccumulator::new(2, 10_000).unwrap();
    let a = sample_at("a", 1);
    let b = sample_at("b", 2);
    let c = sample_at("c", 3);
    assert_eq!(acc.step(BatchEvent::Message { at: 0, message: a.clone() }), BatchAction::Wait);
    assert_eq!(
        acc.step(BatchEvent::Message { at: 12_000, message: b.clone() }),
        BatchAction::Flush { batch: vec![a], trigger: FlushTrigger::TimedOut }
    );
    assert_eq!(acc.len(), 1);
    assert_eq!(acc.time_to_deadline(12_000), Some(10_000));
    assert_eq!(
        acc.step(BatchEvent::Message { at: 12_001, message: c.clone() }),
        BatchAction::Flush { batch: vec![b, c], trigger: FlushTrigger::SizeFull }
    );
}

#[test]
fn closing_drains_a_partial_batch_once() {
    let mut acc = BatchAccumulator::new(10, 10_000).unwrap();
    let a = sample_at("a", 1);
    let b = sample_at("b", 2);
    acc.step(BatchEvent::Message { at: 0, message: a.clone() });
    acc.step(BatchEvent::Message { at: 1, message: b.clone() });
    assert_eq!(
        acc.step(BatchEvent::Closed),
        BatchAction::Flush { batch: vec![a, b], trigger: FlushTrigger::Draining }
    );
    assert!(acc.is_terminated());
    assert!(acc.is_empty());
    assert_eq!(acc.step(BatchEvent::Closed), BatchAction::Stop);
    assert_eq!(acc.step(BatchEvent::Tick { at: 50_000 }), BatchAction::Stop);
    assert_eq!(
        acc.step(BatchEvent::Message { at: 50_001, message: sample_at("late", 9) }),
        BatchAction::Stop
    );
    assert!(acc.is_empty());
}

#[test]
fn closing_an_empty_accumulator_stops_at_once() {
    let mut acc = BatchAccumulator::new(10, 10_000).unwrap();
    assert_eq!(acc.step(BatchEvent::Closed), BatchAction::Stop);
    assert!(acc.is_terminated());
}

#[test]
fn clock_that_runs_backwards_counts_as_no_idle_time() {
    let mut acc = BatchAccumulator::new(3, 1_000).unwrap();
    acc.step(BatchEvent::Message { at: 5_000, message: sample_at("a", 1) });
    assert_eq!(acc.step(BatchEvent::Tick { at: 10 }), BatchAction::Wait);
    assert_eq!(acc.time_to_deadline(10), Some(1_000));
}

#[test]
fn zero_timeout_flushes_on_the_next_tick() {
    let mut acc = BatchAccumulator::new(3, 0).unwrap();
    let a = sample_at("a", 1);
    assert_eq!(acc.step(BatchEvent::Message { at: 7, message: a.clone() }), BatchAction::Wait);
    assert_eq!(
        acc.step(BatchEvent::Tick { at: 7 }),
        BatchAction::Flush { batch: vec![a], trigger: FlushTrigger::TimedOut }
    );
}

#[test]
fn accessors_report_the_configuration() {
    let acc = BatchAccumulator::new(50, 10_000).unwrap();
    assert_eq!(acc.batch_size(), 50);
    assert_eq!(acc.idle_timeout(), 10_000);
    assert_eq!(acc.len(), 0);
}

#[test]
fn every_message_leaves_in_exactly_one_flush_in_order() {
    let mut acc = BatchAccumulator::new(3, 1_000).unwrap();
    let mut sent = Vec::new();
    let mut flushed = Vec::new();
    let mut now = 0u64;
    for k in 0..20i64 {
        now += if k % 4 == 0 { 1_500 } else { 100 };
        let m = sample_at("dev", k);
        sent.push(m.clone());
        if let BatchAction::Flush { batch, .. } = acc.step(BatchEvent::Message { at: now, message: m }) {
            assert!(!batch.is_empty() && batch.len() <= 3);
            flushed.extend(batch);
        }
        assert!(acc.len() < 3);
    }
    if let BatchAction::Flush { batch, trigger } = acc.step(BatchEvent::Closed) {
        assert_eq!(trigger, FlushTrigger::Draining);
        flushed.extend(batch);
    }
    assert_eq!(flushed, sent);
}
