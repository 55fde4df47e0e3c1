use std::sync::mpsc;

use luuma_cursor_helper::CursorEvent;
use luuma_cursor_helper::EventBuffer;
use luuma_cursor_helper::MouseButton;
use luuma_cursor_helper::SmartEventBatcher;

const MS: u128 = 1_000_000;

fn batching_move(x: f64, y: f64) -> CursorEvent {
    CursorEvent::Move {
        position: (x.to_bits(), y.to_bits()),
        cursor_type: "arrow".to_string(),
        timestamp: "2024-05-01 10:00:00.000".to_string(),
    }
}

fn batching_down(button: MouseButton) -> CursorEvent {
    CursorEvent::Click {
        button,
        position: (0.0f64.to_bits(), 0.0f64.to_bits()),
        timestamp: "2024-05-01 10:00:00.000".to_string(),
    }
}

fn batching_up(button: MouseButton) -> CursorEvent {
    CursorEvent::Release { button, timestamp: "2024-05-01 10:00:00.001".to_string() }
}

#[test]
fn buffer_below_maximum_and_interval_releases_nothing() {
    let mut buffer = EventBuffer::new(50, 100);
    assert!(buffer.is_empty());
    for i in 0..99u32 {
        let batch = buffer.push(batching_move(i as f64, 0.0), 49 * MS + 999_999);
        assert!(batch.is_none());
    }
    assert_eq!(buffer.len(), 99);
    assert!(!buffer.is_empty());
}

#[test]
fn buffer_releases_one_batch_when_it_reaches_its_maximum() {
    let mut buffer = EventBuffer::new(50, 100);
    for i in 0..99u32 {
        assert!(buffer.push(batching_move(i as f64, 1.0), 0).is_none());
    }
    let batch = buffer.push(batching_move(99.0, 1.0), 0).expect("full buffer is released");
    assert_eq!(batch.len(), 100);
    for (i, event) in batch.iter().enumerate() {
        assert_eq!(*event, batching_move(i as f64, 1.0));
    }
    assert_eq!(buffer.len(), 0);
    assert!(buffer.push(batching_move(100.0, 1.0), 0).is_none());
    assert_eq!(buffer.len(), 1);
}

#[test]
fn buffer_releases_when_the_interval_has_passed() {
    let mut buffer = EventBuffer::new(50, 100);
    assert!(buffer.push(batching_down(MouseButton::Left), 50 * MS - 1).is_none());
    let batch = buffer.push(batching_up(MouseButton::Left), 50 * MS).expect("interval reached");
    assert_eq!(batch, vec![batching_down(MouseButton::Left), batching_up(MouseButton::Left)]);
    assert!(buffer.is_empty());
    let late = buffer.push(batching_move(1.0, 2.0), 3_600_000 * MS).expect("long past the interval");
    assert_eq!(late, vec![batching_move(1.0, 2.0)]);
}

#[test]
fn buffer_of_maximum_one_releases_every_event() {
    let mut buffer = EventBuffer::new(50, 1);
    assert_eq!(buffer.push(batching_move(1.0, 1.0), 0), Some(vec![batching_move(1.0, 1.0)]));
    assert_eq!(buffer.push(batching_move(2.0, 2.0), 0), Some(vec![batching_move(2.0, 2.0)]));
    let mut zero = EventBuffer::new(50, 0);
    assert_eq!(zero.push(batching_move(3.0, 3.0), 0), Some(vec![batching_move(3.0, 3.0)]));
    assert!(zero.is_empty());
}

#[test]
fn buffer_with_zero_interval_releases_every_event() {
    let mut buffer = EventBuffer::new(0, 100);
    assert_eq!(buffer.push(batching_move(1.0, 1.0), 0), Some(vec![batching_move(1.0, 1.0)]));
    assert_eq!(buffer.push(batching_move(2.0, 1.0), 5), Some(vec![batching_move(2.0, 1.0)]));
}

#[test]
fn buffer_with_largest_interval_does_not_overflow() {
    let mut buffer = EventBuffer::new(u64::MAX, 3);
    assert!(buffer.push(batching_move(1.0, 1.0), u64::MAX as u128 * MS - 1).is_none());
    let batch = buffer.push(batching_move(2.0, 1.0), u64::MAX as u128 * MS);
    assert_eq!(batch, Some(vec![batching_move(1.0, 1.0), batching_move(2.0, 1.0)]));
}

#[test]
fn drain_takes_everything_in_order() {
    let mut buffer = EventBuffer::new(50, 100);
    assert_eq!(buffer.drain(), None);
    buffer.push(batching_down(MouseButton::Right), 0);
    buffer.push(batching_move(4.0, 5.0), 0);
    buffer.push(batching_up(MouseButton::Right), 0);
    let batch = buffer.drain().expect("three events wait");
    assert_eq!(
        batch,
        vec![batching_down(MouseButton::Right), batching_move(4.0, 5.0), batching_up(MouseButton::Right)]
    );
    assert!(buffer.is_empty());
    assert_eq!(buffer.drain(), None);
}

#[test]
fn batches_laid_end_to_end_are_the_events_added() {
    let mut buffer = EventBuffer::new(50, 4);
    let mut out: Vec<CursorEvent> = Vec::new();
    let mut batches = 0;
    for i in 0..10u32 {
        let elapsed = if i == 6 { 50 * MS } else { 0 };
        if let Some(batch) = buffer.push(batching_move(i as f64, 7.0), elapsed) {
            batches += 1;
            out.extend(batch);
        }
    }
    assert_eq!(batches, 2);
    if let Some(rest) = buffer.drain() {
        out.extend(rest);
    }
    let expected: Vec<CursorEvent> = (0..10u32).map(|i| batching_move(i as f64, 7.0)).collect();
    assert_eq!(out, expected);
}

#[test]
fn press_move_release_is_delivered_in_order_on_force_flush() {
    let (sender, receiver) = mpsc::channel();
    let mut batcher = SmartEventBatcher::new(50, 100, sender);
    assert!(!batcher.add_event_at(batching_down(MouseButton::Left), 0));
    assert!(!batcher.add_event_at(batching_move(10.0, 10.0), 0));
    assert!(!batcher.add_event_at(batching_up(MouseButton::Left), 0));
    assert!(receiver.try_recv().is_err());
    batcher.force_flush();
    let batch = receiver.try_recv().expect("one batch was sent");
    assert_eq!(
        batch,
        vec![batching_down(MouseButton::Left), batching_move(10.0, 10.0), batching_up(MouseButton::Left)]
    );
    assert!(receiver.try_recv().is_err());
    assert_eq!(batcher.pending_len(), 0);
}

#[test]
fn quiet_adds_send_no_batch() {
    let (sender, receiver) = mpsc::channel();
    let mut batcher = SmartEventBatcher::new(50, 100, sender);
    for i in 0..99u32 {
        assert!(!batcher.add_event_at(batching_move(i as f64, 0.0), 49 * MS));
    }
    assert!(receiver.try_recv().is_err());
    assert_eq!(batcher.pending_len(), 99);
}

#[test]
fn full_batcher_sends_and_is_empty_right_after() {
    let (sender, receiver) = mpsc::channel();
    let mut batcher = SmartEventBatcher::new(50, 100, sender);
    for i in 0..99u32 {
        assert!(!batcher.add_event_at(batching_move(i as f64, 0.0), 0));
    }
    assert!(batcher.add_event_at(batching_move(99.0, 0.0), 0));
    assert_eq!(batcher.pending_len(), 0);
    let batch = receiver.try_recv().expect("the full buffer was sent");
    assert_eq!(batch.len(), 100);
    assert_eq!(batch[0], batching_move(0.0, 0.0));
    assert_eq!(batch[99], batching_move(99.0, 0.0));
    assert!(receiver.try_recv().is_err());
}

#[test]
fn batcher_flushes_on_elapsed_interval() {
    let (sender, receiver) = mpsc::channel();
    let mut batcher = SmartEventBatcher::new(50, 100, sender);
    assert!(!batcher.add_event_at(batching_move(1.0, 1.0), 50 * MS - 1));
    assert!(batcher.add_event_at(batching_move(2.0, 2.0), 50 * MS));
    assert_eq!(receiver.try_recv().unwrap(), vec![batching_move(1.0, 1.0), batching_move(2.0, 2.0)]);
}

#[test]
fn flush_restarts_the_flush_clock() {
    let (sender, receiver) = mpsc::channel();
    let mut batcher = SmartEventBatcher::new(50, 100, sender);
    assert!(batcher.add_event_at(batching_move(1.0, 1.0), 70 * MS));
    assert!(!batcher.add_event_at(batching_move(2.0, 1.0), 119 * MS));
    assert!(!batcher.add_event_at(batching_move(3.0, 1.0), 120 * MS - 1));
    assert!(batcher.add_event_at(batching_move(4.0, 1.0), 120 * MS));
    assert!(!batcher.add_event_at(batching_move(5.0, 1.0), 169 * MS));
    assert_eq!(receiver.try_recv().unwrap(), vec![batching_move(1.0, 1.0)]);
    assert_eq!(
        receiver.try_recv().unwrap(),
        vec![batching_move(2.0, 1.0), batching_move(3.0, 1.0), batching_move(4.0, 1.0)]
    );
    assert!(receiver.try_recv().is_err());
}

#[test]
fn forced_flush_restarts_the_flush_clock() {
    let (sender, receiver) = mpsc::channel();
    let mut batcher = SmartEventBatcher::new(50, 100, sender);
    assert!(!batcher.add_event_at(batching_move(1.0, 1.0), 10 * MS));
    batcher.flush_at(40 * MS);
    assert_eq!(receiver.try_recv().unwrap(), vec![batching_move(1.0, 1.0)]);
    assert!(!batcher.add_event_at(batching_move(2.0, 1.0), 89 * MS));
    assert!(batcher.add_event_at(batching_move(3.0, 1.0), 90 * MS));
    assert_eq!(receiver.try_recv().unwrap(), vec![batching_move(2.0, 1.0), batching_move(3.0, 1.0)]);
}

#[test]
fn forced_flush_of_nothing_leaves_the_flush_clock_running() {
    let (sender, receiver) = mpsc::channel();
    let mut batcher = SmartEventBatcher::new(50, 100, sender);
    batcher.flush_at(40 * MS);
    assert!(receiver.try_recv().is_err());
    assert!(!batcher.add_event_at(batching_move(1.0, 1.0), 49 * MS));
    assert!(batcher.add_event_at(batching_move(2.0, 1.0), 50 * MS));
    assert_eq!(receiver.try_recv().unwrap(), vec![batching_move(1.0, 1.0), batching_move(2.0, 1.0)]);
}

#[test]
fn flush_clock_starts_when_the_batcher_is_made() {
    let (sender, receiver) = mpsc::channel();
    let mut fresh = SmartEventBatcher::new(50, 100, sender);
    assert!(!fresh.add_event_at(batching_move(1.0, 1.0), 0));
    assert!(!fresh.add_event_at(batching_move(2.0, 1.0), 50 * MS - 1));
    assert!(fresh.add_event_at(batching_move(3.0, 1.0), 50 * MS));
    assert_eq!(receiver.try_recv().unwrap().len(), 3);
}

#[test]
fn clock_that_reads_earlier_than_the_last_flush_counts_as_no_time() {
    let (sender, receiver) = mpsc::channel();
    let mut batcher = SmartEventBatcher::new(50, 100, sender);
    assert!(batcher.add_event_at(batching_move(1.0, 1.0), 500 * MS));
    assert!(!batcher.add_event_at(batching_move(2.0, 1.0), 100 * MS));
    assert!(!batcher.add_event_at(batching_move(3.0, 1.0), 549 * MS));
    assert!(batcher.add_event_at(batching_move(4.0, 1.0), 550 * MS));
    assert_eq!(receiver.try_recv().unwrap(), vec![batching_move(1.0, 1.0)]);
    assert_eq!(receiver.try_recv().unwrap().len(), 3);
}

#[test]
fn forced_flush_on_the_batchers_own_clock_restarts_it() {
    let (sender, receiver) = mpsc::channel();
    let mut batcher = SmartEventBatcher::new(3_600_000, 100, sender);
    assert!(!batcher.add_event(batching_move(1.0, 1.0)));
    batcher.force_flush();
    assert_eq!(receiver.try_recv().unwrap(), vec![batching_move(1.0, 1.0)]);
    assert!(!batcher.add_event(batching_move(2.0, 1.0)));
    assert_eq!(batcher.pending_len(), 1);
}

#[test]
fn batcher_measures_time_on_its_own_clock() {
    let (sender, receiver) = mpsc::channel();
    let mut patient = SmartEventBatcher::new(3_600_000, 100, sender);
    assert!(!patient.add_event(batching_move(1.0, 1.0)));
    assert!(!patient.add_event(batching_move(2.0, 1.0)));
    assert!(receiver.try_recv().is_err());
    assert_eq!(patient.pending_len(), 2);

    let (sender, receiver) = mpsc::channel();
    let mut eager = SmartEventBatcher::new(0, 100, sender);
    assert!(eager.add_event(batching_move(3.0, 1.0)));
    assert_eq!(receiver.try_recv().unwrap(), vec![batching_move(3.0, 1.0)]);
    assert_eq!(eager.pending_len(), 0);
}

#[test]
fn batcher_sends_when_full_whatever_its_clock_says() {
    let (sender, receiver) = mpsc::channel();
    let mut batcher = SmartEventBatcher::new(3_600_000, 2, sender);
    assert!(!batcher.add_event(batching_down(MouseButton::Left)));
    assert!(batcher.add_event(batching_up(MouseButton::Left)));
    assert_eq!(
        receiver.try_recv().unwrap(),
        vec![batching_down(MouseButton::Left), batching_up(MouseButton::Left)]
    );
}

#[test]
fn force_flush_of_an_empty_batcher_sends_nothing() {
    let (sender, receiver) = mpsc::channel();
    let mut batcher = SmartEventBatcher::new(50, 100, sender);
    batcher.force_flush();
    batcher.flush();
    assert!(receiver.try_recv().is_err());
    batcher.add_event_at(batching_move(1.0, 1.0), 0);
    batcher.flush();
    batcher.force_flush();
    assert_eq!(receiver.try_recv().unwrap(), vec![batching_move(1.0, 1.0)]);
    assert!(receiver.try_recv().is_err());
}

#[test]
fn batches_arrive_in_the_order_in_which_they_were_flushed() {
    let (sender, receiver) = mpsc::channel();
    let mut batcher = SmartEventBatcher::new(50, 2, sender);
    for i in 0..5u32 {
        batcher.add_event_at(batching_move(i as f64, 3.0), 0);
    }
    batcher.force_flush();
    assert_eq!(receiver.try_recv().unwrap(), vec![batching_move(0.0, 3.0), batching_move(1.0, 3.0)]);
    assert_eq!(receiver.try_recv().unwrap(), vec![batching_move(2.0, 3.0), batching_move(3.0, 3.0)]);
    assert_eq!(receiver.try_recv().unwrap(), vec![batching_move(4.0, 3.0)]);
    assert!(receiver.try_recv().is_err());
}

#[test]
fn send_after_the_receiver_is_gone_is_a_silent_no_op() {
    let (sender, receiver) = mpsc::channel();
    let mut batcher = SmartEventBatcher::new(50, 2, sender);
    drop(receiver);
    assert!(!batcher.add_event_at(batching_move(1.0, 1.0), 0));
    assert!(batcher.add_event_at(batching_move(2.0, 1.0), 0));
    assert_eq!(batcher.pending_len(), 0);
    batcher.add_event_at(batching_move(3.0, 1.0), 0);
    batcher.force_flush();
    assert_eq!(batcher.pending_len(), 0);
}

#[test]
fn distinct_moves_are_not_merged() {
    let (sender, receiver) = mpsc::channel();
    let mut batcher = SmartEventBatcher::new(50, 100, sender);
    batcher.add_event_at(batching_move(1.0, 1.0), 0);
    batcher.add_event_at(batching_move(1.0, 1.0), 0);
    batcher.add_event_at(batching_move(2.0, 2.0), 0);
    batcher.force_flush();
    assert_eq!(
        receiver.try_recv().unwrap(),
        vec![batching_move(1.0, 1.0), batching_move(1.0, 1.0), batching_move(2.0, 2.0)]
    );
}
