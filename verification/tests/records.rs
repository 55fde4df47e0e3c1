use luuma_cursor_helper::AtomicCursorState;
use luuma_cursor_helper::CursorEvent;
use luuma_cursor_helper::CursorSnapshot;
use luuma_cursor_helper::CursorState;
use luuma_cursor_helper::CursorStateReader;
use luuma_cursor_helper::MouseButton;
use luuma_cursor_helper::timestamp_at;
use luuma_cursor_helper::PipelineError;

#[test]
fn new_state_record_is_at_rest() {
    let state = CursorState::new();
    assert_eq!(state.position, (0.0f64.to_bits(), 0.0f64.to_bits()));
    assert_eq!(state.position, (0, 0));
    assert_eq!(state.cursor_type, "default");
    assert!(!state.left_click);
    assert!(!state.right_click);
    assert_eq!(state.timestamp.len(), 23);
}

#[test]
fn records_clone_to_equal_values() {
    let state = CursorState {
        position: (100.0f64.to_bits(), 200.0f64.to_bits()),
        cursor_type: "arrow".to_string(),
        left_click: true,
        right_click: false,
        timestamp: "2024-05-01 10:00:00.000".to_string(),
    };
    assert_eq!(state.clone(), state);
    let events = vec![
        CursorEvent::Move {
            position: (500.0f64.to_bits(), 600.0f64.to_bits()),
            cursor_type: "hand".to_string(),
            timestamp: "t0".to_string(),
        },
        CursorEvent::Click {
            button: MouseButton::Left,
            position: (1.0f64.to_bits(), 2.0f64.to_bits()),
            timestamp: "t1".to_string(),
        },
        CursorEvent::Release { button: MouseButton::Middle, timestamp: "t2".to_string() },
        CursorEvent::TypeChange {
            new_type: "ibeam".to_string(),
            position: (3.0f64.to_bits(), 4.0f64.to_bits()),
            timestamp: "t3".to_string(),
        },
    ];
    for event in &events {
        assert_eq!(event.clone(), *event);
    }
    assert_ne!(events[0], events[1]);
}

#[test]
fn snapshot_starts_at_the_origin() {
    let snapshot = CursorSnapshot::new();
    assert_eq!(snapshot.position, (0, 0));
    assert!(!snapshot.left_down);
    assert!(!snapshot.right_down);
}

#[test]
fn shared_state_starts_at_rest() {
    let state = AtomicCursorState::new();
    assert_eq!(state.get_position(), (0, 0));
    assert!(!state.get_left_click());
    assert!(!state.get_right_click());
    assert_eq!(state.snapshot(), CursorSnapshot::new());
    let reader = state.reader();
    assert_eq!(reader.get_position(), (0, 0));
    assert!(!reader.get_left_click());
    assert!(!reader.get_right_click());
    assert_eq!(reader.snapshot(), CursorSnapshot::new());
}

#[test]
fn writer_reports_what_it_stored() {
    let mut state = AtomicCursorState::new();
    state.update_position(12.5f64.to_bits(), (-3.0f64).to_bits());
    assert_eq!(state.get_position(), (12.5f64.to_bits(), (-3.0f64).to_bits()));
    assert_eq!(f64::from_bits(state.get_position().0), 12.5);
    assert_eq!(f64::from_bits(state.get_position().1), -3.0);
    state.set_left_click(true);
    assert!(state.get_left_click());
    assert!(!state.get_right_click());
    state.set_right_click(true);
    state.set_left_click(false);
    assert!(!state.get_left_click());
    assert!(state.get_right_click());
    assert_eq!(
        state.snapshot(),
        CursorSnapshot {
            position: (12.5f64.to_bits(), (-3.0f64).to_bits()),
            left_down: false,
            right_down: true,
        }
    );
}

#[test]
fn readers_see_what_the_writer_stored() {
    let mut state = AtomicCursorState::new();
    let early = state.reader();
    state.update_position(7.0f64.to_bits(), 9.0f64.to_bits());
    state.set_left_click(true);
    let late = state.reader();
    let copy: CursorStateReader = late.clone();
    for reader in [&early, &late, &copy] {
        assert_eq!(reader.get_position(), (7.0f64.to_bits(), 9.0f64.to_bits()));
        assert!(reader.get_left_click());
        assert!(!reader.get_right_click());
        assert_eq!(reader.snapshot(), state.snapshot());
    }
    state.set_left_click(false);
    state.set_right_click(true);
    assert!(!early.get_left_click());
    assert!(early.get_right_click());
    assert_eq!(copy.snapshot(), state.snapshot());
}

#[test]
fn errors_say_what_failed() {
    let listen = PipelineError::RegistrationFailure("EventTapError".to_string());
    assert_eq!(listen.message(), "Failed to start listening: EventTapError");
    let join = PipelineError::ThreadJoinFailure("Any { .. }".to_string());
    assert_eq!(join.message(), "Failed to join thread: Any { .. }");
    assert_ne!(listen, join);
}

#[test]
fn timestamp_of_a_reading_is_date_time_and_milliseconds() {
    assert_eq!(timestamp_at(0), "1970-01-01 00:00:00.000");
    assert_eq!(timestamp_at(1), "1970-01-01 00:00:00.001");
    assert_eq!(timestamp_at(947_638_923_004), "2000-01-12 01:02:03.004");
    assert_eq!(timestamp_at(1_714_557_600_000), "2024-05-01 10:00:00.000");
    assert_eq!(timestamp_at(1_714_557_600_999), "2024-05-01 10:00:00.999");
    assert_eq!(timestamp_at(253_402_300_799_999), "9999-12-31 23:59:59.999");
}

#[test]
fn timestamp_of_a_far_year_carries_a_plus_sign() {
    assert_eq!(timestamp_at(253_402_300_800_000), "+10000-01-01 00:00:00.000");
}

#[test]
fn timestamp_beyond_what_can_be_held_is_the_start_of_1970() {
    assert_eq!(timestamp_at(i64::MAX as u128), "1970-01-01 00:00:00.000");
    assert_eq!(timestamp_at(i64::MAX as u128 + 1), "1970-01-01 00:00:00.000");
    assert_eq!(timestamp_at(u128::MAX), "1970-01-01 00:00:00.000");
}
