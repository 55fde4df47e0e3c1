//! Events delivered to consumers, and the state record handed to observers.
//!
//! Coordinates are carried as the IEEE-754 bit patterns of the two `f64`
//! values that the input source reports, so that a position can be stored in
//! an atomic cell and compared for identity.

use vstd::prelude::*;
use crate::button::MouseButton;
use crate::clock::is_timestamp;
use crate::clock::timestamp_now;

verus! {

/// What happened to the pointer.
#[derive(Debug, PartialEq, Eq)]
pub enum CursorEvent {
    /// The pointer moved to a new position.
    Move { position: (u64, u64), cursor_type: String, timestamp: String },
    /// A button went down.
    Click { button: MouseButton, position: (u64, u64), timestamp: String },
    /// A button went up.
    Release { button: MouseButton, timestamp: String },
    /// The displayed cursor shape changed.
    TypeChange { new_type: String, position: (u64, u64), timestamp: String },
}

/// The mathematical content of a [`CursorEvent`].
pub ghost enum EventView {
    Move { position: (u64, u64), cursor_type: Seq<char>, timestamp: Seq<char> },
    Click { button: MouseButton, position: (u64, u64), timestamp: Seq<char> },
    Release { button: MouseButton, timestamp: Seq<char> },
    TypeChange { new_type: Seq<char>, position: (u64, u64), timestamp: Seq<char> },
}

impl EventView {
    /// This event with `timestamp` in place of its own.
    pub open spec fn stamped(self, timestamp: Seq<char>) -> EventView {
        match self {
            EventView::Move { position, cursor_type, .. } => EventView::Move {
                position,
                cursor_type,
                timestamp,
            },
            EventView::Click { button, position, .. } => EventView::Click {
                button,
                position,
                timestamp,
            },
            EventView::Release { button, .. } => EventView::Release { button, timestamp },
            EventView::TypeChange { new_type, position, .. } => EventView::TypeChange {
                new_type,
                position,
                timestamp,
            },
        }
    }

    /// When the event happened, as text.
    pub open spec fn stamp(self) -> Seq<char> {
        match self {
            EventView::Move { timestamp, .. } => timestamp,
            EventView::Click { timestamp, .. } => timestamp,
            EventView::Release { timestamp, .. } => timestamp,
            EventView::TypeChange { timestamp, .. } => timestamp,
        }
    }

    /// What the event says apart from when it happened: the event with an
    /// empty timestamp.
    pub open spec fn unstamped(self) -> EventView {
        self.stamped(Seq::empty())
    }
}

impl View for CursorEvent {
    type V = EventView;

    open spec fn view(&self) -> EventView {
        match *self {
            CursorEvent::Move { position, cursor_type, timestamp } => EventView::Move {
                position,
                cursor_type: cursor_type@,
                timestamp: timestamp@,
            },
            CursorEvent::Click { button, position, timestamp } => EventView::Click {
                button,
                position,
                timestamp: timestamp@,
            },
            CursorEvent::Release { button, timestamp } => EventView::Release {
                button,
                timestamp: timestamp@,
            },
            CursorEvent::TypeChange { new_type, position, timestamp } => EventView::TypeChange {
                new_type: new_type@,
                position,
                timestamp: timestamp@,
            },
        }
    }
}

impl Clone for CursorEvent {
    fn clone(&self) -> (copy: Self)
        ensures
            copy == *self,
    {
        match self {
            CursorEvent::Move { position, cursor_type, timestamp } => CursorEvent::Move {
                position: *position,
                cursor_type: cursor_type.clone(),
                timestamp: timestamp.clone(),
            },
            CursorEvent::Click { button, position, timestamp } => CursorEvent::Click {
                button: *button,
                position: *position,
                timestamp: timestamp.clone(),
            },
            CursorEvent::Release { button, timestamp } => CursorEvent::Release {
                button: *button,
                timestamp: timestamp.clone(),
            },
            CursorEvent::TypeChange { new_type, position, timestamp } => CursorEvent::TypeChange {
                new_type: new_type.clone(),
                position: *position,
                timestamp: timestamp.clone(),
            },
        }
    }
}

/// The contents of a sequence of events, one view per event, in order.
pub open spec fn event_views(events: Seq<CursorEvent>) -> Seq<EventView> {
    events.map_values(|e: CursorEvent| e@)
}

/// Appending an event appends its view.
pub proof fn lemma_event_views_push(events: Seq<CursorEvent>, event: CursorEvent)
    ensures
        event_views(events.push(event)) == event_views(events).push(event@),
{
    assert(event_views(events.push(event)) =~= event_views(events).push(event@));
}

/// The state of the pointer as an observer sees it.
#[derive(Debug, PartialEq, Eq)]
pub struct CursorState {
    /// Bit patterns of the pointer's x and y coordinates.
    pub position: (u64, u64),
    /// Name of the displayed cursor shape.
    pub cursor_type: String,
    /// Whether the left button is down.
    pub left_click: bool,
    /// Whether the right button is down.
    pub right_click: bool,
    /// When this record was taken.
    pub timestamp: String,
}

impl Clone for CursorState {
    fn clone(&self) -> (copy: Self)
        ensures
            copy == *self,
    {
        CursorState {
            position: self.position,
            cursor_type: self.cursor_type.clone(),
            left_click: self.left_click,
            right_click: self.right_click,
            timestamp: self.timestamp.clone(),
        }
    }
}

impl CursorState {
    /// The record at rest: origin, shape "default", no button down, stamped
    /// with the current time.
    pub fn new() -> (state: Self)
        ensures
            state.position == (0u64, 0u64),
            state.cursor_type@ == "default"@,
            !state.left_click,
            !state.right_click,
            is_timestamp(state.timestamp@),
    {
        CursorState {
            position: (0, 0),
            cursor_type: "default".to_owned(),
            left_click: false,
            right_click: false,
            timestamp: timestamp_now(),
        }
    }
}

} // verus!
