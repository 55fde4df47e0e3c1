//! Capture of pointer input as a stream of events.
//!
//! A producer feeds raw signals of the pointing device to a
//! [`CursorDetector`]. The detector keeps the pointer state, decides with an
//! [`AtomicDebouncer`] when the displayed cursor shape is worth looking up,
//! and hands the resulting [`CursorEvent`]s to a [`SmartEventBatcher`], which
//! sends them in batches over a channel. On the other side an
//! [`EventDispatcher`] waits for batches and calls the registered handler
//! once per event, in order.

pub mod batcher;
pub mod button;
pub mod callback;
pub mod channel;
pub mod clock;
pub mod debouncer;
pub mod detector;
pub mod dispatcher;
pub mod event;
pub mod pipeline;
pub mod shape;
pub mod state;

pub use batcher::EventBuffer;
pub use batcher::SmartEventBatcher;
pub use button::MouseButton;
pub use channel::Received;
pub use clock::timestamp_at;
pub use debouncer::AtomicDebouncer;
pub use callback::CursorCallback;
pub use detector::CursorDetector;
pub use pipeline::PipelineConfig;
pub use pipeline::PipelineError;
pub use pipeline::RawInput;
pub use pipeline::Reaction;
pub use dispatcher::dispatch;
pub use dispatcher::process_batch;
pub use dispatcher::process_events_with_timeout;
pub use dispatcher::CursorEventHandler;
pub use dispatcher::DispatcherState;
pub use dispatcher::EventDispatcher;
pub use event::CursorEvent;
pub use event::CursorState;
pub use shape::get_cached_cursor_type;
pub use shape::get_cursor_type_static;
pub use shape::init_cursor_cache;
pub use shape::same_text;
pub use shape::shape_label;
pub use shape::CursorLoad;
pub use shape::CursorTable;
pub use state::AtomicCursorState;
pub use state::CursorSnapshot;
pub use state::CursorStateReader;
