//! The pipeline's controller: it turns raw input into events on the
//! producer's side, owns the batcher, and starts and stops the pipeline.
//!
//! The controller is the only writer of the pointer state and decides on
//! what it stored last, so that what it does is a function of its inputs.
//! Readers on other threads get a [`CursorStateReader`].

use vstd::prelude::*;
use std::sync::Arc;
use std::sync::atomic::AtomicBool;
use std::sync::atomic::Ordering;
use crate::batcher::BatcherView;
use crate::batcher::SmartEventBatcher;
use crate::batcher::added;
use crate::batcher::flushed;
use crate::button::MouseButton;
use crate::callback::CursorCallback;
use crate::channel::open_channel;
use crate::clock::is_timestamp;
use crate::clock::stamp_text;
use crate::clock::timestamp_now;
use crate::debouncer::AtomicDebouncer;
use crate::debouncer::DebouncerView;
use crate::debouncer::lookup_due;
use crate::dispatcher::CursorEventHandler;
use crate::dispatcher::EventDispatcher;
use crate::dispatcher::same_function;
use crate::event::CursorEvent;
use crate::event::CursorState;
use crate::event::EventView;
use crate::pipeline::PipelineConfig;
use crate::pipeline::RawInput;
use crate::pipeline::Reaction;
use crate::pipeline::default_config;
use crate::shape::CursorTable;
use crate::shape::probe_label;
use crate::shape::shape_label;
use crate::state::AtomicCursorState;
use crate::state::CursorSnapshot;
use crate::state::CursorStateReader;

verus! {

/// The state of a [`CursorDetector`].
pub ghost struct DetectorView {
    /// Whether the pipeline is running.
    pub running: bool,
    /// Whether raw input is turned into events: whether a callback or a
    /// handler was registered when the pipeline was started.
    pub emitting: bool,
    /// The registered callback, if any.
    pub callback: Option<CursorCallback>,
    /// The registered handler, until it is handed to a consumer.
    pub event_handler: Option<CursorEventHandler>,
    /// The pointer state that was stored last.
    pub snapshot: CursorSnapshot,
    /// The state of the shape debouncer.
    pub debouncer: DebouncerView,
    /// The label of the cursor shape as it was looked up last: "default"
    /// before the first lookup, "error" after a lookup that failed.
    pub shape: Seq<char>,
    /// The state of the batcher, once the pipeline has been started.
    pub batcher: Option<BatcherView>,
    /// The rows of the shape table.
    pub table: Seq<(u64, Seq<char>)>,
    /// Whether a consumer was handed out that nobody has been told to
    /// join yet.
    pub worker_pending: bool,
    /// The settings.
    pub config: PipelineConfig,
}

/// The state of a controller that has not been started: at rest, with
/// nothing registered, naming shapes by `table` and set up with `config`.
pub open spec fn unstarted(table: Seq<(u64, Seq<char>)>, config: PipelineConfig) -> DetectorView {
    DetectorView {
        running: false,
        emitting: false,
        callback: None,
        event_handler: None,
        snapshot: CursorSnapshot { position: (0u64, 0u64), left_down: false, right_down: false },
        debouncer: DebouncerView {
            last_check_ms: 0,
            interval_ms: config.debounce_interval_ms,
            last_cursor_handle: 0,
        },
        shape: "default"@,
        batcher: None,
        table,
        worker_pending: false,
        config,
    }
}

/// Whether the raw signal `raw`, taken at `now_ms`, makes the pipeline
/// look up the displayed cursor: the pipeline is running, it turns input
/// into events, the signal moves the pointer to a new position, and a
/// lookup is due. Only then does the pipeline use the probe it is handed.
pub open spec fn wants_probe(pre: DetectorView, raw: RawInput, now_ms: u64) -> bool {
    &&& pre.running
    &&& pre.emitting
    &&& raw matches RawInput::MouseMove { x, y }
    &&& (x, y) != pre.snapshot.position
    &&& lookup_due(pre.debouncer.last_check_ms, now_ms, pre.debouncer.interval_ms)
}

/// The debouncer after a lookup at `now_ms` that gave `probe`: the time is
/// remembered, and so is the handle, where the probe found one.
pub open spec fn debouncer_after_lookup(pre: DebouncerView, now_ms: u64, probe: Option<u64>) -> DebouncerView {
    DebouncerView {
        last_check_ms: now_ms,
        last_cursor_handle: match probe {
            Some(handle) => handle,
            None => pre.last_cursor_handle,
        },
        ..pre
    }
}

/// Whether a lookup that gave `probe` found a new cursor shape: the probe
/// found a handle, and it is not the handle seen last.
pub open spec fn shape_changes(pre: DebouncerView, probe: Option<u64>) -> bool {
    &&& probe matches Some(handle)
    &&& handle != pre.last_cursor_handle
}

/// What the raw signal `raw`, taken at `now_ms`, changes.
pub open spec fn reaction_to(pre: DetectorView, raw: RawInput, now_ms: u64, probe: Option<u64>) -> Reaction {
    if !pre.running {
        Reaction::Ignored
    } else {
        match raw {
            RawInput::MouseMove { x, y } => if (x, y) == pre.snapshot.position {
                Reaction::Ignored
            } else {
                Reaction::Moved {
                    position: (x, y),
                    type_changed: wants_probe(pre, raw, now_ms) && shape_changes(pre.debouncer, probe),
                }
            },
            RawInput::ButtonPress(MouseButton::Left) => if pre.snapshot.left_down {
                Reaction::Ignored
            } else {
                Reaction::Pressed { button: MouseButton::Left, position: pre.snapshot.position }
            },
            RawInput::ButtonPress(MouseButton::Right) => if pre.snapshot.right_down {
                Reaction::Ignored
            } else {
                Reaction::Pressed { button: MouseButton::Right, position: pre.snapshot.position }
            },
            RawInput::ButtonRelease(MouseButton::Left) => if pre.snapshot.left_down {
                Reaction::Released { button: MouseButton::Left }
            } else {
                Reaction::Ignored
            },
            RawInput::ButtonRelease(MouseButton::Right) => if pre.snapshot.right_down {
                Reaction::Released { button: MouseButton::Right }
            } else {
                Reaction::Ignored
            },
            _ => Reaction::Ignored,
        }
    }
}

/// The pointer state after the raw signal `raw`.
pub open spec fn snapshot_after(pre: DetectorView, raw: RawInput) -> CursorSnapshot {
    if !pre.running {
        pre.snapshot
    } else {
        match raw {
            RawInput::MouseMove { x, y } => CursorSnapshot { position: (x, y), ..pre.snapshot },
            RawInput::ButtonPress(MouseButton::Left) => CursorSnapshot {
                left_down: true,
                ..pre.snapshot
            },
            RawInput::ButtonPress(MouseButton::Right) => CursorSnapshot {
                right_down: true,
                ..pre.snapshot
            },
            RawInput::ButtonRelease(MouseButton::Left) => CursorSnapshot {
                left_down: false,
                ..pre.snapshot
            },
            RawInput::ButtonRelease(MouseButton::Right) => CursorSnapshot {
                right_down: false,
                ..pre.snapshot
            },
            _ => pre.snapshot,
        }
    }
}

/// The controller after the raw signal `raw`, taken at `now_ms`, apart
/// from its batcher.
pub open spec fn state_after_input(pre: DetectorView, raw: RawInput, now_ms: u64, probe: Option<u64>) -> DetectorView {
    DetectorView {
        snapshot: snapshot_after(pre, raw),
        debouncer: if wants_probe(pre, raw, now_ms) {
            debouncer_after_lookup(pre.debouncer, now_ms, probe)
        } else {
            pre.debouncer
        },
        shape: if wants_probe(pre, raw, now_ms) {
            probe_label(pre.table, probe)
        } else {
            pre.shape
        },
        ..pre
    }
}

/// The events that a reaction gives rise to, in the order in which they are
/// emitted and without their timestamps, where the cursor shape was last
/// looked up as `shape`. A move first reports a change of shape, if there is
/// one, then itself. Nothing is emitted where the pipeline does not turn
/// input into events.
pub open spec fn payloads_of(emitting: bool, shape: Seq<char>, reaction: Reaction) -> Seq<EventView> {
    if !emitting {
        Seq::empty()
    } else {
        match reaction {
            Reaction::Ignored => Seq::empty(),
            Reaction::Moved { position, type_changed } => {
                let moved = EventView::Move { position, cursor_type: shape, timestamp: Seq::empty() };
                if type_changed {
                    seq![
                        EventView::TypeChange { new_type: shape, position, timestamp: Seq::empty() },
                        moved,
                    ]
                } else {
                    seq![moved]
                }
            },
            Reaction::Pressed { button, position } => seq![
                EventView::Click { button, position, timestamp: Seq::empty() },
            ],
            Reaction::Released { button } => seq![
                EventView::Release { button, timestamp: Seq::empty() },
            ],
        }
    }
}

/// Whether `post` is `pre` after one event with the content `payload`,
/// stamped with whatever time it was, has been added to it.
pub open spec fn enqueued_one(pre: BatcherView, post: BatcherView, payload: EventView) -> bool {
    exists|event: EventView, did_flush: bool|
        event.unstamped() == payload && is_timestamp(event.stamp()) && #[trigger] added(
            pre,
            post,
            event,
            did_flush,
        )
}

/// Whether `post` is `pre` after events with the contents `payloads`, at
/// most two of them, have been added to it in order. A controller that was
/// never started has no batcher and keeps none.
pub open spec fn enqueued(pre: Option<BatcherView>, post: Option<BatcherView>, payloads: Seq<EventView>) -> bool {
    match pre {
        None => post is None,
        Some(before) => {
            &&& post is Some
            &&& payloads.len() == 0 ==> post->0 == before
            &&& payloads.len() == 1 ==> enqueued_one(before, post->0, payloads[0])
            &&& payloads.len() == 2 ==> exists|between: BatcherView|
                #[trigger] enqueued_one(before, between, payloads[0]) && enqueued_one(
                    between,
                    post->0,
                    payloads[1],
                )
        },
    }
}

/// Whether `post` is what stopping makes of `pre`: the pipeline is not
/// running, what the batcher held was flushed, nobody is left to join, and
/// nothing else has changed.
pub open spec fn stopped_from(pre: DetectorView, post: DetectorView) -> bool {
    &&& post == (DetectorView { running: false, worker_pending: false, batcher: post.batcher, ..pre })
    &&& match pre.batcher {
        None => post.batcher is None,
        Some(before) => post.batcher is Some && flushed(before, post.batcher->0),
    }
}

/// Watches the pointer: turns raw input into events, batches them, and
/// hands the consumer's end of the pipeline to whoever runs it.
pub struct CursorDetector {
    atomic_state: AtomicCursorState,
    callback: Option<CursorCallback>,
    event_handler: Option<CursorEventHandler>,
    event_batcher: Option<SmartEventBatcher>,
    cursor_debouncer: AtomicDebouncer,
    cursor_table: CursorTable,
    shape_label: String,
    running: Arc<AtomicBool>,
    active: bool,
    emitting: bool,
    worker_pending: bool,
    config: PipelineConfig,
}

impl View for CursorDetector {
    type V = DetectorView;

    closed spec fn view(&self) -> DetectorView {
        DetectorView {
            running: self.active,
            emitting: self.emitting,
            callback: self.callback,
            event_handler: self.event_handler,
            snapshot: self.atomic_state@,
            debouncer: self.cursor_debouncer@,
            shape: self.shape_label@,
            batcher: match self.event_batcher {
                Some(batcher) => Some(batcher@),
                None => None,
            },
            table: self.cursor_table@,
            worker_pending: self.worker_pending,
            config: self.config,
        }
    }
}

impl CursorDetector {
    /// A stopped controller with the default settings and an empty shape
    /// table, for which every cursor is a custom shape.
    pub fn new() -> (detector: Self)
        ensures
            detector@ == unstarted(Seq::empty(), default_config()),
    {
        Self::with_table(CursorTable::new(), PipelineConfig::default())
    }

    /// A stopped controller that names cursor shapes by `cursor_table` and
    /// runs with the settings `config`.
    pub fn with_table(cursor_table: CursorTable, config: PipelineConfig) -> (detector: Self)
        ensures
            detector@ == unstarted(cursor_table@, config),
    {
        CursorDetector {
            atomic_state: AtomicCursorState::new(),
            callback: None,
            event_handler: None,
            event_batcher: None,
            cursor_debouncer: AtomicDebouncer::new(config.debounce_interval_ms),
            cursor_table,
            shape_label: "default".to_owned(),
            running: Arc::new(AtomicBool::new(false)),
            active: false,
            emitting: false,
            worker_pending: false,
            config,
        }
    }

    /// Registers the callback for state changes, in place of any earlier
    /// one.
    pub fn set_callback<F>(&mut self, callback: F) where F: Fn(&CursorState, &str) + Send + 'static
        requires
            forall|state: &CursorState, event: &str| call_requires(callback, (state, event)),
        ensures
            final(self)@ == (DetectorView { callback: final(self)@.callback, ..old(self)@ }),
            final(self)@.callback is Some,
            forall|state: &CursorState, event: &str|
                #[trigger] final(self)@.callback->0.promises(state, event) == call_ensures(
                    callback,
                    (state, event),
                    (),
                ),
    {
        self.callback = Some(CursorCallback::new(callback));
    }

    /// Registers the handler for events, in place of any earlier one.
    pub fn set_event_handler<F>(&mut self, handler: F) where F: Fn(CursorEvent) + Send + 'static
        requires
            forall|event: CursorEvent| call_requires(handler, (event,)),
        ensures
            final(self)@ == (DetectorView { event_handler: final(self)@.event_handler, ..old(self)@ }),
            final(self)@.event_handler is Some,
            final(self)@.event_handler->0.delivered() == Seq::<EventView>::empty(),
            forall|event: CursorEvent|
                #[trigger] final(self)@.event_handler->0.promises(event) == call_ensures(
                    handler,
                    (event,),
                    (),
                ),
    {
        self.event_handler = Some(CursorEventHandler::new(handler));
    }

    /// The current time in UTC as text, in the form
    /// `2024-05-01 10:00:00.000`: the timestamp of what the system clock
    /// shows, whatever that is. A clock set before 1970 reads as the start
    /// of 1970.
    pub fn get_timestamp() -> (stamp: String)
        ensures
            exists|millis: nat| stamp@ == #[trigger] stamp_text(millis),
            is_timestamp(stamp@),
    {
        timestamp_now()
    }

    /// The label for a probe of the displayed cursor: the shape name that
    /// `cache` gives for the handle that the probe found, or "error" where
    /// the probe failed.
    pub fn get_cursor_type(cache: &CursorTable, probe: Option<u64>) -> (label: String)
        ensures
            label@ == probe_label(cache@, probe),
    {
        shape_label(cache, probe)
    }

    /// The pointer state as of now: the position and buttons that were
    /// stored last, the label of `probe`, and the current time.
    pub fn get_state(&self, probe: Option<u64>) -> (state: CursorState)
        ensures
            state.position == self@.snapshot.position,
            state.cursor_type@ == probe_label(self@.table, probe),
            state.left_click == self@.snapshot.left_down,
            state.right_click == self@.snapshot.right_down,
            is_timestamp(state.timestamp@),
    {
        CursorState {
            position: self.atomic_state.get_position(),
            cursor_type: shape_label(&self.cursor_table, probe),
            left_click: self.atomic_state.get_left_click(),
            right_click: self.atomic_state.get_right_click(),
            timestamp: timestamp_now(),
        }
    }

    /// Whether a callback or a handler is registered.
    pub fn has_handlers(&self) -> (any: bool)
        ensures
            any == (self@.callback is Some || self@.event_handler is Some),
    {
        self.event_handler.is_some() || self.callback.is_some()
    }

    /// Whether the pipeline is running.
    pub fn is_running(&self) -> (running: bool)
        ensures
            running == self@.running,
    {
        self.active
    }

    /// The number of events that wait in the batcher.
    pub fn pending_events(&self) -> (n: usize)
        ensures
            n == match self@.batcher {
                Some(batcher) => batcher.pending.len(),
                None => 0,
            },
    {
        match &self.event_batcher {
            Some(batcher) => batcher.pending_len(),
            None => 0,
        }
    }

    /// The registered callback, if any.
    pub fn callback(&self) -> (callback: &Option<CursorCallback>)
        ensures
            *callback == self@.callback,
    {
        &self.callback
    }

    /// The label of the cursor shape as it was looked up last.
    pub fn current_shape(&self) -> (shape: &str)
        ensures
            shape@ == self@.shape,
    {
        self.shape_label.as_str()
    }

    /// The shape table.
    pub fn cursor_table(&self) -> (table: &CursorTable)
        ensures
            table@ == self@.table,
    {
        &self.cursor_table
    }

    /// The writing end of the pointer state, into which the controller
    /// stores what it reports as its snapshot.
    pub closed spec fn pointer_state(&self) -> AtomicCursorState {
        self.atomic_state
    }

    /// A reading end on the pointer state that the controller publishes,
    /// for another thread: it loads from the cells into which the
    /// controller stores.
    pub fn shared_state(&self) -> (reader: CursorStateReader)
        ensures
            reader.reads_from(&self.pointer_state()),
            self.pointer_state()@ == self@.snapshot,
    {
        self.atomic_state.reader()
    }

    /// Whether `raw`, taken at `now_ms` milliseconds, makes the pipeline
    /// look up the displayed cursor, so that the caller has to probe it
    /// before it hands `raw` in. The debouncer sees to it that this happens
    /// at most once per interval.
    pub fn needs_probe(&self, raw: &RawInput, now_ms: u64) -> (needed: bool)
        ensures
            needed == wants_probe(self@, *raw, now_ms),
    {
        match raw {
            RawInput::MouseMove { x, y } => {
                let position = self.atomic_state.get_position();
                self.active && self.emitting && !(*x == position.0 && *y == position.1)
                    && self.cursor_debouncer.is_due(now_ms)
            },
            _ => false,
        }
    }
}

impl CursorDetector {
    /// Stores `running` in the flag that the consumer reads.
    fn signal_running(&self, running: bool) {
        self.running.store(running, Ordering::Relaxed);
    }

    /// Applies `raw` to the pointer state and the debouncer and says what
    /// changed. Emits nothing.
    fn react(&mut self, raw: RawInput, now_ms: u64, probe: Option<u64>) -> (reaction: Reaction)
        ensures
            reaction == reaction_to(old(self)@, raw, now_ms, probe),
            final(self)@ == state_after_input(old(self)@, raw, now_ms, probe),
    {
        if !self.active {
            return Reaction::Ignored;
        }
        match raw {
            RawInput::MouseMove { x, y } => {
                let position = self.atomic_state.get_position();
                if x == position.0 && y == position.1 {
                    return Reaction::Ignored;
                }
                self.atomic_state.update_position(x, y);
                let mut type_changed = false;
                if self.emitting {
                    if self.cursor_debouncer.should_check(now_ms) {
                        if let Some(handle) = probe {
                            type_changed = self.cursor_debouncer.has_changed(handle);
                        }
                        self.shape_label = shape_label(&self.cursor_table, probe);
                    }
                }
                Reaction::Moved { position: (x, y), type_changed }
            },
            RawInput::ButtonPress(MouseButton::Left) => {
                if self.atomic_state.get_left_click() {
                    return Reaction::Ignored;
                }
                self.atomic_state.set_left_click(true);
                Reaction::Pressed {
                    button: MouseButton::Left,
                    position: self.atomic_state.get_position(),
                }
            },
            RawInput::ButtonPress(MouseButton::Right) => {
                if self.atomic_state.get_right_click() {
                    return Reaction::Ignored;
                }
                self.atomic_state.set_right_click(true);
                Reaction::Pressed {
                    button: MouseButton::Right,
                    position: self.atomic_state.get_position(),
                }
            },
            RawInput::ButtonRelease(MouseButton::Left) => {
                if !self.atomic_state.get_left_click() {
                    return Reaction::Ignored;
                }
                self.atomic_state.set_left_click(false);
                Reaction::Released { button: MouseButton::Left }
            },
            RawInput::ButtonRelease(MouseButton::Right) => {
                if !self.atomic_state.get_right_click() {
                    return Reaction::Ignored;
                }
                self.atomic_state.set_right_click(false);
                Reaction::Released { button: MouseButton::Right }
            },
            _ => Reaction::Ignored,
        }
    }

    /// Adds `event` to the batcher, if there is one.
    fn enqueue(&mut self, event: CursorEvent)
        ensures
            final(self)@ == (DetectorView { batcher: final(self)@.batcher, ..old(self)@ }),
            match old(self)@.batcher {
                None => final(self)@.batcher is None,
                Some(before) => final(self)@.batcher is Some && exists|did_flush: bool|
                    added(before, final(self)@.batcher->0, event@, did_flush),
            },
    {
        let ghost before = self@.batcher;
        let ghost content = event@;
        let mut did_flush = false;
        match &mut self.event_batcher {
            Some(batcher) => {
                did_flush = batcher.add_event(event);
            },
            None => {},
        }
        proof {
            if before is Some {
                assert(added(before->0, self@.batcher->0, content, did_flush));
            }
        }
    }

    /// Takes one raw signal of the pointing device, read at `now_ms`
    /// milliseconds, with the outcome `probe` of looking at the displayed
    /// cursor (the handle found, or none where the look failed). The probe
    /// is used only where [`Self::needs_probe`] asks for one.
    ///
    /// A stopped pipeline ignores the signal. Otherwise a move to a new
    /// position, a press of a button that was up and a release of a button
    /// that was down change the pointer state, the left and the right
    /// button only; everything else is ignored. Where the pipeline turns
    /// input into events, each change is added to the batcher as an event
    /// stamped with the current time. A move first asks the debouncer
    /// whether a lookup is due; a due lookup renames the shape by the shape
    /// table, or as "error" where the look failed, and where it found a new
    /// shape, that change is reported before the move itself. Every move
    /// carries the shape as it was looked up last.
    pub fn handle_event(&mut self, raw: RawInput, now_ms: u64, probe: Option<u64>) -> (reaction: Reaction)
        ensures
            reaction == reaction_to(old(self)@, raw, now_ms, probe),
            final(self)@ == (DetectorView {
                batcher: final(self)@.batcher,
                ..state_after_input(old(self)@, raw, now_ms, probe)
            }),
            enqueued(
                old(self)@.batcher,
                final(self)@.batcher,
                payloads_of(old(self)@.emitting, final(self)@.shape, reaction),
            ),
    {
        let ghost pre = self@;
        let reaction = self.react(raw, now_ms, probe);
        let ghost payloads = payloads_of(pre.emitting, self@.shape, reaction);
        if self.emitting {
            match reaction {
                Reaction::Moved { position, type_changed } => {
                    let ghost before = self@.batcher;
                    if type_changed {
                        let new_type = self.shape_label.clone();
                        let change = CursorEvent::TypeChange {
                            new_type,
                            position,
                            timestamp: timestamp_now(),
                        };
                        assert(change@.unstamped() == payloads[0]);
                        self.enqueue(change);
                    }
                    let ghost between = self@.batcher;
                    let cursor_type = self.shape_label.clone();
                    let moved = CursorEvent::Move { position, cursor_type, timestamp: timestamp_now() };
                    assert(moved@.unstamped() == payloads[payloads.len() - 1]);
                    self.enqueue(moved);
                    proof {
                        if before is Some {
                            if type_changed {
                                assert(enqueued_one(before->0, between->0, payloads[0]));
                                assert(enqueued_one(between->0, self@.batcher->0, payloads[1]));
                            } else {
                                assert(enqueued_one(before->0, self@.batcher->0, payloads[0]));
                            }
                        }
                    }
                },
                Reaction::Pressed { button, position } => {
                    let ghost before = self@.batcher;
                    let click = CursorEvent::Click { button, position, timestamp: timestamp_now() };
                    assert(click@.unstamped() == payloads[0]);
                    self.enqueue(click);
                    proof {
                        if before is Some {
                            assert(enqueued_one(before->0, self@.batcher->0, payloads[0]));
                        }
                    }
                },
                Reaction::Released { button } => {
                    let ghost before = self@.batcher;
                    let release = CursorEvent::Release { button, timestamp: timestamp_now() };
                    assert(release@.unstamped() == payloads[0]);
                    self.enqueue(release);
                    proof {
                        if before is Some {
                            assert(enqueued_one(before->0, self@.batcher->0, payloads[0]));
                        }
                    }
                },
                Reaction::Ignored => {},
            }
        }
        reaction
    }

    /// Starts the pipeline with the pointer at `initial_position`: opens a
    /// channel, binds a fresh batcher to its sending end, resets the
    /// debouncer and the shape, sets the running flag, and returns the
    /// consumer's end,
    /// bound to the receiving end and to the registered handler, for the
    /// caller to run on a thread of its own. From now on raw input is
    /// turned into events if a callback or a handler was registered.
    pub fn start_monitoring(&mut self, initial_position: (u64, u64)) -> (dispatcher: EventDispatcher)
        ensures
            final(self)@ == (DetectorView {
                running: true,
                emitting: old(self)@.callback is Some || old(self)@.event_handler is Some,
                event_handler: None,
                snapshot: CursorSnapshot { position: initial_position, ..old(self)@.snapshot },
                debouncer: DebouncerView {
                    last_check_ms: 0,
                    interval_ms: old(self)@.config.debounce_interval_ms,
                    last_cursor_handle: 0,
                },
                shape: "default"@,
                batcher: Some(
                    BatcherView {
                        pending: Seq::empty(),
                        delivered: Seq::empty(),
                        max_size: old(self)@.config.batch_max_size as nat,
                        interval_ms: old(self)@.config.batch_flush_interval_ms as nat,
                        last_flush_ns: 0,
                    },
                ),
                worker_pending: true,
                ..old(self)@
            }),
            same_function(old(self)@.event_handler, dispatcher.handler()),
            dispatcher.delivered() == Seq::<EventView>::empty(),
            dispatcher.timeout_ms() == old(self)@.config.receive_timeout_ms,
    {
        self.atomic_state.update_position(initial_position.0, initial_position.1);
        let (sender, receiver) = open_channel();
        self.event_batcher = Some(
            SmartEventBatcher::new(
                self.config.batch_flush_interval_ms,
                self.config.batch_max_size,
                sender,
            ),
        );
        self.cursor_debouncer = AtomicDebouncer::new(self.config.debounce_interval_ms);
        self.shape_label = "default".to_owned();
        self.emitting = self.has_handlers();
        self.active = true;
        self.signal_running(true);
        let event_handler = self.event_handler.take();
        self.worker_pending = true;
        EventDispatcher::new(
            receiver,
            event_handler,
            Arc::clone(&self.running),
            self.config.receive_timeout_ms,
        )
    }

    /// Stops the pipeline: clears the running flag and flushes the batcher,
    /// so that no buffered event is left behind. Returns whether the caller
    /// has to join the consumer now: it does after the first stop that
    /// follows a start, and never twice.
    pub fn stop(&mut self) -> (join_worker: bool)
        ensures
            join_worker == old(self)@.worker_pending,
            stopped_from(old(self)@, final(self)@),
    {
        self.active = false;
        self.signal_running(false);
        match &mut self.event_batcher {
            Some(batcher) => {
                batcher.force_flush();
            },
            None => {},
        }
        let join_worker = self.worker_pending;
        self.worker_pending = false;
        join_worker
    }
}

impl Default for CursorDetector {
    /// The same as [`CursorDetector::new`].
    fn default() -> (detector: Self)
        ensures
            detector@ == unstarted(Seq::empty(), default_config()),
    {
        Self::new()
    }
}

/// Stopping twice is stopping once: the second stop sends nothing, asks
/// nobody to join and changes nothing.
pub proof fn lemma_stop_is_idempotent(before: DetectorView, once: DetectorView, twice: DetectorView)
    requires
        stopped_from(before, once),
        stopped_from(once, twice),
    ensures
        !once.worker_pending,
        twice == once,
{
    if once.batcher is Some {
        assert(twice.batcher->0 == once.batcher->0);
    }
}

} // verus!
