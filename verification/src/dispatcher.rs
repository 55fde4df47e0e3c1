//! The consumer's side: waiting for batches and handing each event to the
//! registered handler.

use vstd::prelude::*;
use std::sync::Arc;
use std::sync::atomic::AtomicBool;
use std::sync::atomic::Ordering;
use std::sync::mpsc::Receiver;
use crate::channel::Received;
use crate::channel::receive_batch;
use crate::event::CursorEvent;
use crate::event::EventView;
use crate::event::event_views;

verus! {

/// Something that takes events and may be moved to another thread.
trait EventSink: Send {
    /// Whether `event` may be handed over.
    spec fn accepts(&self, event: CursorEvent) -> bool;

    /// What the sink promises of a call with `event`.
    spec fn promises(&self, event: CursorEvent) -> bool;

    fn deliver(&self, event: CursorEvent)
        requires
            self.accepts(event),
        ensures
            self.promises(event),
    ;
}

impl<F: Fn(CursorEvent) + Send> EventSink for F {
    spec fn accepts(&self, event: CursorEvent) -> bool {
        call_requires(*self, (event,))
    }

    spec fn promises(&self, event: CursorEvent) -> bool {
        call_ensures(*self, (event,), ())
    }

    fn deliver(&self, event: CursorEvent) {
        self(event)
    }
}

/// A registered handler for events, with the record of what it was given.
pub struct CursorEventHandler {
    sink: Box<dyn EventSink>,
    delivered: Ghost<Seq<EventView>>,
}

impl CursorEventHandler {
    #[verifier::type_invariant]
    spec fn takes_every_event(self) -> bool {
        forall|event: CursorEvent| #[trigger] self.sink.accepts(event)
    }

    /// The events that the handler was called with, first call first.
    pub closed spec fn delivered(&self) -> Seq<EventView> {
        self.delivered@
    }

    /// What the registered function promises of a call with `event`: its
    /// own postcondition.
    pub closed spec fn promises(&self, event: CursorEvent) -> bool {
        self.sink.promises(event)
    }

    /// Registers `handler`, which must be callable on every event.
    pub fn new<F>(handler: F) -> (registered: Self) where F: Fn(CursorEvent) + Send + 'static
        requires
            forall|event: CursorEvent| call_requires(handler, (event,)),
        ensures
            registered.delivered() == Seq::<EventView>::empty(),
            forall|event: CursorEvent|
                #[trigger] registered.promises(event) == call_ensures(handler, (event,), ()),
    {
        CursorEventHandler { sink: Box::new(handler), delivered: Ghost(Seq::empty()) }
    }

    /// The same handler with an empty record.
    pub fn rebound(self) -> (fresh: Self)
        ensures
            fresh.delivered() == Seq::<EventView>::empty(),
            forall|event: CursorEvent| #[trigger] fresh.promises(event) == self.promises(event),
    {
        proof {
            use_type_invariant(&self);
        }
        CursorEventHandler { sink: self.sink, delivered: Ghost(Seq::empty()) }
    }

    /// Calls the handler with `event`.
    pub fn call(&mut self, event: CursorEvent)
        ensures
            final(self).delivered() == old(self).delivered().push(event@),
            final(self).promises(event),
            forall|other: CursorEvent| #[trigger] final(self).promises(other) == old(self).promises(other),
    {
        proof {
            use_type_invariant(&*self);
            self.delivered@ = self.delivered@.push(event@);
        }
        self.sink.deliver(event);
    }
}

/// Where the consumer loop stands between two waits.
#[derive(Debug, Clone, Copy, PartialEq, Eq, Structural)]
pub enum DispatcherState {
    /// The loop goes on to wait for the next batch.
    Waiting,
    /// The loop has ended.
    Terminated,
}

/// The events that one wait hands to the handler: those of the batch that
/// arrived, in order, and none where no batch arrived.
pub open spec fn delivery_of(outcome: Received) -> Seq<EventView> {
    match outcome {
        Received::Batch(events) => event_views(events@),
        Received::Timeout => Seq::empty(),
        Received::Disconnected => Seq::empty(),
    }
}

/// Where the loop stands after one wait. A batch is processed and the loop
/// waits again. When the wait runs out, the loop goes on only while the
/// pipeline is running. When the channel is closed for good, it ends.
pub open spec fn state_after(outcome: Received, running: bool) -> DispatcherState {
    match outcome {
        Received::Batch(_) => DispatcherState::Waiting,
        Received::Timeout => if running {
            DispatcherState::Waiting
        } else {
            DispatcherState::Terminated
        },
        Received::Disconnected => DispatcherState::Terminated,
    }
}

/// What a registered handler has been given; nothing where none is
/// registered.
pub open spec fn delivered_to(event_handler: Option<CursorEventHandler>) -> Seq<EventView> {
    match event_handler {
        Some(handler) => handler.delivered(),
        None => Seq::empty(),
    }
}

/// Whether `post` is `pre` after it was given exactly `events`, in order:
/// the same function, with `events` behind what it had been given before.
/// Without a handler nothing is given and none appears.
pub open spec fn given(
    pre: Option<CursorEventHandler>,
    post: Option<CursorEventHandler>,
    events: Seq<EventView>,
) -> bool {
    match pre {
        Some(before) => {
            &&& post is Some
            &&& post->0.delivered() == before.delivered() + events
            &&& forall|event: CursorEvent| #[trigger]
                post->0.promises(event) == before.promises(event)
        },
        None => post is None,
    }
}

/// Whether `post` holds the function that `pre` holds, or both hold none.
pub open spec fn same_function(pre: Option<CursorEventHandler>, post: Option<CursorEventHandler>) -> bool {
    match pre {
        Some(before) => post is Some && forall|event: CursorEvent| #[trigger]
            post->0.promises(event) == before.promises(event),
        None => post is None,
    }
}

/// Whether the handler, if there is one, has kept its promise for every
/// event of `batch`: it was called with each of them.
pub open spec fn honoured(event_handler: Option<CursorEventHandler>, batch: Seq<CursorEvent>) -> bool {
    event_handler matches Some(handler) ==> forall|i: int|
        0 <= i < batch.len() ==> handler.promises(#[trigger] batch[i])
}

/// The batch that an outcome brought; empty where it brought none.
pub open spec fn batch_of(outcome: Received) -> Seq<CursorEvent> {
    match outcome {
        Received::Batch(events) => events@,
        Received::Timeout => Seq::empty(),
        Received::Disconnected => Seq::empty(),
    }
}

/// Hands every event of a batch to the handler, one call per event, in the
/// order of the batch. Without a handler the batch is dropped.
pub fn process_batch(events: Vec<CursorEvent>, event_handler: &mut Option<CursorEventHandler>)
    ensures
        given(*old(event_handler), *final(event_handler), event_views(events@)),
        honoured(*final(event_handler), events@),
{
    let ghost batch = events@;
    match event_handler {
        Some(handler) => {
            let ghost before = handler.delivered();
            let ghost registered = *handler;
            for event in iter: events.into_iter()
                invariant
                    iter.seq() == batch,
                    handler.delivered() == before + event_views(batch.take(iter.index() as int)),
                    forall|other: CursorEvent| #[trigger]
                        handler.promises(other) == registered.promises(other),
                    forall|i: int| 0 <= i < iter.index() ==> handler.promises(#[trigger] batch[i]),
            {
                proof {
                    assert(batch.take(iter.index() + 1) =~= batch.take(iter.index() as int).push(
                        event,
                    ));
                    crate::event::lemma_event_views_push(batch.take(iter.index() as int), event);
                }
                handler.call(event);
            }
            assert(batch.take(batch.len() as int) =~= batch);
        },
        None => {},
    }
}

/// Acts on the outcome of one wait: a batch goes to the handler, event by
/// event; a timeout or a closed channel gives the handler nothing. Says
/// where the loop stands afterwards, given whether the pipeline is
/// `running`.
pub fn dispatch(outcome: Received, event_handler: &mut Option<CursorEventHandler>, running: bool) -> (next:
    DispatcherState)
    ensures
        next == state_after(outcome, running),
        given(*old(event_handler), *final(event_handler), delivery_of(outcome)),
        honoured(*final(event_handler), batch_of(outcome)),
{
    match outcome {
        Received::Batch(events) => {
            process_batch(events, event_handler);
            DispatcherState::Waiting
        },
        Received::Timeout => {
            assert(delivered_to(*event_handler) + Seq::<EventView>::empty() =~= delivered_to(
                *event_handler,
            ));
            if running {
                DispatcherState::Waiting
            } else {
                DispatcherState::Terminated
            }
        },
        Received::Disconnected => {
            assert(delivered_to(*event_handler) + Seq::<EventView>::empty() =~= delivered_to(
                *event_handler,
            ));
            DispatcherState::Terminated
        },
    }
}

/// The events of the batches among `outcomes`, laid end to end in the
/// order of the waits.
pub open spec fn deliveries(outcomes: Seq<Received>) -> Seq<EventView>
    decreases outcomes.len(),
{
    if outcomes.len() == 0 {
        Seq::empty()
    } else {
        deliveries(outcomes.drop_last()) + delivery_of(outcomes.last())
    }
}

/// Whether a run of the consumer loop that was allowed `max_waits` waits,
/// took `pre` to `post` and returned `state` is accounted for by the waits
/// with the outcomes `outcomes`, the last of them with the running flag at
/// `running_at_end`: the handler was given the events of the batches that
/// arrived, in order, and nothing else, and was called with each of them;
/// no wait but the last found the channel closed; the state is the one
/// after the last wait; and the loop stopped waiting early only because it
/// had ended.
pub open spec fn ran(
    pre: Option<CursorEventHandler>,
    post: Option<CursorEventHandler>,
    state: DispatcherState,
    max_waits: u64,
    outcomes: Seq<Received>,
    running_at_end: bool,
) -> bool {
    &&& outcomes.len() <= max_waits
    &&& given(pre, post, deliveries(outcomes))
    &&& forall|k: int| 0 <= k < outcomes.len() ==> honoured(post, batch_of(#[trigger] outcomes[k]))
    &&& forall|k: int| 0 <= k < outcomes.len() - 1 ==> !(#[trigger] outcomes[k] is Disconnected)
    &&& state == if outcomes.len() == 0 {
        DispatcherState::Waiting
    } else {
        state_after(outcomes.last(), running_at_end)
    }
    &&& state == DispatcherState::Waiting ==> outcomes.len() == max_waits
}

/// Giving a handler nothing leaves it as it is.
proof fn lemma_given_nothing(event_handler: Option<CursorEventHandler>)
    ensures
        given(event_handler, event_handler, Seq::empty()),
{
    assert(delivered_to(event_handler) + Seq::<EventView>::empty() =~= delivered_to(event_handler));
}

/// Giving a handler first `first` and then `second` gives it the two laid
/// end to end.
proof fn lemma_given_twice(
    pre: Option<CursorEventHandler>,
    between: Option<CursorEventHandler>,
    post: Option<CursorEventHandler>,
    first: Seq<EventView>,
    second: Seq<EventView>,
)
    requires
        given(pre, between, first),
        given(between, post, second),
    ensures
        given(pre, post, first + second),
{
    assert((delivered_to(pre) + first) + second =~= delivered_to(pre) + (first + second));
}

/// Runs the consumer loop for at most `max_waits` waits of `timeout_ms`
/// milliseconds each. Every batch that arrives goes to the handler, event
/// by event, in order. The loop ends when the channel is closed for good, or
/// when a wait runs out after `running` was cleared; it never spins. Returns
/// `Terminated` when the loop has ended, and `Waiting` when the waits are
/// used up and the caller is to call again.
pub fn process_events_with_timeout(
    receiver: &Receiver<Vec<CursorEvent>>,
    event_handler: &mut Option<CursorEventHandler>,
    running: &AtomicBool,
    timeout_ms: u64,
    max_waits: u64,
) -> (state: DispatcherState)
    ensures
        exists|outcomes: Seq<Received>, running_at_end: bool|
            ran(
                *old(event_handler),
                *final(event_handler),
                state,
                max_waits,
                outcomes,
                running_at_end,
            ),
{
    let mut state = DispatcherState::Waiting;
    let mut waits: u64 = 0;
    let ghost mut outcomes: Seq<Received> = Seq::empty();
    let ghost mut running_at_end = true;
    proof {
        lemma_given_nothing(*event_handler);
    }
    while waits < max_waits && state == DispatcherState::Waiting
        invariant
            waits <= max_waits,
            waits == outcomes.len(),
            given(*old(event_handler), *event_handler, deliveries(outcomes)),
            forall|k: int|
                0 <= k < outcomes.len() ==> honoured(*event_handler, batch_of(#[trigger] outcomes[k])),
            forall|k: int| 0 <= k < outcomes.len() - 1 ==> !(#[trigger] outcomes[k] is Disconnected),
            state == if outcomes.len() == 0 {
                DispatcherState::Waiting
            } else {
                state_after(outcomes.last(), running_at_end)
            },
        decreases max_waits - waits,
    {
        let outcome = receive_batch(receiver, timeout_ms);
        let still_running = running.load(Ordering::Relaxed);
        let ghost received = outcome;
        let ghost before = *event_handler;
        state = dispatch(outcome, event_handler, still_running);
        waits = waits + 1;
        proof {
            lemma_given_twice(
                *old(event_handler),
                before,
                *event_handler,
                deliveries(outcomes),
                delivery_of(received),
            );
            assert(outcomes.push(received).drop_last() =~= outcomes);
            outcomes = outcomes.push(received);
            running_at_end = still_running;
        }
    }
    assert(ran(*old(event_handler), *event_handler, state, max_waits, outcomes, running_at_end));
    state
}

/// The consumer's end of a pipeline: the receiving end of the channel, the
/// handler, the running flag and the length of one wait.
pub struct EventDispatcher {
    receiver: Receiver<Vec<CursorEvent>>,
    event_handler: Option<CursorEventHandler>,
    running: Arc<AtomicBool>,
    timeout_ms: u64,
}

impl EventDispatcher {
    /// The handler, if one is registered.
    pub closed spec fn handler(&self) -> Option<CursorEventHandler> {
        self.event_handler
    }

    /// What the handler has been given so far; nothing without a handler.
    pub open spec fn delivered(&self) -> Seq<EventView> {
        delivered_to(self.handler())
    }

    /// The length of one wait, in milliseconds.
    pub closed spec fn timeout_ms(&self) -> u64 {
        self.timeout_ms
    }

    /// Binds a consumer to the receiving end of a channel. The record of
    /// what the handler was given starts empty.
    pub fn new(
        receiver: Receiver<Vec<CursorEvent>>,
        event_handler: Option<CursorEventHandler>,
        running: Arc<AtomicBool>,
        timeout_ms: u64,
    ) -> (dispatcher: Self)
        ensures
            dispatcher.delivered() == Seq::<EventView>::empty(),
            same_function(event_handler, dispatcher.handler()),
            dispatcher.timeout_ms() == timeout_ms,
    {
        let event_handler = match event_handler {
            Some(handler) => Some(handler.rebound()),
            None => None,
        };
        EventDispatcher { receiver, event_handler, running, timeout_ms }
    }

    /// Runs the consumer loop for at most `max_waits` waits; see
    /// [`process_events_with_timeout`].
    pub fn run(&mut self, max_waits: u64) -> (state: DispatcherState)
        ensures
            final(self).timeout_ms() == old(self).timeout_ms(),
            exists|outcomes: Seq<Received>, running_at_end: bool|
                ran(
                    old(self).handler(),
                    final(self).handler(),
                    state,
                    max_waits,
                    outcomes,
                    running_at_end,
                ),
    {
        process_events_with_timeout(
            &self.receiver,
            &mut self.event_handler,
            &self.running,
            self.timeout_ms,
            max_waits,
        )
    }
}

} // verus!
