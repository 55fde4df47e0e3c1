//! Batching of events on the producer's side.
//!
//! [`EventBuffer`] holds the rule: it collects events in order and says when
//! they leave as one batch. [`SmartEventBatcher`] applies the rule to a
//! clock and a channel: it measures the time since the last flush and sends
//! each batch that the buffer releases.

use vstd::prelude::*;
use std::sync::mpsc::Sender;
use std::time::Instant;
use crate::channel::batches_accepted;
use crate::channel::send_batch;
use crate::clock::elapsed_nanos;
use crate::clock::instant_now;
use crate::event::CursorEvent;
use crate::event::EventView;
use crate::event::event_views;
use crate::event::lemma_event_views_push;

verus! {

/// Whether a buffer that holds `buffered` events must be flushed: it has
/// reached `max_size`, or `elapsed_ns` nanoseconds since the last flush
/// amount to `interval_ms` milliseconds or more.
pub open spec fn flush_due(buffered: nat, max_size: nat, elapsed_ns: nat, interval_ms: nat) -> bool {
    buffered >= max_size || elapsed_ns >= interval_ms * 1_000_000
}

/// What the buffer holds after `event` is added to `pending`.
pub open spec fn pending_after_add(
    pending: Seq<EventView>,
    max_size: nat,
    interval_ms: nat,
    event: EventView,
    elapsed_ns: nat,
) -> Seq<EventView> {
    if flush_due(pending.len() + 1, max_size, elapsed_ns, interval_ms) {
        Seq::empty()
    } else {
        pending.push(event)
    }
}

/// The batch that leaves the buffer when `event` is added to `pending`, if
/// one does.
pub open spec fn batch_of_add(
    pending: Seq<EventView>,
    max_size: nat,
    interval_ms: nat,
    event: EventView,
    elapsed_ns: nat,
) -> Option<Seq<EventView>> {
    if flush_due(pending.len() + 1, max_size, elapsed_ns, interval_ms) {
        Some(pending.push(event))
    } else {
        None
    }
}

/// What the buffer holds after `events` are added one by one, the i-th of
/// them `elapsed_ns[i]` nanoseconds after the flush before it.
pub open spec fn pending_after_adds(
    pending: Seq<EventView>,
    max_size: nat,
    interval_ms: nat,
    events: Seq<EventView>,
    elapsed_ns: Seq<nat>,
) -> Seq<EventView>
    decreases events.len(),
{
    if events.len() == 0 {
        pending
    } else {
        pending_after_add(
            pending_after_adds(pending, max_size, interval_ms, events.drop_last(), elapsed_ns.drop_last()),
            max_size,
            interval_ms,
            events.last(),
            elapsed_ns.last(),
        )
    }
}

/// The batches that leave the buffer while `events` are added one by one,
/// oldest first.
pub open spec fn batches_of_adds(
    pending: Seq<EventView>,
    max_size: nat,
    interval_ms: nat,
    events: Seq<EventView>,
    elapsed_ns: Seq<nat>,
) -> Seq<Seq<EventView>>
    decreases events.len(),
{
    if events.len() == 0 {
        Seq::empty()
    } else {
        let earlier = batches_of_adds(
            pending,
            max_size,
            interval_ms,
            events.drop_last(),
            elapsed_ns.drop_last(),
        );
        match batch_of_add(
            pending_after_adds(pending, max_size, interval_ms, events.drop_last(), elapsed_ns.drop_last()),
            max_size,
            interval_ms,
            events.last(),
            elapsed_ns.last(),
        ) {
            Some(batch) => earlier.push(batch),
            None => earlier,
        }
    }
}

/// The state of an [`EventBuffer`].
pub ghost struct BufferView {
    /// The events that wait for the next flush, oldest first.
    pub pending: Seq<EventView>,
    /// The number of waiting events at which the buffer is flushed.
    pub max_size: nat,
    /// The time since the last flush, in milliseconds, at which the buffer
    /// is flushed.
    pub interval_ms: nat,
}

/// An ordered buffer of events with a size-or-time flush rule.
#[derive(Debug)]
pub struct EventBuffer {
    events: Vec<CursorEvent>,
    flush_interval_ms: u64,
    max_buffer_size: usize,
}

impl View for EventBuffer {
    type V = BufferView;

    closed spec fn view(&self) -> BufferView {
        BufferView {
            pending: event_views(self.events@),
            max_size: self.max_buffer_size as nat,
            interval_ms: self.flush_interval_ms as nat,
        }
    }
}

impl EventBuffer {
    /// An empty buffer that is flushed at `max_size` events or
    /// `flush_interval_ms` milliseconds.
    pub fn new(flush_interval_ms: u64, max_size: usize) -> (buffer: Self)
        ensures
            buffer@ == (BufferView {
                pending: Seq::empty(),
                max_size: max_size as nat,
                interval_ms: flush_interval_ms as nat,
            }),
    {
        let buffer = EventBuffer { events: Vec::new(), flush_interval_ms, max_buffer_size: max_size };
        assert(buffer@.pending =~= Seq::empty());
        buffer
    }

    /// The number of events that wait for the next flush.
    pub fn len(&self) -> (n: usize)
        ensures
            n == self@.pending.len(),
    {
        self.events.len()
    }

    /// Whether no event waits.
    pub fn is_empty(&self) -> (empty: bool)
        ensures
            empty == (self@.pending.len() == 0),
    {
        self.events.len() == 0
    }

    /// Adds `event` behind those that wait. Where the buffer has then
    /// reached its maximum, or `elapsed_ns` nanoseconds since the last
    /// flush reach the flush interval, everything that waits leaves as one
    /// batch, the new event last.
    pub fn push(&mut self, event: CursorEvent, elapsed_ns: u128) -> (batch: Option<Vec<CursorEvent>>)
        ensures
            final(self)@ == (BufferView {
                pending: pending_after_add(
                    old(self)@.pending,
                    old(self)@.max_size,
                    old(self)@.interval_ms,
                    event@,
                    elapsed_ns as nat,
                ),
                ..old(self)@
            }),
            match batch {
                Some(events) => Some(event_views(events@)),
                None => None,
            } == batch_of_add(
                old(self)@.pending,
                old(self)@.max_size,
                old(self)@.interval_ms,
                event@,
                elapsed_ns as nat,
            ),
    {
        proof {
            lemma_event_views_push(self.events@, event);
        }
        self.events.push(event);
        let interval_ns: u128 = self.flush_interval_ms as u128 * 1_000_000;
        if self.events.len() >= self.max_buffer_size || elapsed_ns >= interval_ns {
            let mut batch: Vec<CursorEvent> = Vec::new();
            std::mem::swap(&mut batch, &mut self.events);
            assert(self@.pending =~= Seq::empty());
            Some(batch)
        } else {
            None
        }
    }

    /// Takes everything that waits, as one batch. An empty buffer gives
    /// none.
    pub fn drain(&mut self) -> (batch: Option<Vec<CursorEvent>>)
        ensures
            final(self)@ == (BufferView { pending: Seq::empty(), ..old(self)@ }),
            match batch {
                Some(events) => old(self)@.pending.len() > 0 && event_views(events@) == old(
                    self,
                )@.pending,
                None => old(self)@.pending.len() == 0,
            },
    {
        if self.events.len() > 0 {
            let mut batch: Vec<CursorEvent> = Vec::new();
            std::mem::swap(&mut batch, &mut self.events);
            assert(self@.pending =~= Seq::empty());
            Some(batch)
        } else {
            assert(self@.pending =~= Seq::empty());
            None
        }
    }
}

/// While the buffer stays below its maximum and the flush interval has not
/// passed, nothing leaves it: where fewer events are added than it takes to
/// fill the buffer, each before the interval is up, no batch is released
/// and all of them wait, in the order in which they came.
pub proof fn lemma_quiet_adds_send_nothing(
    pending: Seq<EventView>,
    max_size: nat,
    interval_ms: nat,
    events: Seq<EventView>,
    elapsed_ns: Seq<nat>,
)
    requires
        events.len() == elapsed_ns.len(),
        pending.len() + events.len() < max_size,
        forall|i: int| 0 <= i < elapsed_ns.len() ==> elapsed_ns[i] < interval_ms * 1_000_000,
    ensures
        batches_of_adds(pending, max_size, interval_ms, events, elapsed_ns) == Seq::<
            Seq<EventView>,
        >::empty(),
        pending_after_adds(pending, max_size, interval_ms, events, elapsed_ns) == pending + events,
    decreases events.len(),
{
    if events.len() == 0 {
        assert(pending + events =~= pending);
    } else {
        lemma_quiet_adds_send_nothing(
            pending,
            max_size,
            interval_ms,
            events.drop_last(),
            elapsed_ns.drop_last(),
        );
        assert((pending + events.drop_last()).push(events.last()) =~= pending + events);
    }
}

/// As long as no batch has left the buffer, everything that was added
/// still waits behind what waited before.
proof fn lemma_unsent_events_wait(
    pending: Seq<EventView>,
    max_size: nat,
    interval_ms: nat,
    events: Seq<EventView>,
    elapsed_ns: Seq<nat>,
)
    requires
        events.len() == elapsed_ns.len(),
        batches_of_adds(pending, max_size, interval_ms, events, elapsed_ns).len() == 0,
    ensures
        pending_after_adds(pending, max_size, interval_ms, events, elapsed_ns) == pending + events,
    decreases events.len(),
{
    if events.len() == 0 {
        assert(pending + events =~= pending);
    } else {
        lemma_unsent_events_wait(
            pending,
            max_size,
            interval_ms,
            events.drop_last(),
            elapsed_ns.drop_last(),
        );
        assert((pending + events.drop_last()).push(events.last()) =~= pending + events);
    }
}

/// Where a batch has left the buffer, some add released one and left the
/// buffer empty.
proof fn lemma_some_add_flushed(
    pending: Seq<EventView>,
    max_size: nat,
    interval_ms: nat,
    events: Seq<EventView>,
    elapsed_ns: Seq<nat>,
) -> (k: int)
    requires
        events.len() == elapsed_ns.len(),
        batches_of_adds(pending, max_size, interval_ms, events, elapsed_ns).len() > 0,
    ensures
        1 <= k <= events.len(),
        batches_of_adds(pending, max_size, interval_ms, events.take(k), elapsed_ns.take(k)).len()
            >= 1,
        pending_after_adds(pending, max_size, interval_ms, events.take(k), elapsed_ns.take(k))
            == Seq::<EventView>::empty(),
    decreases events.len(),
{
    let front = events.drop_last();
    let front_ns = elapsed_ns.drop_last();
    if batch_of_add(
        pending_after_adds(pending, max_size, interval_ms, front, front_ns),
        max_size,
        interval_ms,
        events.last(),
        elapsed_ns.last(),
    ) is Some {
        assert(events.take(events.len() as int) =~= events);
        assert(elapsed_ns.take(events.len() as int) =~= elapsed_ns);
        events.len() as int
    } else {
        let k = lemma_some_add_flushed(pending, max_size, interval_ms, front, front_ns);
        assert(front.take(k) =~= events.take(k));
        assert(front_ns.take(k) =~= elapsed_ns.take(k));
        k
    }
}

/// A buffer that is filled to its maximum is flushed: where at least one
/// event is added and the events that waited and those added together
/// reach the maximum, at least one batch is released, and right after some
/// add the buffer is empty.
pub proof fn lemma_full_buffer_is_sent(
    pending: Seq<EventView>,
    max_size: nat,
    interval_ms: nat,
    events: Seq<EventView>,
    elapsed_ns: Seq<nat>,
)
    requires
        events.len() == elapsed_ns.len(),
        events.len() > 0,
        pending.len() + events.len() >= max_size,
    ensures
        batches_of_adds(pending, max_size, interval_ms, events, elapsed_ns).len() >= 1,
        exists|k: int|
            1 <= k <= events.len() && batches_of_adds(
                pending,
                max_size,
                interval_ms,
                #[trigger] events.take(k),
                elapsed_ns.take(k),
            ).len() >= 1 && pending_after_adds(
                pending,
                max_size,
                interval_ms,
                events.take(k),
                elapsed_ns.take(k),
            ) == Seq::<EventView>::empty(),
{
    let front = events.drop_last();
    let front_ns = elapsed_ns.drop_last();
    if batches_of_adds(pending, max_size, interval_ms, front, front_ns).len() == 0 {
        lemma_unsent_events_wait(pending, max_size, interval_ms, front, front_ns);
        assert((pending + front).len() + 1 >= max_size);
    }
    let k = lemma_some_add_flushed(pending, max_size, interval_ms, events, elapsed_ns);
    assert(batches_of_adds(pending, max_size, interval_ms, events.take(k), elapsed_ns.take(k)).len()
        >= 1);
}

/// Batching neither loses, reorders nor merges events: the batches that
/// were released, laid end to end, followed by what still waits, are what
/// waited at the start followed by the events added, in order.
pub proof fn lemma_batches_keep_order(
    pending: Seq<EventView>,
    max_size: nat,
    interval_ms: nat,
    events: Seq<EventView>,
    elapsed_ns: Seq<nat>,
)
    requires
        events.len() == elapsed_ns.len(),
    ensures
        batches_of_adds(pending, max_size, interval_ms, events, elapsed_ns).flatten()
            + pending_after_adds(pending, max_size, interval_ms, events, elapsed_ns) == pending
            + events,
    decreases events.len(),
{
    if events.len() == 0 {
        assert(Seq::<Seq<EventView>>::empty().flatten() + pending =~= pending + events);
    } else {
        let front = events.drop_last();
        let front_ns = elapsed_ns.drop_last();
        lemma_batches_keep_order(pending, max_size, interval_ms, front, front_ns);
        let earlier = batches_of_adds(pending, max_size, interval_ms, front, front_ns);
        let waiting = pending_after_adds(pending, max_size, interval_ms, front, front_ns);
        assert((pending + front).push(events.last()) =~= pending + events);
        if flush_due(waiting.len() + 1, max_size, elapsed_ns.last(), interval_ms) {
            earlier.lemma_flatten_push(waiting.push(events.last()));
            assert(earlier.push(waiting.push(events.last())).flatten() + Seq::<EventView>::empty()
                =~= (earlier.flatten() + waiting).push(events.last()));
        } else {
            assert(earlier.flatten() + waiting.push(events.last()) =~= (earlier.flatten()
                + waiting).push(events.last()));
        }
    }
}

/// Nanoseconds from the reading `last_flush_ns` of a clock to its reading
/// `now_ns`, or zero where the second is not the later one.
pub open spec fn nanos_since(last_flush_ns: nat, now_ns: nat) -> nat {
    if now_ns >= last_flush_ns {
        (now_ns - last_flush_ns) as nat
    } else {
        0
    }
}

/// The state of a [`SmartEventBatcher`].
pub ghost struct BatcherView {
    /// The events that wait for the next flush, oldest first.
    pub pending: Seq<EventView>,
    /// The batches that the channel has accepted, oldest first.
    pub delivered: Seq<Seq<EventView>>,
    /// The number of waiting events at which the batcher flushes.
    pub max_size: nat,
    /// The time since the last flush, in milliseconds, at which the batcher
    /// flushes.
    pub interval_ms: nat,
    /// What the batcher's clock showed at the last flush, in nanoseconds
    /// since the batcher was made; zero before the first flush.
    pub last_flush_ns: nat,
}

/// Whether `after` is `before` with `batch` accepted behind it, or, where
/// the receiver was gone, `before` itself.
pub open spec fn sent_or_lost(
    before: Seq<Seq<EventView>>,
    after: Seq<Seq<EventView>>,
    batch: Seq<EventView>,
) -> bool {
    after == before.push(batch) || after == before
}

/// Whether `post` is what adding `event` makes of `pre`, at whatever time.
/// With `flushed`, everything that waited left as one batch with `event`
/// last, and nothing waits. Without it, `event` waits behind the others,
/// nothing was sent, the flush clock runs on, and the buffer is still
/// below its maximum.
pub open spec fn added(pre: BatcherView, post: BatcherView, event: EventView, flushed: bool) -> bool {
    &&& post.max_size == pre.max_size
    &&& post.interval_ms == pre.interval_ms
    &&& if flushed {
        &&& post.pending == Seq::<EventView>::empty()
        &&& sent_or_lost(pre.delivered, post.delivered, pre.pending.push(event))
    } else {
        &&& post.pending == pre.pending.push(event)
        &&& post.delivered == pre.delivered
        &&& post.last_flush_ns == pre.last_flush_ns
        &&& pre.pending.len() + 1 < pre.max_size
    }
}

/// Whether `post` is what adding `event` makes of `pre` when the batcher's
/// clock shows `now_ns`: the batcher flushes exactly when the buffer is
/// then full or the time since the last flush has reached the flush
/// interval, and a flush restarts the flush clock at `now_ns`.
pub open spec fn added_at(
    pre: BatcherView,
    post: BatcherView,
    event: EventView,
    flushed: bool,
    now_ns: nat,
) -> bool {
    &&& flushed == flush_due(
        pre.pending.len() + 1,
        pre.max_size,
        nanos_since(pre.last_flush_ns, now_ns),
        pre.interval_ms,
    )
    &&& added(pre, post, event, flushed)
    &&& flushed ==> post.last_flush_ns == now_ns
}

/// Whether `post` is what a forced flush makes of `pre`, at whatever time:
/// nothing waits, and what waited left as exactly one batch, in order. An
/// empty buffer sends nothing and leaves the flush clock running.
pub open spec fn flushed(pre: BatcherView, post: BatcherView) -> bool {
    &&& post.max_size == pre.max_size
    &&& post.interval_ms == pre.interval_ms
    &&& post.pending == Seq::<EventView>::empty()
    &&& if pre.pending.len() == 0 {
        &&& post.delivered == pre.delivered
        &&& post.last_flush_ns == pre.last_flush_ns
    } else {
        sent_or_lost(pre.delivered, post.delivered, pre.pending)
    }
}

/// Whether `post` is what a forced flush makes of `pre` when the batcher's
/// clock shows `now_ns`: a flush that sent restarts the flush clock at
/// `now_ns`.
pub open spec fn flushed_at(pre: BatcherView, post: BatcherView, now_ns: nat) -> bool {
    &&& flushed(pre, post)
    &&& pre.pending.len() > 0 ==> post.last_flush_ns == now_ns
}

/// Collects events and sends them over a channel in batches: when the
/// buffer is full, or when the flush interval has passed since the last
/// flush, whichever comes first. Time is read off a clock that starts when
/// the batcher is made.
#[derive(Debug)]
pub struct SmartEventBatcher {
    buffer: EventBuffer,
    clock_start: Instant,
    last_flush_ns: u128,
    sender: Sender<Vec<CursorEvent>>,
}

impl View for SmartEventBatcher {
    type V = BatcherView;

    closed spec fn view(&self) -> BatcherView {
        BatcherView {
            pending: self.buffer@.pending,
            delivered: batches_accepted(self.sender),
            max_size: self.buffer@.max_size,
            interval_ms: self.buffer@.interval_ms,
            last_flush_ns: self.last_flush_ns as nat,
        }
    }
}

impl SmartEventBatcher {
    /// The instant at which the batcher was made, from which its clock
    /// counts.
    pub closed spec fn clock_start(&self) -> Instant {
        self.clock_start
    }

    /// An empty batcher on `sender` that flushes at `max_size` events or
    /// `flush_interval_ms` milliseconds after the last flush. Its clock
    /// starts now, at zero, and that counts as the time of the last flush.
    pub fn new(flush_interval_ms: u64, max_size: usize, sender: Sender<Vec<CursorEvent>>) -> (batcher:
        Self)
        ensures
            batcher@ == (BatcherView {
                pending: Seq::empty(),
                delivered: batches_accepted(sender),
                max_size: max_size as nat,
                interval_ms: flush_interval_ms as nat,
                last_flush_ns: 0,
            }),
    {
        SmartEventBatcher {
            buffer: EventBuffer::new(flush_interval_ms, max_size),
            clock_start: instant_now(),
            last_flush_ns: 0,
            sender,
        }
    }

    /// The number of events that wait for the next flush.
    pub fn pending_len(&self) -> (n: usize)
        ensures
            n == self@.pending.len(),
    {
        self.buffer.len()
    }

    /// Adds `event` and flushes if the buffer is full or the flush interval
    /// has passed on the batcher's clock. Says whether it flushed. The
    /// clock is read once, and what it shows decides as in
    /// [`Self::add_event_at`].
    pub fn add_event(&mut self, event: CursorEvent) -> (did_flush: bool)
        ensures
            exists|now_ns: nat| #[trigger] added_at(old(self)@, final(self)@, event@, did_flush, now_ns),
            added(old(self)@, final(self)@, event@, did_flush),
            final(self).clock_start() == old(self).clock_start(),
    {
        let now_ns = elapsed_nanos(&self.clock_start);
        let ghost pre = self@;
        let ghost content = event@;
        let did_flush = self.add_event_at(event, now_ns);
        assert(added_at(pre, self@, content, did_flush, now_ns as nat));
        did_flush
    }

    /// Adds `event` when the batcher's clock shows `now_ns` nanoseconds,
    /// and flushes if the buffer is then full or the time since the last
    /// flush reaches the flush interval. Says whether it flushed. A flush
    /// restarts the flush clock at `now_ns`.
    pub fn add_event_at(&mut self, event: CursorEvent, now_ns: u128) -> (did_flush: bool)
        ensures
            added_at(old(self)@, final(self)@, event@, did_flush, now_ns as nat),
            final(self).clock_start() == old(self).clock_start(),
    {
        let elapsed_ns = now_ns.saturating_sub(self.last_flush_ns);
        match self.buffer.push(event, elapsed_ns) {
            Some(batch) => {
                send_batch(&mut self.sender, batch);
                self.last_flush_ns = now_ns;
                true
            },
            None => false,
        }
    }

    /// Sends what waits, if anything, as one batch, and restarts the flush
    /// clock if it sent. A batch that the channel refuses because the
    /// receiver is gone is dropped. The clock is read once, and what it
    /// shows is used as in [`Self::flush_at`].
    pub fn flush(&mut self)
        ensures
            exists|now_ns: nat| #[trigger] flushed_at(old(self)@, final(self)@, now_ns),
            flushed(old(self)@, final(self)@),
            final(self).clock_start() == old(self).clock_start(),
    {
        let now_ns = elapsed_nanos(&self.clock_start);
        let ghost pre = self@;
        self.flush_at(now_ns);
        assert(flushed_at(pre, self@, now_ns as nat));
    }

    /// Sends what waits, if anything, as one batch, when the batcher's
    /// clock shows `now_ns` nanoseconds, and restarts the flush clock at
    /// `now_ns` if it sent.
    pub fn flush_at(&mut self, now_ns: u128)
        ensures
            flushed_at(old(self)@, final(self)@, now_ns as nat),
            final(self).clock_start() == old(self).clock_start(),
    {
        match self.buffer.drain() {
            Some(batch) => {
                send_batch(&mut self.sender, batch);
                self.last_flush_ns = now_ns;
            },
            None => {},
        }
    }

    /// Flushes whatever the size and the clock say; see [`Self::flush`].
    pub fn force_flush(&mut self)
        ensures
            exists|now_ns: nat| #[trigger] flushed_at(old(self)@, final(self)@, now_ns),
            flushed(old(self)@, final(self)@),
            final(self).clock_start() == old(self).clock_start(),
    {
        self.flush();
    }
}

} // verus!
