//! The rule that limits how often the displayed cursor shape is looked up,
//! and the memory of the shape that was seen last.
//!
//! Only the producer of events holds a debouncer. Each operation reads and
//! replaces its state in one step under an exclusive borrow, so no caller
//! ever sees a half-applied update.

use vstd::prelude::*;

verus! {

/// Milliseconds from `last_check_ms` to `now_ms`, or zero where the clock
/// went backwards.
pub open spec fn millis_since(last_check_ms: u64, now_ms: u64) -> int {
    if now_ms >= last_check_ms {
        now_ms - last_check_ms
    } else {
        0
    }
}

/// Whether a lookup is due at `now_ms`: at least `interval_ms` have passed
/// since the last lookup.
pub open spec fn lookup_due(last_check_ms: u64, now_ms: u64, interval_ms: u64) -> bool {
    millis_since(last_check_ms, now_ms) >= interval_ms
}

/// The time of the last lookup after the debouncer was asked at each of `times`
/// in turn, starting from a last lookup at `last_check_ms`.
pub open spec fn last_check_after(last_check_ms: u64, interval_ms: u64, times: Seq<u64>) -> u64
    decreases times.len(),
{
    if times.len() == 0 {
        last_check_ms
    } else {
        let before = last_check_after(last_check_ms, interval_ms, times.drop_last());
        if lookup_due(before, times.last(), interval_ms) {
            times.last()
        } else {
            before
        }
    }
}

/// The answer to call `k` when the debouncer is asked at each of `times` in
/// turn, starting from a last lookup at `last_check_ms`.
pub open spec fn answer_at(last_check_ms: u64, interval_ms: u64, times: Seq<u64>, k: int) -> bool {
    lookup_due(last_check_after(last_check_ms, interval_ms, times.take(k)), times[k], interval_ms)
}

/// The state of an [`AtomicDebouncer`].
pub ghost struct DebouncerView {
    /// When a lookup was last due, in milliseconds; zero before the first time.
    pub last_check_ms: u64,
    /// The least number of milliseconds between two lookups.
    pub interval_ms: u64,
    /// The handle that was observed last; zero before the first observation.
    pub last_cursor_handle: u64,
}

/// Decides when the cursor shape is worth looking up, and whether what was
/// found is new.
#[derive(Debug)]
pub struct AtomicDebouncer {
    last_check_ms: u64,
    interval_ms: u64,
    last_cursor_handle: u64,
}

impl View for AtomicDebouncer {
    type V = DebouncerView;

    closed spec fn view(&self) -> DebouncerView {
        DebouncerView {
            last_check_ms: self.last_check_ms,
            interval_ms: self.interval_ms,
            last_cursor_handle: self.last_cursor_handle,
        }
    }
}

impl AtomicDebouncer {
    /// A debouncer that has made no lookup and seen no shape.
    pub fn new(interval_ms: u64) -> (debouncer: Self)
        ensures
            debouncer@ == (DebouncerView { last_check_ms: 0, interval_ms, last_cursor_handle: 0 }),
    {
        AtomicDebouncer { last_check_ms: 0, interval_ms, last_cursor_handle: 0 }
    }

    /// The least number of milliseconds between two lookups.
    pub fn interval_ms(&self) -> (interval: u64)
        ensures
            interval == self@.interval_ms,
    {
        self.interval_ms
    }

    /// Whether a call of [`Self::should_check`] at `now_ms` would answer
    /// yes. Changes nothing.
    pub fn is_due(&self, now_ms: u64) -> (due: bool)
        ensures
            due == lookup_due(self@.last_check_ms, now_ms, self@.interval_ms),
    {
        now_ms.saturating_sub(self.last_check_ms) >= self.interval_ms
    }

    /// Asks at `now_ms`, in milliseconds, whether a lookup is due. It is
    /// when at least the interval has passed since it last was, and the
    /// debouncer then remembers `now_ms`; otherwise nothing changes.
    pub fn should_check(&mut self, now_ms: u64) -> (due: bool)
        ensures
            due == lookup_due(old(self)@.last_check_ms, now_ms, old(self)@.interval_ms),
            final(self)@ == (DebouncerView {
                last_check_ms: if due {
                    now_ms
                } else {
                    old(self)@.last_check_ms
                },
                ..old(self)@
            }),
    {
        if now_ms.saturating_sub(self.last_check_ms) >= self.interval_ms {
            self.last_check_ms = now_ms;
            true
        } else {
            false
        }
    }

    /// Records `cursor_handle` as the shape seen last and says whether it
    /// differs from the one recorded before.
    pub fn has_changed(&mut self, cursor_handle: u64) -> (changed: bool)
        ensures
            changed == (cursor_handle != old(self)@.last_cursor_handle),
            final(self)@ == (DebouncerView { last_cursor_handle: cursor_handle, ..old(self)@ }),
    {
        let last_handle = self.last_cursor_handle;
        self.last_cursor_handle = cursor_handle;
        cursor_handle != last_handle
    }
}

/// Where the times asked do not decrease, the last lookup does not move
/// back as more of them are asked.
proof fn lemma_last_check_grows(last_check_ms: u64, interval_ms: u64, times: Seq<u64>, i: int, j: int)
    requires
        forall|a: int, b: int| 0 <= a <= b < times.len() ==> times[a] <= times[b],
        0 <= i <= j <= times.len(),
        interval_ms > 0,
    ensures
        last_check_after(last_check_ms, interval_ms, times.take(i)) <= last_check_after(
            last_check_ms,
            interval_ms,
            times.take(j),
        ),
    decreases j - i,
{
    if i < j {
        lemma_last_check_grows(last_check_ms, interval_ms, times, i, j - 1);
        assert(times.take(j).drop_last() =~= times.take(j - 1));
    }
}

/// Calls spaced at least the interval apart all answer yes: where the
/// first time asked lies at least the interval after the starting lookup and
/// each later one at least the interval after the one before it, every call
/// answers yes.
pub proof fn lemma_spaced_calls_all_pass(last_check_ms: u64, interval_ms: u64, times: Seq<u64>)
    requires
        times.len() > 0 ==> lookup_due(last_check_ms, times[0], interval_ms),
        forall|i: int|
            0 <= i < times.len() - 1 ==> times[i] < #[trigger] times[i + 1] && times[i + 1]
                - times[i] >= interval_ms,
    ensures
        forall|k: int|
            0 <= k < times.len() ==> #[trigger] answer_at(last_check_ms, interval_ms, times, k),
        times.len() > 0 ==> last_check_after(last_check_ms, interval_ms, times) == times.last(),
    decreases times.len(),
{
    if times.len() > 0 {
        let front = times.drop_last();
        assert forall|i: int| 0 <= i < front.len() - 1 implies front[i] < #[trigger] front[i + 1]
            && front[i + 1] - front[i] >= interval_ms by {
            assert(times[i + 1] - times[i] >= interval_ms);
        }
        lemma_spaced_calls_all_pass(last_check_ms, interval_ms, front);
        let n = times.len() - 1;
        assert(times.take(n) =~= front);
        if front.len() > 0 {
            assert(times[n - 1] < times[n - 1 + 1]);
            assert(front.last() == times[n - 1]);
        }
        assert(answer_at(last_check_ms, interval_ms, times, n));
        assert forall|k: int| 0 <= k < times.len() implies #[trigger] answer_at(
            last_check_ms,
            interval_ms,
            times,
            k,
        ) by {
            if k < n {
                assert(answer_at(last_check_ms, interval_ms, front, k));
                assert(front.take(k) =~= times.take(k));
            }
        }
    }
}

/// A lookup is due at most once per interval: where the times asked do not
/// decrease, any two calls that both answer yes lie at least the interval
/// apart.
pub proof fn lemma_passes_are_spaced(
    last_check_ms: u64,
    interval_ms: u64,
    times: Seq<u64>,
    i: int,
    j: int,
)
    requires
        forall|a: int, b: int| 0 <= a <= b < times.len() ==> times[a] <= times[b],
        0 <= i < j < times.len(),
        answer_at(last_check_ms, interval_ms, times, i),
        answer_at(last_check_ms, interval_ms, times, j),
    ensures
        times[j] - times[i] >= interval_ms,
{
    if interval_ms > 0 {
        assert(times.take(i + 1).drop_last() =~= times.take(i));
        assert(times.take(i + 1).last() == times[i]);
        assert(last_check_after(last_check_ms, interval_ms, times.take(i + 1)) == times[i]);
        lemma_last_check_grows(last_check_ms, interval_ms, times, i + 1, j);
    }
}

/// A burst gets one lookup: where the first call answers yes and every
/// later time asked lies within the interval that starts then, every later
/// call answers no.
pub proof fn lemma_burst_passes_once(last_check_ms: u64, interval_ms: u64, times: Seq<u64>)
    requires
        times.len() > 0,
        lookup_due(last_check_ms, times[0], interval_ms),
        forall|i: int| 0 < i < times.len() ==> times[0] <= #[trigger] times[i] < times[0] + interval_ms,
    ensures
        answer_at(last_check_ms, interval_ms, times, 0),
        forall|k: int| 0 < k < times.len() ==> !#[trigger] answer_at(last_check_ms, interval_ms, times, k),
        last_check_after(last_check_ms, interval_ms, times) == times[0],
    decreases times.len(),
{
    assert(times.take(0) =~= Seq::<u64>::empty());
    if times.len() == 1 {
        assert(times.drop_last() =~= Seq::<u64>::empty());
    } else {
        let front = times.drop_last();
        lemma_burst_passes_once(last_check_ms, interval_ms, front);
        let n = times.len() - 1;
        assert(times.take(n) =~= front);
        assert(times[n] < times[0] + interval_ms);
        assert forall|k: int| 0 < k < times.len() implies !#[trigger] answer_at(
            last_check_ms,
            interval_ms,
            times,
            k,
        ) by {
            if k < n {
                assert(!answer_at(last_check_ms, interval_ms, front, k));
                assert(front.take(k) =~= times.take(k));
            }
        }
    }
}

} // verus!
