//! The rate-limited queue.

use vstd::prelude::*;
use std::collections::VecDeque;
use std::time::Instant;
use crate::clock::nanos_since;
use crate::deque::range_front_mut;
use crate::outcome::{DequeueResult, Outcome};
use crate::span::Span;
use crate::state::QueueState;

verus! {

/// A first-in, first-out queue that hands out at most `quantum` items in
/// each window of length `interval`.
///
/// Points in time are spans on the queue's own clock, which starts when the
/// queue is made.
pub struct RateLimitQueue<T> {
    quantum: usize,
    interval: Span,
    queue: VecDeque<T>,
    allowance: usize,
    origin: Instant,
    window_start: Span,
}

impl<T> View for RateLimitQueue<T> {
    type V = QueueState<T>;

    closed spec fn view(&self) -> QueueState<T> {
        QueueState {
            items: self.queue@,
            quantum: self.quantum as nat,
            interval: self.interval@,
            allowance: self.allowance as nat,
            window_start: self.window_start@,
        }
    }
}

impl<T> RateLimitQueue<T> {
    /// Makes an empty queue and starts its clock. The first window begins
    /// at once, with the whole quantum as its allowance.
    pub fn new(quantum: usize, interval: Span) -> (queue: RateLimitQueue<T>)
        ensures
            queue@ == QueueState::<T>::fresh(quantum as nat, interval@),
    {
        RateLimitQueue::with_capacity(0, quantum, interval)
    }

    /// Makes an empty queue with room for at least `cap` items, and starts
    /// its clock. The first window begins at once, with the whole quantum
    /// as its allowance.
    ///
    /// Room that the machine cannot give ends the program, as it does for
    /// the backing store.
    pub fn with_capacity(cap: usize, quantum: usize, interval: Span) -> (queue: RateLimitQueue<T>)
        ensures
            queue@ == QueueState::<T>::fresh(quantum as nat, interval@),
    {
        RateLimitQueue {
            quantum,
            interval,
            queue: VecDeque::with_capacity(cap),
            allowance: quantum,
            origin: Instant::now(),
            window_start: Span { nanos: 0 },
        }
    }

    /// Tries to take the head item at the time `now`.
    ///
    /// An empty queue answers `Empty`. Otherwise the head item leaves if
    /// the running window has allowance left, or if the window is over and
    /// the new one, which begins at `now`, brings a token. Else the attempt
    /// is turned away with the time that is left of the window, and nothing
    /// leaves.
    ///
    /// `now` is a reading of the clock that the caller keeps for this
    /// queue: the time since the queue was made. A reading that lies
    /// before the beginning of the running window counts as that
    /// beginning.
    pub fn try_dequeue_at(&mut self, now: Span) -> (result: DequeueResult<T>)
        ensures
            final(self)@ == old(self)@.step(now@),
            result@ == old(self)@.outcome(now@),
    {
        if self.queue.len() == 0 {
            return DequeueResult::Empty;
        }
        if self.allowance > 0 {
            self.allowance -= 1;
            return DequeueResult::from(self.queue.pop_front());
        }
        let elapsed: u128 = if now.nanos >= self.window_start.nanos {
            now.nanos - self.window_start.nanos
        } else {
            0
        };
        if elapsed < self.interval.nanos {
            return DequeueResult::Limit(Span { nanos: self.interval.nanos - elapsed });
        }
        self.window_start = now;
        if self.quantum == 0 {
            self.allowance = 0;
            return DequeueResult::Limit(self.interval);
        }
        self.allowance = self.quantum - 1;
        DequeueResult::from(self.queue.pop_front())
    }

    /// Tries to take the head item now, by the queue's clock.
    ///
    /// The clock's reading is not known beforehand, so the contract says
    /// that the attempt was made at some time `now`. Two results do not
    /// hang on the clock and are promised outright: an empty queue answers
    /// `Empty`, and a queue that holds items and has allowance left hands
    /// out its head item.
    pub fn try_dequeue(&mut self) -> (result: DequeueResult<T>)
        ensures
            exists|now: nat|
                final(self)@ == #[trigger] old(self)@.step(now) && result@ == old(self)@.outcome(
                    now,
                ),
            old(self)@.items.len() == 0 ==> result@ == Outcome::<T>::Empty,
            old(self)@.items.len() > 0 && old(self)@.allowance > 0 ==> result@ == Outcome::Data(
                old(self)@.items[0],
            ),
    {
        let now = Span { nanos: nanos_since(&self.origin) };
        self.try_dequeue_at(now)
    }

    /// Sets how many items may leave in one window. The running window
    /// keeps the allowance it has; the new quantum counts from the next
    /// window on.
    pub fn set_quantum(&mut self, quantum: usize)
        ensures
            final(self)@ == (QueueState { quantum: quantum as nat, ..old(self)@ }),
    {
        self.quantum = quantum;
    }

    /// Sets the length of a window. The running window keeps its start and
    /// its allowance; its end is judged by the new length.
    pub fn set_interval(&mut self, interval: Span)
        ensures
            final(self)@ == (QueueState { interval: interval@, ..old(self)@ }),
    {
        self.interval = interval;
    }

    /// Appends an item to the tail.
    pub fn enqueue(&mut self, value: T)
        ensures
            final(self)@ == old(self)@.enqueue(value),
    {
        self.queue.push_back(value);
    }

    /// Appends all of `values` to the tail, in their order.
    pub fn extend(&mut self, values: Vec<T>)
        ensures
            final(self)@ == old(self)@.extend(values@),
    {
        let ghost before = self@;
        let ghost all = values@;
        for value in it: values
            invariant
                it.seq() == all,
                self@ == before.extend(all.take(it.index())),
        {
            assert(before.items + all.take(it.index() + 1) =~= (before.items + all.take(
                it.index(),
            )).push(value));
            self.queue.push_back(value);
        }
        assert(all.take(all.len() as int) =~= all);
    }

    /// The number of queued items.
    pub fn len(&self) -> (len: usize)
        ensures
            len == self@.items.len(),
    {
        self.queue.len()
    }

    /// Whether nothing is queued.
    pub fn is_empty(&self) -> (empty: bool)
        ensures
            empty == (self@.items.len() == 0),
    {
        self.queue.len() == 0
    }

    /// Drops the items behind the first `len`. A queue that holds no more
    /// than `len` items keeps them all.
    pub fn truncate(&mut self, len: usize)
        ensures
            final(self)@ == (QueueState {
                items: if len <= old(self)@.items.len() {
                    old(self)@.items.take(len as int)
                } else {
                    old(self)@.items
                },
                ..old(self)@
            }),
    {
        self.queue.truncate(len);
    }

    /// How many items an iteration shows.
    fn visible_count(&self) -> (count: usize)
        ensures
            count == self@.visible_len(),
    {
        let len = self.queue.len();
        if self.allowance <= len {
            self.allowance
        } else {
            len
        }
    }

    /// The items that the running window would still let out, head first.
    ///
    /// Looking changes nothing: the queue, its allowance and its window
    /// stay as they are, so looking again shows the same items.
    pub fn iter(&mut self) -> (items: Vec<&T>)
        ensures
            items@.len() == old(self)@.visible().len(),
            forall|i: int|
                0 <= i < items@.len() ==> *#[trigger] items@[i] == old(self)@.visible()[i],
            *final(self) == *old(self),
    {
        let count = self.visible_count();
        let mut items: Vec<&T> = Vec::new();
        let mut at: usize = 0;
        while at < count
            invariant
                at <= count,
                count == self@.visible_len(),
                items@.len() == at,
                forall|i: int| 0 <= i < at ==> *#[trigger] items@[i] == self@.items[i],
            decreases count - at,
        {
            items.push(&self.queue[at]);
            at += 1;
        }
        items
    }

    /// The items that the running window would still let out, head first,
    /// each open to change in place. No item joins, leaves or moves, and
    /// the items that are not shown stay as they are.
    pub fn iter_mut(&mut self) -> (items: Vec<&mut T>)
        ensures
            items@.len() == old(self)@.visible().len(),
            forall|i: int|
                0 <= i < items@.len() ==> *#[trigger] items@[i] == old(self)@.visible()[i],
            final(self)@.items.len() == old(self)@.items.len(),
            forall|i: int|
                0 <= i < items@.len() ==> #[trigger] final(self)@.items[i] == *final(items@[i]),
            forall|i: int|
                items@.len() <= i < old(self)@.items.len() ==> #[trigger] final(self)@.items[i]
                    == old(self)@.items[i],
            final(self)@ == (QueueState { items: final(self)@.items, ..old(self)@ }),
    {
        let count = self.visible_count();
        range_front_mut(&mut self.queue, count)
    }
}

} // verus!
