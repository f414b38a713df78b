//! The queue as a mathematical value, and what one removal attempt does to
//! it.
//!
//! Time is a natural number of nanoseconds on the queue's own clock, which
//! reads zero when the queue is made.

use vstd::prelude::*;
use crate::outcome::Outcome;

verus! {

/// The abstract state of a rate-limited queue.
pub struct QueueState<T> {
    /// The queued items, head first.
    pub items: Seq<T>,
    /// How many items may leave in one window.
    pub quantum: nat,
    /// The length of a window.
    pub interval: nat,
    /// How many items may still leave in the running window.
    pub allowance: nat,
    /// When the running window began.
    pub window_start: nat,
}

/// One thing that happens to a queue: an item joins, or someone tries to
/// take the head item at a given time.
pub enum Event<T> {
    /// The item joins the tail.
    Enqueue(T),
    /// A removal is attempted at this time.
    Attempt(nat),
}

impl<T> QueueState<T> {
    /// The state of a queue that was just made: nothing queued, a full
    /// allowance, and a window that begins at time zero.
    pub open spec fn fresh(quantum: nat, interval: nat) -> QueueState<T> {
        QueueState {
            items: Seq::empty(),
            quantum,
            interval,
            allowance: quantum,
            window_start: 0,
        }
    }

    /// The allowance does not exceed the quantum. This holds of a fresh
    /// queue and whenever a window begins; only lowering the quantum in the
    /// middle of a window can undo it, until the next window begins.
    pub open spec fn within_quantum(self) -> bool {
        self.allowance <= self.quantum
    }

    /// The time that has passed since the running window began, as seen at
    /// `now`. A reading that lies before the window's start counts as no
    /// time at all.
    pub open spec fn elapsed(self, now: nat) -> nat {
        if now >= self.window_start {
            (now - self.window_start) as nat
        } else {
            0
        }
    }

    /// Whether an attempt at `now` ends the running window: items wait, the
    /// allowance is used up, and a full interval has passed.
    pub open spec fn rolls_over(self, now: nat) -> bool {
        &&& self.items.len() > 0
        &&& self.allowance == 0
        &&& self.elapsed(now) >= self.interval
    }

    /// Whether an attempt at `now` hands out the head item: either the
    /// running window has allowance left, or a new window begins and brings
    /// at least one token.
    pub open spec fn releases(self, now: nat) -> bool {
        &&& self.items.len() > 0
        &&& (self.allowance > 0 || (self.rolls_over(now) && self.quantum > 0))
    }

    /// What an attempt at `now` returns.
    ///
    /// An empty queue answers `Empty` whatever the allowance. A window that
    /// begins with a quantum of zero brings no token, so the attempt is
    /// turned away for the whole of the new window.
    pub open spec fn outcome(self, now: nat) -> Outcome<T> {
        if self.items.len() == 0 {
            Outcome::Empty
        } else if self.releases(now) {
            Outcome::Data(self.items[0])
        } else if self.rolls_over(now) {
            Outcome::Limit(self.interval)
        } else {
            Outcome::Limit((self.interval - self.elapsed(now)) as nat)
        }
    }

    /// The state after an attempt at `now`.
    ///
    /// The quantum and the interval never change. The head item leaves
    /// exactly when it is handed out. A new window begins at `now` with the
    /// quantum as its allowance, less the token that the attempt itself
    /// takes.
    pub open spec fn step(self, now: nat) -> QueueState<T> {
        QueueState {
            items: if self.releases(now) {
                self.items.drop_first()
            } else {
                self.items
            },
            quantum: self.quantum,
            interval: self.interval,
            allowance: if self.rolls_over(now) {
                if self.quantum > 0 {
                    (self.quantum - 1) as nat
                } else {
                    0
                }
            } else if self.releases(now) {
                (self.allowance - 1) as nat
            } else {
                self.allowance
            },
            window_start: if self.rolls_over(now) {
                now
            } else {
                self.window_start
            },
        }
    }

    /// The state after `value` has joined the tail.
    pub open spec fn enqueue(self, value: T) -> QueueState<T> {
        QueueState { items: self.items.push(value), ..self }
    }

    /// The state after all of `values` have joined the tail, in order.
    pub open spec fn extend(self, values: Seq<T>) -> QueueState<T> {
        QueueState { items: self.items + values, ..self }
    }

    /// The state after one event.
    pub open spec fn apply(self, event: Event<T>) -> QueueState<T> {
        match event {
            Event::Enqueue(value) => self.enqueue(value),
            Event::Attempt(now) => self.step(now),
        }
    }

    /// Whether the event hands out an item.
    pub open spec fn yields(self, event: Event<T>) -> bool {
        match event {
            Event::Enqueue(_) => false,
            Event::Attempt(now) => self.releases(now),
        }
    }

    /// The state after all of `events`, in turn.
    pub open spec fn run(self, events: Seq<Event<T>>) -> QueueState<T>
        decreases events.len(),
    {
        if events.len() == 0 {
            self
        } else {
            self.apply(events[0]).run(events.drop_first())
        }
    }

    /// The items that the attempts among `events` hand out, in the order
    /// in which they leave.
    pub open spec fn drained(self, events: Seq<Event<T>>) -> Seq<T>
        decreases events.len(),
    {
        if events.len() == 0 {
            Seq::empty()
        } else {
            let later = self.apply(events[0]).drained(events.drop_first());
            if self.yields(events[0]) {
                seq![self.items[0]] + later
            } else {
                later
            }
        }
    }

    /// Whether every attempt among `events` comes while the window that is
    /// running in this state has not yet lasted for a full interval.
    pub open spec fn within_window(self, events: Seq<Event<T>>) -> bool {
        forall|i: int|
            0 <= i < events.len() ==> match #[trigger] events[i] {
                Event::Enqueue(_) => true,
                Event::Attempt(now) => self.elapsed(now) < self.interval,
            }
    }

    /// How many items an iteration shows: those that the running window
    /// would still let out.
    pub open spec fn visible_len(self) -> nat {
        if self.allowance <= self.items.len() {
            self.allowance
        } else {
            self.items.len()
        }
    }

    /// The items that an iteration shows, head first.
    pub open spec fn visible(self) -> Seq<T> {
        self.items.take(self.visible_len() as int)
    }
}

/// The items that join among `events`, in the order in which they join.
pub open spec fn enqueued<T>(events: Seq<Event<T>>) -> Seq<T>
    decreases events.len(),
{
    if events.len() == 0 {
        Seq::empty()
    } else {
        let later = enqueued(events.drop_first());
        match events[0] {
            Event::Enqueue(value) => seq![value] + later,
            Event::Attempt(_) => later,
        }
    }
}

/// Whether all of `events` are removal attempts.
pub open spec fn only_attempts<T>(events: Seq<Event<T>>) -> bool {
    forall|i: int| 0 <= i < events.len() ==> #[trigger] events[i] is Attempt
}

/// Whether the attempts among `events` come at times that never go back,
/// none of them before `from`.
pub open spec fn in_time_order<T>(events: Seq<Event<T>>, from: nat) -> bool
    decreases events.len(),
{
    if events.len() == 0 {
        true
    } else {
        match events[0] {
            Event::Enqueue(_) => in_time_order(events.drop_first(), from),
            Event::Attempt(now) => from <= now && in_time_order(events.drop_first(), now),
        }
    }
}

/// The time of the last attempt among `events`, or `from` where there is
/// none.
pub open spec fn end_time<T>(events: Seq<Event<T>>, from: nat) -> nat
    decreases events.len(),
{
    if events.len() == 0 {
        from
    } else {
        match events[0] {
            Event::Enqueue(_) => end_time(events.drop_first(), from),
            Event::Attempt(now) => end_time(events.drop_first(), now),
        }
    }
}

} // verus!
