//! What holds of every queue, proved over the abstract state.

use vstd::prelude::*;
use crate::blocking::{decided, Step};
use crate::outcome::{DequeueResult, Outcome};
use crate::span::Span;
use crate::state::{end_time, enqueued, in_time_order, only_attempts, Event, QueueState};

verus! {

/// An empty queue answers `Empty` at any time and with any allowance, and
/// the attempt changes nothing.
pub proof fn lemma_empty_comes_first<T>(state: QueueState<T>, now: nat)
    requires
        state.items.len() == 0,
    ensures
        state.outcome(now) == Outcome::<T>::Empty,
        state.step(now) == state,
{
}

/// While the window has allowance left, an attempt on a queue that holds
/// items hands out the head item and takes one token, whatever the time.
pub proof fn lemma_token_releases_head<T>(state: QueueState<T>, now: nat)
    requires
        state.items.len() > 0,
        state.allowance > 0,
    ensures
        state.outcome(now) == Outcome::Data(state.items[0]),
        state.step(now) == (QueueState {
            items: state.items.drop_first(),
            allowance: (state.allowance - 1) as nat,
            ..state
        }),
{
}

/// With the allowance used up, items still queued and the window not yet
/// over, an attempt is turned away: it returns `Limit` with the time that
/// is left of the window, which is more than nothing and no more than the
/// interval, and it changes nothing.
pub proof fn lemma_limit_until_window_ends<T>(state: QueueState<T>, now: nat)
    requires
        state.items.len() > 0,
        state.allowance == 0,
        state.elapsed(now) < state.interval,
    ensures
        state.outcome(now) == Outcome::<T>::Limit((state.interval - state.elapsed(now)) as nat),
        0 < state.interval - state.elapsed(now) <= state.interval,
        state.step(now) == state,
{
}

/// With the allowance used up and the window over, an attempt begins a new
/// window at `now`. Where the quantum is positive the head item leaves and
/// the new window keeps the quantum less one; allowance that was not used
/// in an earlier window is not added.
pub proof fn lemma_rollover<T>(state: QueueState<T>, now: nat)
    requires
        state.items.len() > 0,
        state.allowance == 0,
        state.elapsed(now) >= state.interval,
        state.quantum > 0,
    ensures
        state.outcome(now) == Outcome::Data(state.items[0]),
        state.step(now) == (QueueState {
            items: state.items.drop_first(),
            allowance: (state.quantum - 1) as nat,
            window_start: now,
            ..state
        }),
{
}

/// A queue whose quantum is zero never hands out an item once its
/// allowance is used up: every attempt on a queue that holds items is
/// turned away, and a window that is over is begun anew.
pub proof fn lemma_zero_quantum_never_releases<T>(state: QueueState<T>, now: nat)
    requires
        state.items.len() > 0,
        state.allowance == 0,
        state.quantum == 0,
    ensures
        state.outcome(now) is Limit,
        state.step(now).items == state.items,
        state.step(now).allowance == 0,
{
}

/// After an attempt the allowance is within the quantum if it was so
/// before, and in any case once a new window has begun.
pub proof fn lemma_allowance_stays_within_quantum<T>(state: QueueState<T>, now: nat)
    ensures
        state.within_quantum() || state.rolls_over(now) ==> state.step(now).within_quantum(),
{
}

/// Waiting as long as `Limit` says is enough: if an attempt at `now`, not
/// before the window began, is turned away with `rest` and the quantum is
/// positive, then an attempt at any time from `now + rest` on hands out the
/// head item.
pub proof fn lemma_wait_then_data<T>(state: QueueState<T>, now: nat, rest: nat, later: nat)
    requires
        state.window_start <= now,
        state.quantum > 0,
        state.outcome(now) == Outcome::<T>::Limit(rest),
        now + rest <= later,
    ensures
        state.step(now) == state,
        state.step(now).outcome(later) == Outcome::Data(state.items[0]),
{
}

/// A removal that waits knows after its first attempt what to do: on an
/// empty queue it returns nothing, where the head item was handed out it
/// returns that item, and else it sleeps.
pub proof fn lemma_waiting_removal_first_attempt<T>(
    state: QueueState<T>,
    now: nat,
    first: DequeueResult<T>,
)
    requires
        first@ == state.outcome(now),
    ensures
        state.items.len() == 0 ==> decided(first, false) == Step::<T>::Return(None),
        state.releases(now) ==> decided(first, false) == Step::Return(Some(state.items[0])),
        state.items.len() > 0 && !state.releases(now) ==> decided(first, false) is Sleep,
{
}

/// A removal that waits does not stall: where the first attempt is turned
/// away, the quantum is positive and the clock does not go back, the
/// attempt that follows a sleep as long as the limit says hands out the
/// head item, and the removal returns it.
pub proof fn lemma_waiting_removal_after_sleep<T>(
    state: QueueState<T>,
    now: nat,
    first: DequeueResult<T>,
    rest: Span,
    later: nat,
    second: DequeueResult<T>,
)
    requires
        state.quantum > 0,
        state.window_start <= now,
        first@ == state.outcome(now),
        decided(first, false) == Step::<T>::Sleep(rest),
        now + rest@ <= later,
        second@ == state.step(now).outcome(later),
    ensures
        decided(second, true) == Step::Return(Some(state.items[0])),
{
}

/// First in, first out: the items that have left, followed by the items
/// still queued, are the items that were queued at the start followed by
/// those that joined, whatever the times of the attempts and however many
/// of them were turned away.
pub proof fn lemma_fifo<T>(state: QueueState<T>, events: Seq<Event<T>>)
    ensures
        state.drained(events) + state.run(events).items == state.items + enqueued(events),
    decreases events.len(),
{
    if events.len() == 0 {
        assert(state.drained(events) + state.run(events).items =~= state.items + enqueued(events));
    } else {
        let next = state.apply(events[0]);
        let rest = events.drop_first();
        lemma_fifo(next, rest);
        match events[0] {
            Event::Enqueue(_) => {
                assert(state.drained(events) + state.run(events).items =~= state.items
                    + enqueued(events));
            },
            Event::Attempt(now) => {
                if state.releases(now) {
                    let head = seq![state.items[0]];
                    assert(head + (next.items + enqueued(rest)) =~= state.items
                        + enqueued(events));
                }
            },
        }
    }
}

/// Items that join an empty queue and are then all taken come out in the
/// order in which they went in: once the queue is empty again, the items
/// that have left are the items that joined.
pub proof fn lemma_fifo_when_exhausted<T>(state: QueueState<T>, events: Seq<Event<T>>)
    requires
        state.items.len() == 0,
        state.run(events).items.len() == 0,
    ensures
        state.drained(events) == enqueued(events),
{
    lemma_fifo(state, events);
}

/// Within one window no more items leave than the allowance that the
/// window had: as long as no attempt comes after the window is over, the
/// window stays the same, every item that leaves takes one token, and so
/// the items that leave are no more than the allowance, and no more than
/// the quantum where the allowance was within it.
pub proof fn lemma_allowance_bound<T>(state: QueueState<T>, events: Seq<Event<T>>)
    requires
        state.within_window(events),
    ensures
        state.run(events).window_start == state.window_start,
        state.run(events).allowance + state.drained(events).len() == state.allowance,
        state.drained(events).len() <= state.allowance,
        state.within_quantum() ==> state.drained(events).len() <= state.quantum,
    decreases events.len(),
{
    if events.len() > 0 {
        let next = state.apply(events[0]);
        let rest = events.drop_first();
        assert forall|i: int| 0 <= i < rest.len() implies match #[trigger] rest[i] {
            Event::Enqueue(_) => true,
            Event::Attempt(now) => next.elapsed(now) < next.interval,
        } by {
            assert(rest[i] == events[i + 1]);
        }
        lemma_allowance_bound(next, rest);
    }
}

/// A window that begins with a positive quantum lets out no more than the
/// quantum, the item that leaves at its beginning included.
pub proof fn lemma_quantum_bounds_new_window<T>(
    state: QueueState<T>,
    now: nat,
    events: Seq<Event<T>>,
)
    requires
        state.rolls_over(now),
        state.quantum > 0,
        state.step(now).within_window(events),
    ensures
        state.releases(now),
        1 + state.step(now).drained(events).len() <= state.quantum,
{
    lemma_allowance_bound(state.step(now), events);
}

/// A queue with a quantum of zero and no allowance never hands out an
/// item, whenever the attempts come.
pub proof fn lemma_zero_quantum_drains_nothing<T>(state: QueueState<T>, events: Seq<Event<T>>)
    requires
        state.quantum == 0,
        state.allowance == 0,
    ensures
        state.drained(events).len() == 0,
        state.run(events).items == state.items + enqueued(events),
    decreases events.len(),
{
    if events.len() > 0 {
        lemma_zero_quantum_drains_nothing(state.apply(events[0]), events.drop_first());
    }
    lemma_fifo(state, events);
}

/// The items that an iteration shows are the items that leave next
/// without waiting: as many attempts as items are shown, at any times,
/// hand out exactly those items.
pub proof fn lemma_visible_items_leave_next<T>(state: QueueState<T>, events: Seq<Event<T>>)
    requires
        only_attempts(events),
        events.len() == state.visible_len(),
    ensures
        state.drained(events) == state.visible(),
    decreases events.len(),
{
    if events.len() == 0 {
        assert(state.drained(events) =~= state.visible());
    } else {
        let next = state.apply(events[0]);
        let rest = events.drop_first();
        assert forall|i: int| 0 <= i < rest.len() implies #[trigger] rest[i] is Attempt by {
            assert(rest[i] == events[i + 1]);
        }
        lemma_visible_items_leave_next(next, rest);
        assert(state.drained(events) =~= state.visible());
    }
}

/// The last attempt of events that come in time order is not before the
/// time from which they are counted.
pub proof fn lemma_end_time_not_before<T>(events: Seq<Event<T>>, from: nat)
    requires
        in_time_order(events, from),
    ensures
        from <= end_time(events, from),
    decreases events.len(),
{
    if events.len() > 0 {
        match events[0] {
            Event::Enqueue(_) => lemma_end_time_not_before(events.drop_first(), from),
            Event::Attempt(now) => lemma_end_time_not_before(events.drop_first(), now),
        }
    }
}

/// Each window beyond the running one costs a full interval: if more items
/// leave than the running window's allowance and `windows` further quanta
/// allow, then the last attempt comes at least `windows + 1` intervals
/// after the running window began.
pub proof fn lemma_windows_take_time<T>(
    state: QueueState<T>,
    events: Seq<Event<T>>,
    from: nat,
    windows: nat,
)
    requires
        state.window_start <= from,
        in_time_order(events, from),
        state.drained(events).len() > state.allowance + windows * state.quantum,
    ensures
        end_time(events, from) >= state.window_start + (windows + 1) * state.interval,
    decreases events.len(),
{
    if events.len() > 0 {
        let next = state.apply(events[0]);
        let rest = events.drop_first();
        match events[0] {
            Event::Enqueue(_) => {
                lemma_windows_take_time(next, rest, from, windows);
            },
            Event::Attempt(now) => {
                lemma_end_time_not_before(rest, now);
                if !state.rolls_over(now) {
                    lemma_windows_take_time(next, rest, now, windows);
                } else if state.quantum == 0 {
                    assert(windows * state.quantum == 0) by (nonlinear_arith)
                        requires
                            state.quantum == 0,
                    ;
                    lemma_windows_take_time(next, rest, now, windows);
                } else if windows == 0 {
                    assert((windows + 1) * state.interval == state.interval) by (nonlinear_arith)
                        requires
                            windows == 0,
                    ;
                } else {
                    let fewer = (windows - 1) as nat;
                    assert(windows * state.quantum == fewer * state.quantum + state.quantum)
                        by (nonlinear_arith)
                        requires
                            fewer == windows - 1,
                    ;
                    assert((windows + 1) * state.interval == (fewer + 1) * state.interval
                        + state.interval) by (nonlinear_arith)
                        requires
                            fewer == windows - 1,
                    ;
                    lemma_windows_take_time(next, rest, now, fewer);
                }
            },
        }
    }
}

/// Allowance does not pile up: counted from the beginning of a window
/// whose allowance is within the quantum, draining `windows` full quanta
/// takes at least `windows - 1` intervals, however long the queue stood
/// idle in between. Stated for every count of items: if more than
/// `windows` quanta of items have left, at least `windows` intervals have
/// passed between the beginning of the window and the last attempt.
pub proof fn lemma_no_accumulation<T>(state: QueueState<T>, events: Seq<Event<T>>, windows: nat)
    requires
        state.within_quantum(),
        in_time_order(events, state.window_start),
        state.drained(events).len() > windows * state.quantum,
    ensures
        end_time(events, state.window_start) >= state.window_start + windows * state.interval,
{
    if windows == 0 {
        lemma_end_time_not_before(events, state.window_start);
        assert(windows * state.interval == 0) by (nonlinear_arith)
            requires
                windows == 0,
        ;
    } else {
        let fewer = (windows - 1) as nat;
        assert(windows * state.quantum == fewer * state.quantum + state.quantum)
            by (nonlinear_arith)
            requires
                fewer == windows - 1,
        ;
        assert((fewer + 1) * state.interval == windows * state.interval) by (nonlinear_arith)
            requires
                fewer == windows - 1,
        ;
        lemma_windows_take_time(state, events, state.window_start, fewer);
    }
}

} // verus!
