//! The decisions of a removal that waits for the next window.
//!
//! The sleep itself is left to the caller: after each attempt the caller
//! asks [`decide`] what to do, sleeps where it is told to, and tries once
//! more.

use vstd::prelude::*;
use crate::outcome::DequeueResult;
use crate::span::Span;

verus! {

/// What a waiting removal does after an attempt.
#[derive(Debug, PartialEq, Eq)]
pub enum Step<T> {
    /// Return this: the item that left, or `None` for an empty queue.
    Return(Option<T>),
    /// Sleep for this long, then try once more.
    Sleep(Span),
    /// The queue gave no item to an attempt made after the sleep. With a
    /// positive quantum, a clock that does not go back and no one else
    /// taking items, this cannot happen.
    Stalled,
}

/// What a waiting removal does with the result of an attempt. `slept`
/// says whether it has slept for this item before.
///
/// An item is returned whenever one left. Before the sleep, an empty queue
/// ends the removal with nothing and a limit asks for a sleep as long as
/// the limit says. After the sleep, anything but an item means that the
/// removal has stalled.
pub open spec fn decided<T>(result: DequeueResult<T>, slept: bool) -> Step<T> {
    match result {
        DequeueResult::Data(value) => Step::Return(Some(value)),
        DequeueResult::Empty => if slept {
            Step::Stalled
        } else {
            Step::Return(None)
        },
        DequeueResult::Limit(rest) => if slept {
            Step::Stalled
        } else {
            Step::Sleep(rest)
        },
    }
}

/// Decides what a waiting removal does with the result of an attempt.
pub fn decide<T>(result: DequeueResult<T>, slept: bool) -> (step: Step<T>)
    ensures
        step == decided(result, slept),
{
    match result {
        DequeueResult::Data(value) => Step::Return(Some(value)),
        DequeueResult::Empty => if slept {
            Step::Stalled
        } else {
            Step::Return(None)
        },
        DequeueResult::Limit(rest) => if slept {
            Step::Stalled
        } else {
            Step::Sleep(rest)
        },
    }
}

} // verus!
