//! The three ways in which an attempt to take an item can end.

use vstd::prelude::*;
use vstd::std_specs::convert::FromSpecImpl;
use crate::span::Span;

verus! {

/// The mathematical value of a [`DequeueResult`]: the wait is a number of
/// nanoseconds.
pub enum Outcome<T> {
    /// The head item was handed out.
    Data(T),
    /// Nothing is queued.
    Empty,
    /// Items are queued but none may leave before this many nanoseconds
    /// have passed.
    Limit(nat),
}

/// The result of one attempt to take the head item.
#[derive(Debug, Clone, Copy, PartialEq, PartialOrd, Eq, Ord, Hash)]
pub enum DequeueResult<T> {
    /// The head item, now removed from the queue.
    Data(T),
    /// The queue holds nothing.
    Empty,
    /// The allowance of the running window is used up; the next item can
    /// leave once the given time has passed.
    Limit(Span),
}

impl<T> View for DequeueResult<T> {
    type V = Outcome<T>;

    open spec fn view(&self) -> Outcome<T> {
        match *self {
            DequeueResult::Data(value) => Outcome::Data(value),
            DequeueResult::Empty => Outcome::Empty,
            DequeueResult::Limit(rest) => Outcome::Limit(rest@),
        }
    }
}

impl<T> DequeueResult<T> {
    /// The item that was handed out, if one was.
    pub open spec fn item(self) -> Option<T> {
        match self {
            DequeueResult::Data(value) => Some(value),
            DequeueResult::Empty => None,
            DequeueResult::Limit(_) => None,
        }
    }

    /// Whether an item was handed out.
    pub fn is_data(&self) -> (yes: bool)
        ensures
            yes == (self is Data),
    {
        match self {
            DequeueResult::Data(_) => true,
            _ => false,
        }
    }

    /// Whether the queue was found empty.
    pub fn is_empty(&self) -> (yes: bool)
        ensures
            yes == (self is Empty),
    {
        match self {
            DequeueResult::Empty => true,
            _ => false,
        }
    }

    /// Whether the attempt was turned away for want of allowance.
    pub fn is_limit(&self) -> (yes: bool)
        ensures
            yes == (self is Limit),
    {
        match self {
            DequeueResult::Limit(_) => true,
            _ => false,
        }
    }
}

impl<T> From<Option<T>> for DequeueResult<T> {
    /// `Some` becomes `Data`, `None` becomes `Empty`.
    fn from(opt: Option<T>) -> (result: DequeueResult<T>) {
        match opt {
            Some(value) => DequeueResult::Data(value),
            None => DequeueResult::Empty,
        }
    }
}

impl<T> FromSpecImpl<Option<T>> for DequeueResult<T> {
    open spec fn obeys_from_spec() -> bool {
        true
    }

    open spec fn from_spec(opt: Option<T>) -> DequeueResult<T> {
        match opt {
            Some(value) => DequeueResult::Data(value),
            None => DequeueResult::Empty,
        }
    }
}

impl<T> From<DequeueResult<T>> for Option<T> {
    /// `Data` becomes `Some`; `Empty` and `Limit` become `None`.
    fn from(result: DequeueResult<T>) -> (opt: Option<T>) {
        match result {
            DequeueResult::Data(value) => Some(value),
            DequeueResult::Empty => None,
            DequeueResult::Limit(_) => None,
        }
    }
}

impl<T> FromSpecImpl<DequeueResult<T>> for Option<T> {
    open spec fn obeys_from_spec() -> bool {
        true
    }

    open spec fn from_spec(result: DequeueResult<T>) -> Option<T> {
        result.item()
    }
}

} // verus!
