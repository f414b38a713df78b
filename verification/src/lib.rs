//! A first-in, first-out queue that hands out at most a fixed number of items
//! in each window of time.
//!
//! [`RateLimitQueue`] keeps the items and the allowance of the running
//! window. An attempt to take an item ends in one of three ways, told by
//! [`DequeueResult`]: the head item, an empty queue, or a limit with the
//! time to wait. A window ends lazily: the attempt that finds the allowance
//! used up and the interval over begins the next one.
//!
//! The queue is specified over [`QueueState`], its mathematical value; the
//! module [`laws`] proves what holds of every queue.

pub mod blocking;
pub mod clock;
mod deque;
pub mod laws;
pub mod outcome;
pub mod queue;
pub mod span;
pub mod state;

pub use blocking::{decide, Step};
pub use outcome::{DequeueResult, Outcome};
pub use queue::RateLimitQueue;
pub use span::Span;
pub use state::{Event, QueueState};
