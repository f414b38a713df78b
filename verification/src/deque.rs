//! Mutable access to the head of the backing store.

use vstd::prelude::*;
use std::collections::VecDeque;

verus! {

/// The first `count` items of `queue`, head first, each by mutable
/// reference: `VecDeque::range_mut` over `..count`, gathered into a vector.
///
/// Taken on trust from the documentation of `range_mut`: it walks the given
/// range front to back, it panics only when the range ends behind the last
/// item, and it can change no item outside the range nor the number of
/// items. So each reference starts at the item in its place, the item in
/// that place ends as the reference leaves it, and the rest is untouched.
#[verifier::external_body]
pub(crate) fn range_front_mut<T>(queue: &mut VecDeque<T>, count: usize) -> (items: Vec<&mut T>)
    requires
        count <= old(queue)@.len(),
    ensures
        items@.len() == count,
        final(queue)@.len() == old(queue)@.len(),
        forall|i: int| 0 <= i < count ==> *#[trigger] items@[i] == old(queue)@[i],
        forall|i: int| 0 <= i < count ==> #[trigger] final(queue)@[i] == *final(items@[i]),
        forall|i: int|
            count <= i < old(queue)@.len() ==> #[trigger] final(queue)@[i] == old(queue)@[i],
{
    queue.range_mut(..count).collect()
}

} // verus!
