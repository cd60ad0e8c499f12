//! Trusted boundary around `queues::Queue`, the FIFO backing store of a
//! time series. Verified code sees the queue only through `queue_elems`,
//! the sequence of held samples, oldest first.

use vstd::prelude::*;
use queues::IsQueue;

verus! {

#[verifier::external_type_specification]
#[verifier::external_body]
#[verifier::reject_recursive_types(T)]
pub struct ExQueue<T: Clone>(queues::Queue<T>);

/// The samples a queue holds, oldest first.
pub uninterp spec fn queue_elems(q: queues::Queue<u64>) -> Seq<u64>;

/// Relies on queues::Queue::new: a fresh queue holds nothing.
#[verifier::external_body]
pub(crate) fn queue_new() -> (q: queues::Queue<u64>)
    ensures
        queue_elems(q) == Seq::<u64>::empty(),
{
    queues::Queue::new()
}

/// Relies on queues::IsQueue::add for Queue: appends the value at the
/// newest end and always succeeds (the queue is unbounded).
#[verifier::external_body]
pub(crate) fn queue_add(q: &mut queues::Queue<u64>, value: u64)
    ensures
        queue_elems(*final(q)) == queue_elems(*old(q)).push(value),
{
    let _ = q.add(value);
}

/// Relies on queues::IsQueue::remove for Queue: takes out the oldest
/// element, or errs when the queue is empty.
#[verifier::external_body]
pub(crate) fn queue_remove(q: &mut queues::Queue<u64>) -> (r: Option<u64>)
    ensures
        queue_elems(*old(q)).len() == 0 ==> r is None
            && queue_elems(*final(q)) == queue_elems(*old(q)),
        queue_elems(*old(q)).len() > 0 ==> r == Some(queue_elems(*old(q))[0])
            && queue_elems(*final(q)) == queue_elems(*old(q)).drop_first(),
{
    match q.remove() {
        Ok(v) => Some(v),
        Err(_) => None,
    }
}

/// Relies on queues::IsQueue::size for Queue: the number of held elements.
#[verifier::external_body]
pub(crate) fn queue_len(q: &queues::Queue<u64>) -> (n: usize)
    ensures
        n == queue_elems(*q).len(),
{
    q.size()
}

} // verus!
