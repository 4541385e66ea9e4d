//! A clonable multi-producer queue, drained by one polling consumer.
//!
//! Worker threads send results (a connected camera, a device list) into
//! the queue; the UI task drains it on each poll. Every clone shares one
//! queue, whatever the payload type.

use std::sync::Arc;

use vstd::prelude::*;
use vstd::rwlock::{RwLock, RwLockPredicate};

use crate::registry::share_arc;

verus! {

/// Lock predicate of a queue: every sequence of pending values is allowed.
pub struct AnyPending;

impl<T> RwLockPredicate<Vec<T>> for AnyPending {
    open spec fn inv(self, v: Vec<T>) -> bool {
        true
    }
}

/// The pending values `pending` after `sent` are sent one by one, in order.
pub open spec fn after_sends<T>(pending: Seq<T>, sent: Seq<T>) -> Seq<T>
    decreases sent.len(),
{
    if sent.len() == 0 {
        pending
    } else {
        after_sends(pending, sent.drop_last()).push(sent.last())
    }
}

/// Appends one sent value to the pending values.
pub fn enqueue<T>(pending: &mut Vec<T>, value: T)
    ensures
        final(pending)@ == after_sends(old(pending)@, seq![value]),
{
    let ghost before = pending@;
    pending.push(value);
    proof {
        let one = seq![value];
        assert(one.drop_last() =~= Seq::<T>::empty());
        assert(after_sends(before, Seq::<T>::empty()) == before);
        assert(one.last() == value);
        assert(after_sends(before, one) == after_sends(before, one.drop_last()).push(one.last()));
    }
}

/// Takes every pending value, leaving none.
pub fn take_pending<T>(pending: &mut Vec<T>) -> (taken: Vec<T>)
    ensures
        taken@ == old(pending)@,
        final(pending)@ == Seq::<T>::empty(),
{
    let mut taken: Vec<T> = Vec::new();
    std::mem::swap(&mut taken, pending);
    taken
}

/// A drain returns what was sent, in order: sending each value of `sent`
/// to a queue holding `pending` leaves `pending` followed by `sent`, which
/// [`take_pending`] hands out whole.
pub proof fn lemma_drain_returns_sends_in_order<T>(pending: Seq<T>, sent: Seq<T>)
    ensures
        after_sends(pending, sent) == pending + sent,
    decreases sent.len(),
{
    if sent.len() > 0 {
        lemma_drain_returns_sends_in_order(pending, sent.drop_last());
        assert(pending + sent =~= (pending + sent.drop_last()).push(sent.last()));
    } else {
        assert(pending + sent =~= pending);
    }
}

/// Shared queue of values sent by producers and not yet drained.
pub struct Channel<T> {
    pending: Arc<RwLock<Vec<T>, AnyPending>>,
}

impl<T> Channel<T> {
    /// An empty queue.
    pub fn new() -> Channel<T> {
        let pending: Vec<T> = Vec::new();
        Channel { pending: Arc::new(RwLock::new(pending, Ghost(AnyPending))) }
    }

    /// Appends `value` to the queue.
    pub fn send(&self, value: T) {
        let (mut pending, handle) = self.pending.acquire_write();
        enqueue(&mut pending, value);
        handle.release_write(pending);
    }

    /// Takes every pending value, in the order sent, without waiting for
    /// more; the queue is left empty.
    pub fn drain(&self) -> Vec<T> {
        let (mut pending, handle) = self.pending.acquire_write();
        let taken = take_pending(&mut pending);
        handle.release_write(pending);
        taken
    }
}

/// A clone is another handle on the same queue; the payload type needs no
/// `Clone`.
impl<T> Clone for Channel<T> {
    fn clone(&self) -> (copy: Self)
        ensures
            copy == *self,
    {
        Channel { pending: share_arc(&self.pending) }
    }
}

} // verus!
