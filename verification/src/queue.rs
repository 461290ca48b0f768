//! The queue of an actor's messages: crossbeam's unbounded `SegQueue` or its
//! bounded `ArrayQueue`, shared between the senders and the dispatcher.
//!
//! Both queues are used from many threads at once through shared
//! references, so nothing that one thread sees of their contents stays true:
//! the contracts below state only what holds whatever the other threads do.

use std::sync::Arc;

use crossbeam::queue::{ArrayQueue, SegQueue};
use vstd::prelude::*;

use crate::message::Message;
use crate::options::PropsOption;

verus! {

#[verifier::external_type_specification]
#[verifier::external_body]
#[verifier::reject_recursive_types(T)]
pub struct ExSegQueue<T>(SegQueue<T>);

#[verifier::external_type_specification]
#[verifier::external_body]
#[verifier::reject_recursive_types(T)]
pub struct ExArrayQueue<T>(ArrayQueue<T>);

/// `SegQueue::new`: a new unbounded queue.
pub assume_specification<T>[ SegQueue::<T>::new ]() -> SegQueue<T>;

/// `SegQueue::push`: appends an element; an unbounded queue takes every
/// element.
pub assume_specification<T>[ SegQueue::<T>::push ](q: &SegQueue<T>, value: T);

/// `SegQueue::pop`: takes the oldest element, if any.
pub assume_specification<T>[ SegQueue::<T>::pop ](q: &SegQueue<T>) -> Option<T>;

/// `SegQueue::len`: the number of elements at some instant of the call.
pub assume_specification<T>[ SegQueue::<T>::len ](q: &SegQueue<T>) -> usize;

/// `ArrayQueue::new`: a queue of capacity `cap`. It panics when the
/// capacity is zero or too large for its index arithmetic, so those are left
/// out. What is not said: it also fails when the buffer of `cap` slots does
/// not fit in memory, which depends on the size of `T` and on the machine.
pub assume_specification<T>[ ArrayQueue::<T>::new ](cap: usize) -> ArrayQueue<T>
    requires
        0 < cap <= usize::MAX / 2,
;

/// `ArrayQueue::push`: appends an element unless the queue is full, in
/// which case the very element is handed back.
pub assume_specification<T>[ ArrayQueue::<T>::push ](q: &ArrayQueue<T>, value: T) -> (r: Result<(), T>)
    ensures
        r matches Err(v) ==> v == value,
;

/// `ArrayQueue::pop`: takes the oldest element, if any.
pub assume_specification<T>[ ArrayQueue::<T>::pop ](q: &ArrayQueue<T>) -> Option<T>;

/// `ArrayQueue::len`: the number of elements at some instant of the call.
pub assume_specification<T>[ ArrayQueue::<T>::len ](q: &ArrayQueue<T>) -> usize;

/// `Arc::clone`: another pointer to the same value.
#[verifier::external_body]
fn share<T>(a: &Arc<T>) -> (r: Arc<T>)
    ensures
        r == *a,
{
    a.clone()
}

enum Either<L, R> {
    Left(L),
    Right(R),
}

/// The queue of an actor's messages, unbounded or bounded.
#[verifier::reject_recursive_types(T)]
pub struct CrossbeamSegQueue<T> {
    queue: Either<Arc<SegQueue<Message<T>>>, Arc<ArrayQueue<Message<T>>>>,
}

impl<T> CrossbeamSegQueue<T> {
    /// Whether the queue has a capacity.
    pub closed spec fn is_bounded(&self) -> bool {
        self.queue is Right
    }

    /// An unbounded queue.
    #[allow(unused_variables)]
    pub fn unbounded(dedicated: bool) -> (r: Self)
        ensures
            !r.is_bounded(),
    {
        CrossbeamSegQueue { queue: Either::Left(Arc::new(SegQueue::new())) }
    }

    /// A queue that holds at most `size` messages.
    #[allow(unused_variables)]
    pub fn bounded(dedicated: bool, size: usize) -> (r: Self)
        requires
            0 < size <= usize::MAX / 2,
        ensures
            r.is_bounded(),
    {
        CrossbeamSegQueue { queue: Either::Right(Arc::new(ArrayQueue::new(size))) }
    }

    /// The queue that `option` asks for: bounded by its size when it names
    /// one, unbounded otherwise.
    pub fn from_option(option: &PropsOption) -> (r: Self)
        requires
            option@.bounded matches Some(size) ==> 0 < size <= usize::MAX / 2,
        ensures
            r.is_bounded() == option@.bounded is Some,
    {
        let dedicated = option.is_dedicated();
        match option.bounded() {
            Some(size) => CrossbeamSegQueue::bounded(dedicated, size),
            None => CrossbeamSegQueue::unbounded(dedicated),
        }
    }

    /// Another handle on the same queue.
    pub fn sender(&self) -> (r: Self)
        ensures
            r == *self,
            r.is_bounded() == self.is_bounded(),
    {
        match &self.queue {
            Either::Left(l) => CrossbeamSegQueue { queue: Either::Left(share(l)) },
            Either::Right(r) => CrossbeamSegQueue { queue: Either::Right(share(r)) },
        }
    }

    /// The number of messages waiting, at some instant of the call.
    pub fn len(&self) -> usize {
        match &self.queue {
            Either::Left(l) => l.len(),
            Either::Right(r) => r.len(),
        }
    }

    /// Appends `msg`. An unbounded queue always takes it; a full bounded one
    /// hands the very message back.
    pub fn push(&self, msg: Message<T>) -> (r: Result<(), Message<T>>)
        ensures
            !self.is_bounded() ==> r is Ok,
            r matches Err(m) ==> m == msg,
    {
        match &self.queue {
            Either::Left(l) => {
                l.push(msg);
                Ok(())
            },
            Either::Right(r) => r.push(msg),
        }
    }

    /// Takes the oldest message, if any.
    pub fn pop(&mut self) -> Option<Message<T>> {
        match &self.queue {
            Either::Left(l) => l.pop(),
            Either::Right(r) => r.pop(),
        }
    }
}

} // verus!
