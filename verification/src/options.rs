//! The options that an actor is created with.

use vstd::prelude::*;

verus! {

/// How an actor runs: on threads of its own or on the shared runtime, how it
/// stops, how many messages one run of its loop handles, and whether its
/// mailbox is bounded.
#[derive(Clone, Copy, Debug)]
pub struct PropsOption {
    num_thread: Option<usize>,
    graceful_stop: bool,
    throughput: usize,
    bounded: Option<usize>,
}

/// The model of a `PropsOption`: its four settings.
pub struct PropsOptionView {
    pub num_thread: Option<usize>,
    pub graceful_stop: bool,
    pub throughput: usize,
    pub bounded: Option<usize>,
}

impl View for PropsOption {
    type V = PropsOptionView;

    closed spec fn view(&self) -> PropsOptionView {
        PropsOptionView {
            num_thread: self.num_thread,
            graceful_stop: self.graceful_stop,
            throughput: self.throughput,
            bounded: self.bounded,
        }
    }
}

/// The number of messages one run of an actor's loop handles by default.
pub const DEFAULT_THROUGHPUT: usize = 500;

/// The least number of worker threads of an actor's own runtime.
pub const MIN_WORKER_THREADS: usize = 2;

impl Default for PropsOption {
    fn default() -> (r: Self)
        ensures
            r@ == (PropsOptionView {
                num_thread: None,
                graceful_stop: false,
                throughput: DEFAULT_THROUGHPUT,
                bounded: None,
            }),
    {
        PropsOption {
            num_thread: None,
            graceful_stop: false,
            throughput: DEFAULT_THROUGHPUT,
            bounded: None,
        }
    }
}

impl PropsOption {
    /// The number of threads asked for the actor's own runtime, if any.
    pub fn dedicated_thread(&self) -> (r: Option<usize>)
        ensures
            r == self@.num_thread,
    {
        self.num_thread
    }

    /// Whether stopping the actor first lets it handle what its mailbox
    /// already holds.
    pub fn graceful_stop(&self) -> (r: bool)
        ensures
            r == self@.graceful_stop,
    {
        self.graceful_stop
    }

    /// How many messages one run of the actor's loop handles at most.
    pub fn throughput(&self) -> (r: usize)
        ensures
            r == self@.throughput,
    {
        self.throughput
    }

    /// The capacity of the mailbox, if it is bounded.
    pub fn bounded(&self) -> (r: Option<usize>)
        ensures
            r == self@.bounded,
    {
        self.bounded
    }

    /// These options with a runtime of `num_thread` threads of the actor's own.
    pub fn with_dedicated_thread(self, num_thread: usize) -> (r: Self)
        ensures
            r@ == (PropsOptionView { num_thread: Some(num_thread), ..self@ }),
    {
        PropsOption { num_thread: Some(num_thread), ..self }
    }

    /// These options with a graceful stop.
    pub fn with_graceful_stop(self) -> (r: Self)
        ensures
            r@ == (PropsOptionView { graceful_stop: true, ..self@ }),
    {
        PropsOption { graceful_stop: true, ..self }
    }

    /// These options with at most `throughput` messages per run of the loop.
    pub fn with_throughput(self, throughput: usize) -> (r: Self)
        ensures
            r@ == (PropsOptionView { throughput, ..self@ }),
    {
        PropsOption { throughput, ..self }
    }

    /// These options with a mailbox that holds at most `size` messages.
    pub fn with_bounded_queue(self, size: usize) -> (r: Self)
        ensures
            r@ == (PropsOptionView { bounded: Some(size), ..self@ }),
    {
        PropsOption { bounded: Some(size), ..self }
    }

    /// The number of worker threads that the actor's own runtime is built
    /// with: what was asked for, but never fewer than two.
    pub fn worker_threads(&self) -> (r: Option<usize>)
        ensures
            r == (match self@.num_thread {
                Some(n) => Some(if n < MIN_WORKER_THREADS { MIN_WORKER_THREADS } else { n }),
                None => None::<usize>,
            }),
    {
        match self.num_thread {
            Some(n) => Some(if n < MIN_WORKER_THREADS { MIN_WORKER_THREADS } else { n }),
            None => None,
        }
    }

    /// Whether the actor runs on a runtime of its own.
    pub fn is_dedicated(&self) -> (r: bool)
        ensures
            r == self@.num_thread is Some,
    {
        self.num_thread.is_some()
    }
}

} // verus!
