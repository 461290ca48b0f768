//! The two flags of a mailbox, and how many messages one run handles.

use crossbeam::queue::SegQueue;
use vstd::prelude::*;

use crate::message::{InternalMessage, Message};
use crate::queue::CrossbeamSegQueue;

verus! {

/// The model of a mailbox's flags.
pub struct MailboxView {
    /// A run of the dispatcher is scheduled or under way.
    pub running: bool,
    /// The mailbox is closed: it takes no more messages.
    pub terminated: bool,
}

/// What scheduling a run does to the flags, and whether a run is to be
/// started: only when none is scheduled or under way.
pub open spec fn schedule_step(v: MailboxView) -> (MailboxView, bool) {
    (MailboxView { running: true, ..v }, !v.running)
}

/// What the end of a run does to the flags, and whether another run is to
/// be scheduled: when messages of the actor's type wait and the mailbox is
/// open, or when internal messages wait.
pub open spec fn finish_step(v: MailboxView, num_user_message: usize, num_internal_message: usize) -> (MailboxView, bool) {
    (
        MailboxView { running: false, ..v },
        (num_user_message > 0 && !v.terminated) || num_internal_message > 0,
    )
}

/// The flags of a mailbox: whether a run of its dispatcher is scheduled or
/// under way, and whether it is closed.
pub struct MailboxState {
    running: bool,
    terminated: bool,
}

impl View for MailboxState {
    type V = MailboxView;

    closed spec fn view(&self) -> MailboxView {
        MailboxView { running: self.running, terminated: self.terminated }
    }
}

impl MailboxState {
    /// An open mailbox with no run.
    pub fn new() -> (r: Self)
        ensures
            r@ == (MailboxView { running: false, terminated: false }),
    {
        MailboxState { running: false, terminated: false }
    }

    /// Whether the mailbox is closed.
    pub fn is_terminated(&self) -> (r: bool)
        ensures
            r == self@.terminated,
    {
        self.terminated
    }

    /// Closes the mailbox.
    pub fn close(&mut self)
        ensures
            final(self)@ == (MailboxView { terminated: true, ..old(self)@ }),
    {
        self.terminated = true;
    }

    /// Claims the run: true when a run is to be started, which is when none
    /// was scheduled or under way.
    pub fn schedule(&mut self) -> (r: bool)
        ensures
            (final(self)@, r) == schedule_step(old(self)@),
    {
        if self.running {
            false
        } else {
            self.running = true;
            true
        }
    }

    /// Sends `msg` through `queue`: an open mailbox puts it in the queue,
    /// and if the queue took it, claims a run. True when a run is to be
    /// started. A closed mailbox drops the message.
    pub fn send<T>(&mut self, queue: &CrossbeamSegQueue<T>, msg: Message<T>) -> (r: bool)
        ensures
            old(self)@.terminated ==> !r && final(self)@ == old(self)@,
            !old(self)@.terminated && !queue.is_bounded() ==> (final(self)@, r) == schedule_step(old(self)@),
            !old(self)@.terminated ==> ((final(self)@, r) == schedule_step(old(self)@) || (queue.is_bounded()
                && !r && final(self)@ == old(self)@)),
    {
        if !self.terminated {
            if queue.push(msg).is_ok() {
                return self.schedule();
            }
        }
        false
    }

    /// Sends `msg` through `queue`, and hands it back if it was not taken:
    /// because the mailbox is closed or the bounded queue is full. When it was
    /// taken, a run is claimed; `Ok(true)` when a run is to be started.
    pub fn try_send<T>(&mut self, queue: &CrossbeamSegQueue<T>, msg: Message<T>) -> (r: Result<bool, Message<T>>)
        ensures
            old(self)@.terminated ==> r == Err::<bool, Message<T>>(msg) && final(self)@ == old(self)@,
            !old(self)@.terminated ==> match r {
                Ok(start) => (final(self)@, start) == schedule_step(old(self)@),
                Err(m) => m == msg && queue.is_bounded() && final(self)@ == old(self)@,
            },
            !old(self)@.terminated && !queue.is_bounded() ==> r is Ok,
    {
        if !self.terminated {
            match queue.push(msg) {
                Ok(()) => Ok(self.schedule()),
                Err(m) => Err(m),
            }
        } else {
            Err(msg)
        }
    }

    /// Sends an internal message through `queue`, open mailbox or not, and
    /// claims a run. True when a run is to be started.
    pub fn send_internal<W>(&mut self, queue: &SegQueue<InternalMessage<W>>, msg: InternalMessage<W>) -> (r: bool)
        ensures
            (final(self)@, r) == schedule_step(old(self)@),
    {
        queue.push(msg);
        self.schedule()
    }

    /// Ends a run, with `num_user_message` and `num_internal_message`
    /// messages waiting; true when another run is to be scheduled.
    pub fn finish_run(&mut self, num_user_message: usize, num_internal_message: usize) -> (r: bool)
        ensures
            (final(self)@, r) == finish_step(old(self)@, num_user_message, num_internal_message),
    {
        self.running = false;
        if num_user_message > 0 && !self.terminated {
            true
        } else {
            num_internal_message > 0
        }
    }
}

/// Runs never overlap: once a run is claimed, every further claim fails
/// until the run ends, and after its end a claim succeeds.
pub proof fn lemma_one_run_at_a_time(v: MailboxView, num_user_message: usize, num_internal_message: usize)
    ensures
        schedule_step(v).0.running,
        !schedule_step(schedule_step(v).0).1,
        schedule_step(finish_step(v, num_user_message, num_internal_message).0).1,
{
}

/// At the end of a run the run is released, and another is scheduled
/// exactly when something waits that will be handled: on an open mailbox
/// any message; on a closed one only internal messages.
pub proof fn lemma_finish_reschedules_waiting(v: MailboxView, num_user_message: usize, num_internal_message: usize)
    ensures
        !finish_step(v, num_user_message, num_internal_message).0.running,
        finish_step(v, num_user_message, num_internal_message).0.terminated == v.terminated,
        !v.terminated && num_user_message > 0 ==> finish_step(v, num_user_message, num_internal_message).1,
        num_internal_message > 0 ==> finish_step(v, num_user_message, num_internal_message).1,
        num_user_message == 0 && num_internal_message == 0 ==> !finish_step(v, num_user_message, num_internal_message).1,
        v.terminated && num_internal_message == 0 ==> !finish_step(v, num_user_message, num_internal_message).1,
{
}

/// A closed mailbox stays closed whatever is scheduled or ended, and then a
/// run is rescheduled only for internal messages.
pub proof fn lemma_closed_stays_closed(v: MailboxView, num_user_message: usize, num_internal_message: usize)
    requires
        v.terminated,
    ensures
        schedule_step(v).0.terminated,
        finish_step(v, num_user_message, num_internal_message).0.terminated,
        finish_step(v, num_user_message, num_internal_message).1 == (num_internal_message > 0),
{
}

/// The model of a run's budget.
pub struct RunBudgetView {
    /// The most messages a run on the shared runtime handles.
    pub throughput: usize,
    /// The actor has a runtime of its own, where a run has no limit.
    pub dedicated: bool,
    /// The messages counted in this run.
    pub count: usize,
}

/// How many messages one run of an actor's loop handles: on a runtime of
/// its own as many as there are, on the shared runtime at most its
/// throughput (and always at least one).
pub struct RunBudget {
    throughput: usize,
    dedicated: bool,
    count: usize,
}

impl View for RunBudget {
    type V = RunBudgetView;

    closed spec fn view(&self) -> RunBudgetView {
        RunBudgetView { throughput: self.throughput, dedicated: self.dedicated, count: self.count }
    }
}

impl RunBudget {
    /// A budget for a new run.
    pub fn new(throughput: usize, dedicated: bool) -> (r: Self)
        ensures
            r@ == (RunBudgetView { throughput, dedicated, count: 0 }),
    {
        RunBudget { throughput, dedicated, count: 0 }
    }

    /// Counts one handled message; true when the run goes on.
    pub fn after_message(&mut self) -> (r: bool)
        requires
            old(self)@.count == 0 || old(self)@.count < old(self)@.throughput,
        ensures
            old(self)@.dedicated ==> r && final(self)@ == old(self)@,
            !old(self)@.dedicated ==> final(self)@ == (RunBudgetView {
                count: (old(self)@.count + 1) as usize,
                ..old(self)@
            }) && r == (final(self)@.count < final(self)@.throughput),
    {
        if self.dedicated {
            true
        } else {
            self.count = self.count + 1;
            self.count < self.throughput
        }
    }
}

/// A run on the shared runtime handles one message after another while the
/// count stays below the throughput, and when it stops it has handled
/// exactly the throughput's worth of messages (one, for a throughput of
/// zero), unless the messages ran out first.
pub proof fn lemma_run_stops_at_throughput(b: RunBudgetView)
    requires
        !b.dedicated,
        b.count == 0 || b.count < b.throughput,
    ensures
        b.count + 1 >= b.throughput ==> b.count + 1 == (if b.throughput == 0 {
            1
        } else {
            b.throughput as int
        }),
{
}

} // verus!
