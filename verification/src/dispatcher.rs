//! The decisions of an actor's dispatcher: which message comes next, what a
//! message leads to, how the actor stops and who is told.

use vstd::prelude::*;

use crate::context::{ActorContext, ActorContextView, Handles, TimerMessage, timer_is_current};
use crate::message::{AutoMessage, InternalMessage, Message};

verus! {

/// What the runtime does after an internal message.
pub enum InternalStep<W> {
    /// Nothing more.
    Nothing,
    /// Tell this watcher at once that the actor has terminated.
    ReplyWatcher(W),
    /// Close the mailbox and ask every child to stop; the actor terminates
    /// when the last child has.
    CloseAndStopChildren,
    /// Close the mailbox and terminate the actor.
    CloseAndTerminate,
    /// Terminate the actor.
    Terminate,
}

/// What the runtime does with a message.
pub enum Delivery<T> {
    /// Nothing: the message is dropped.
    Skip,
    /// Hand the payload to the actor's behaviour.
    Deliver(T),
    /// Ask the actor to stop itself.
    StopSelf,
    /// Tell the actor's behaviour that the receive timeout has passed.
    ReceiveTimeout,
    /// Check the receive timeout again after this many nanoseconds.
    Reschedule(u64),
}

/// Where the next message comes from.
pub enum NextStep<T> {
    /// No more messages in this run.
    Stop,
    /// This message, taken back from the stash.
    Deliver(Message<T>),
    /// The next message of the mailbox's queue.
    PollQueue,
}

/// What a receive-timeout message due at `exp` leads to, when the timeout is
/// `tmout`, `num_user_message` messages wait in the mailbox, the last message
/// that counts came at `last` and it is now `now` (all in nanoseconds). The
/// behaviour hears of the timeout only when the mailbox is empty and no
/// message came within the timeout; otherwise the check is put off: to the
/// end of the timeout counted from the last message, or by a whole timeout.
pub open spec fn timeout_delivery<T>(tmout: Option<u64>, num_user_message: usize, exp: u64, last: u64, now: u64) -> Delivery<T> {
    match tmout {
        None => Delivery::Skip,
        Some(t) => if num_user_message == 0 && exp > last {
            if exp - last >= t {
                Delivery::ReceiveTimeout
            } else if last + t > now {
                Delivery::Reschedule((last + t - now) as u64)
            } else {
                Delivery::Reschedule(0)
            }
        } else {
            Delivery::Reschedule(t)
        },
    }
}

/// The instant `last + t`, at which the receive timeout ends counted from the
/// last message, can be written down whenever it is needed.
pub open spec fn timeout_end_fits(tmout: Option<u64>, exp: u64, last: u64) -> bool {
    match tmout {
        None => true,
        Some(t) => exp > last && exp - last < t ==> last + t <= u64::MAX,
    }
}

/// What a child's termination does to a context: the child is forgotten,
/// and if the actor was waiting for its children and this was the last one,
/// it stops waiting and terminates (the flag).
pub open spec fn child_terminated<T, H: Handles>(c: ActorContextView<T, H>, key: Seq<char>) -> (ActorContextView<T, H>, bool) {
    let children = c.children.remove(key);
    if c.suspended && children.len() == 0 {
        (ActorContextView { children, suspended: false, ..c }, true)
    } else {
        (ActorContextView { children, ..c }, false)
    }
}

/// For each of the children named by `keys`, in turn, whether its
/// termination terminates the actor.
pub open spec fn termination_flags<T, H: Handles>(c: ActorContextView<T, H>, keys: Seq<Seq<char>>) -> Seq<bool>
    decreases keys.len(),
{
    if keys.len() == 0 {
        Seq::empty()
    } else {
        let (next, terminate) = child_terminated(c, keys[0]);
        seq![terminate] + termination_flags(next, keys.drop_first())
    }
}

/// An actor that waits for its children terminates exactly when the last of
/// them has terminated: if its children terminate one after another, in any
/// order, only the last termination terminates the actor.
pub proof fn lemma_terminates_with_last_child<T, H: Handles>(c: ActorContextView<T, H>, keys: Seq<Seq<char>>)
    requires
        c.suspended,
        c.children.dom().finite(),
        keys.len() > 0,
        keys.no_duplicates(),
        forall|k: Seq<char>| c.children.dom().contains(k) <==> keys.contains(k),
    ensures
        termination_flags(c, keys) == Seq::new(keys.len(), |i: int| i == keys.len() - 1),
    decreases keys.len(),
{
    let (next, terminate) = child_terminated(c, keys[0]);
    let rest = keys.drop_first();
    keys.unique_seq_to_set();
    assert(c.children.dom() =~= keys.to_set());
    assert(keys.contains(keys[0]));
    assert(next.children.dom() =~= c.children.dom().remove(keys[0]));
    assert(next.children.dom().len() == keys.len() - 1);
    if keys.len() == 1 {
        assert(terminate);
        assert(rest.len() == 0);
        assert(termination_flags(next, rest) == Seq::<bool>::empty());
        assert(termination_flags(c, keys) == seq![true] + Seq::<bool>::empty());
        assert(termination_flags(c, keys) =~= Seq::new(keys.len(), |i: int| i == keys.len() - 1));
    } else {
        assert(!terminate);
        assert(next.suspended);
        assert forall|k: Seq<char>| next.children.dom().contains(k) <==> rest.contains(k) by {
            if rest.contains(k) {
                let j = choose|j: int| 0 <= j < rest.len() && rest[j] == k;
                assert(keys[j + 1] == k);
                assert(keys.contains(k));
                assert(k != keys[0]);
            }
            if next.children.dom().contains(k) {
                assert(keys.contains(k));
                let j = choose|j: int| 0 <= j < keys.len() && keys[j] == k;
                assert(j != 0);
                assert(rest[j - 1] == k);
            }
        }
        assert(rest.no_duplicates()) by {
            assert forall|a: int, b: int| 0 <= a < rest.len() && 0 <= b < rest.len() && a != b implies rest[a] != rest[b] by {
                assert(rest[a] == keys[a + 1]);
                assert(rest[b] == keys[b + 1]);
            }
        }
        lemma_terminates_with_last_child(next, rest);
        let tail = termination_flags(next, rest);
        assert(termination_flags(c, keys) == seq![false] + tail);
        assert(tail == Seq::new(rest.len(), |i: int| i == rest.len() - 1));
        assert forall|i: int| 0 <= i < keys.len() implies (seq![false] + tail)[i] == (i == keys.len() - 1) by {
            if i > 0 {
                assert((seq![false] + tail)[i] == tail[i - 1]);
            }
        }
        assert(termination_flags(c, keys) =~= Seq::new(keys.len(), |i: int| i == keys.len() - 1));
    }
}

/// The behaviour hears of the receive timeout only when the mailbox is
/// empty and no message came within the timeout before the check fell due;
/// while the clock does not run backwards, a check put off is put off by at
/// most one timeout.
pub proof fn lemma_timeout_needs_silence<T>(tmout: Option<u64>, num_user_message: usize, exp: u64, last: u64, now: u64)
    requires
        last <= now,
    ensures
        timeout_delivery::<T>(tmout, num_user_message, exp, last, now) is ReceiveTimeout ==> tmout is Some
            && num_user_message == 0 && exp >= last + tmout->0,
        timeout_delivery::<T>(tmout, num_user_message, exp, last, now) matches Delivery::Reschedule(d) ==> tmout is Some
            && d <= tmout->0,
        tmout is None ==> timeout_delivery::<T>(tmout, num_user_message, exp, last, now) is Skip,
{
}

/// The receive timeout fires exactly when it is set, no message of the
/// actor's type waits, and the check fell due at least a whole timeout after
/// the last message, whenever the check is handled. Otherwise a check after
/// an earlier message is put off to the end of the timeout counted from that
/// message (at once, if that end has passed; that end must be an instant
/// that can be written down), and any other check by a whole timeout;
/// without a timeout the check is dropped.
pub proof fn lemma_timeout_decision<T>(tmout: Option<u64>, num_user_message: usize, exp: u64, last: u64, now: u64)
    ensures
        timeout_delivery::<T>(tmout, num_user_message, exp, last, now) is ReceiveTimeout <==> (tmout is Some
            && num_user_message == 0 && exp > last && exp - last >= tmout->0),
        tmout is None ==> timeout_delivery::<T>(tmout, num_user_message, exp, last, now) is Skip,
        tmout is Some ==> !(timeout_delivery::<T>(tmout, num_user_message, exp, last, now) is Skip)
            && !(timeout_delivery::<T>(tmout, num_user_message, exp, last, now) is Deliver)
            && !(timeout_delivery::<T>(tmout, num_user_message, exp, last, now) is StopSelf),
        (tmout is Some && num_user_message == 0 && exp > last && exp - last < tmout->0 && last + tmout->0
            <= u64::MAX) ==> (
            timeout_delivery::<T>(tmout, num_user_message, exp, last, now) matches Delivery::Reschedule(d)
            && (now < last + tmout->0 ==> now + d == last + tmout->0)
            && (now >= last + tmout->0 ==> d == 0)),
        (tmout is Some && (num_user_message > 0 || exp <= last)) ==> timeout_delivery::<T>(
            tmout,
            num_user_message,
            exp,
            last,
            now,
        ) == Delivery::<T>::Reschedule(tmout->0),
{
}

/// The state of an actor's dispatcher, but for the code of its behaviours
/// and the queues of its mailbox.
pub struct Dispatcher<T, H: Handles> {
    parent: Option<H::Parent>,
    actor: Option<H::Actor>,
    last_message_timestamp: u64,
    context: Option<ActorContext<T, H>>,
    watcher: Vec<H::Watcher>,
}

/// The model of a dispatcher.
pub struct DispatcherView<T, H: Handles> {
    /// The parent, until it has been told of the termination.
    pub parent: Option<H::Parent>,
    /// The current behaviour.
    pub actor: Option<H::Actor>,
    /// When the last message that counts for the receive timeout came
    /// (nanoseconds).
    pub last_message_timestamp: u64,
    /// The context, from the first run until termination.
    pub context: Option<ActorContextView<T, H>>,
    /// Who waits for the termination, in the order they asked.
    pub watchers: Seq<H::Watcher>,
}

/// The model of an optional context.
pub open spec fn context_view<T, H: Handles>(c: Option<ActorContext<T, H>>) -> Option<ActorContextView<T, H>> {
    match c {
        Some(c) => Some(c@),
        None => None,
    }
}

impl<T, H: Handles> View for Dispatcher<T, H> {
    type V = DispatcherView<T, H>;

    closed spec fn view(&self) -> DispatcherView<T, H> {
        DispatcherView {
            parent: self.parent,
            actor: self.actor,
            last_message_timestamp: self.last_message_timestamp,
            context: context_view(self.context),
            watchers: self.watcher@,
        }
    }
}

impl<T, H: Handles> Dispatcher<T, H> {
    /// A dispatcher that has not run yet: no behaviour, no context.
    pub fn new(parent: Option<H::Parent>, now: u64) -> (r: Self)
        ensures
            r@ == (DispatcherView::<T, H> {
                parent,
                actor: None,
                last_message_timestamp: now,
                context: None,
                watchers: Seq::empty(),
            }),
    {
        let r = Dispatcher { parent, actor: None, last_message_timestamp: now, context: None, watcher: Vec::new() };
        assert(r@.watchers =~= Seq::<H::Watcher>::empty());
        r
    }

    /// Gives the dispatcher a context, unless it has one.
    pub fn create_context(&mut self)
        ensures
            old(self)@.context is Some ==> final(self)@ == old(self)@,
            old(self)@.context is None ==> final(self)@ == (DispatcherView {
                context: Some(final(self)@.context->0),
                ..old(self)@
            }),
            old(self)@.context is None ==> ({
                let c = final(self)@.context->0;
                &&& c.pending is None
                &&& c.stash == Seq::<T>::empty()
                &&& c.unstashed == Seq::<T>::empty()
                &&& c.timers == Map::<Seq<char>, TimerMessage<H::Scheduled>>::empty()
                &&& c.children == Map::<Seq<char>, H::Child>::empty()
                &&& c.receive_timeout is None
                &&& c.scheduled_receive_timeout is None
                &&& c.timer_gen == 0
                &&& c.next_name_offset == 0
                &&& !c.suspended
            }),
    {
        if self.context.is_none() {
            self.context = Some(ActorContext::new());
        }
    }

    /// Whether the dispatcher has a context: it has run and not terminated.
    pub fn has_context(&self) -> (r: bool)
        ensures
            r == self@.context is Some,
    {
        self.context.is_some()
    }

    /// When the last message that counts for the receive timeout came.
    pub fn last_message_timestamp(&self) -> (r: u64)
        ensures
            r == self@.last_message_timestamp,
    {
        self.last_message_timestamp
    }

    /// Whether the dispatcher has a behaviour.
    pub fn has_actor(&self) -> (r: bool)
        ensures
            r == self@.actor is Some,
    {
        self.actor.is_some()
    }

    /// Takes the behaviour out, to run one of its handlers.
    pub fn take_actor(&mut self) -> (r: Option<H::Actor>)
        ensures
            r == old(self)@.actor,
            final(self)@ == (DispatcherView { actor: None, ..old(self)@ }),
    {
        self.actor.take()
    }

    /// Puts `actor` in as the behaviour, and hands back the one it replaces.
    pub fn put_actor(&mut self, actor: Option<H::Actor>) -> (r: Option<H::Actor>)
        ensures
            r == old(self)@.actor,
            final(self)@ == (DispatcherView { actor, ..old(self)@ }),
    {
        let old_actor = self.actor.take();
        self.actor = actor;
        old_actor
    }

    /// Takes the context out, to hand it to a handler.
    pub fn take_context(&mut self) -> (r: Option<ActorContext<T, H>>)
        ensures
            context_view(r) == old(self)@.context,
            final(self)@ == (DispatcherView { context: None, ..old(self)@ }),
    {
        self.context.take()
    }

    /// Puts the context back.
    pub fn put_context(&mut self, context: Option<ActorContext<T, H>>)
        ensures
            final(self)@ == (DispatcherView { context: context_view(context), ..old(self)@ }),
    {
        self.context = context;
    }

    /// If the behaviour asked to become another one, puts that one in and
    /// hands back the one it replaces (whose exit handler is due, then the
    /// new one's enter handler); otherwise nothing changes.
    pub fn check_become(&mut self) -> (r: Option<Option<H::Actor>>)
        requires
            old(self)@.context is Some,
        ensures
            old(self)@.context->0.pending is None ==> r is None && final(self)@ == old(self)@,
            old(self)@.context->0.pending is Some ==> r == Some(old(self)@.actor)
                && final(self)@ == (DispatcherView {
                    actor: old(self)@.context->0.pending,
                    context: Some(ActorContextView { pending: None, ..old(self)@.context->0 }),
                    ..old(self)@
                }),
    {
        let mut context = self.context.take().unwrap();
        let pending = context.take_transit();
        self.context = Some(context);
        match pending {
            Some(new_actor) => {
                let old_actor = self.actor.take();
                self.actor = Some(new_actor);
                Some(old_actor)
            },
            None => None,
        }
    }

    /// Decides what an internal message leads to. A watcher is answered at
    /// once if the mailbox is closed, else kept until termination. A stop
    /// request closes the mailbox; with children it waits for them,
    /// otherwise the actor terminates. When the last child of a waiting
    /// actor terminates, the actor terminates.
    pub fn on_internal_message(&mut self, terminated: bool, message: InternalMessage<H::Watcher>) -> (r: InternalStep<H::Watcher>)
        requires
            (message is Terminate || message is ChildTerminate) ==> old(self)@.context is Some,
        ensures
            match message {
                InternalMessage::Created => r is Nothing && final(self)@ == old(self)@,
                InternalMessage::Watch(w) => if terminated {
                    r == InternalStep::ReplyWatcher(w) && final(self)@ == old(self)@
                } else {
                    r is Nothing && final(self)@ == (DispatcherView {
                        watchers: old(self)@.watchers.push(w),
                        ..old(self)@
                    })
                },
                InternalMessage::Terminate => {
                    let c = old(self)@.context->0;
                    if c.children.len() > 0 {
                        r is CloseAndStopChildren && final(self)@ == (DispatcherView {
                            context: Some(ActorContextView { suspended: true, ..c }),
                            ..old(self)@
                        })
                    } else {
                        r is CloseAndTerminate && final(self)@ == old(self)@
                    }
                },
                InternalMessage::ChildTerminate(path) => {
                    let (c, terminate) = child_terminated(old(self)@.context->0, path@.key);
                    &&& final(self)@ == (DispatcherView { context: Some(c), ..old(self)@ })
                    &&& if terminate { r is Terminate } else { r is Nothing }
                },
            },
    {
        match message {
            InternalMessage::Watch(reply_to) => {
                if terminated {
                    InternalStep::ReplyWatcher(reply_to)
                } else {
                    self.watcher.push(reply_to);
                    InternalStep::Nothing
                }
            },
            InternalMessage::Terminate => {
                let mut context = self.context.take().unwrap();
                if context.num_children() > 0 {
                    context.suspend_for_children();
                    self.context = Some(context);
                    InternalStep::CloseAndStopChildren
                } else {
                    self.context = Some(context);
                    InternalStep::CloseAndTerminate
                }
            },
            InternalMessage::ChildTerminate(path) => {
                let key = path.key();
                let mut context = self.context.take().unwrap();
                context.remove_child(&key);
                if context.is_suspended() && context.num_children() == 0 {
                    context.resume();
                    self.context = Some(context);
                    InternalStep::Terminate
                } else {
                    self.context = Some(context);
                    InternalStep::Nothing
                }
            },
            InternalMessage::Created => InternalStep::Nothing,
        }
    }

    /// The end of a termination, after the old behaviour's exit handler: the
    /// parent (to be told) and every watcher (to be answered) are handed
    /// back, and the context is dropped.
    pub fn finish_terminate(&mut self) -> (r: (Option<H::Parent>, Vec<H::Watcher>))
        ensures
            r.0 == old(self)@.parent,
            r.1@ == old(self)@.watchers,
            final(self)@ == (DispatcherView {
                parent: None,
                context: None,
                watchers: Seq::empty(),
                ..old(self)@
            }),
    {
        let parent = self.parent.take();
        let mut watchers: Vec<H::Watcher> = Vec::new();
        std::mem::swap(&mut watchers, &mut self.watcher);
        self.context = None;
        assert(self.watcher@ =~= Seq::<H::Watcher>::empty());
        (parent, watchers)
    }

    /// Decides what a message leads to, at instant `now`, with
    /// `num_user_message` messages waiting in the mailbox. Without a
    /// behaviour every message is dropped. A message of the actor's type, or
    /// a timer's, restarts the receive timeout if one is set; a timer's
    /// message is handed on only if it is of the timer's current generation.
    pub fn on_message(&mut self, message: Message<T>, now: u64, num_user_message: usize) -> (r: Delivery<T>)
        requires
            old(self)@.actor is Some ==> old(self)@.context is Some,
            old(self)@.actor is Some ==> (message matches Message::ReceiveTimeout(exp) ==> timeout_end_fits(
                old(self)@.context->0.receive_timeout,
                exp,
                old(self)@.last_message_timestamp,
            )),
        ensures
            old(self)@.actor is None ==> r is Skip && final(self)@ == old(self)@,
            old(self)@.actor is Some ==> ({
                let c = old(self)@.context->0;
                let touched = DispatcherView {
                    last_message_timestamp: if c.receive_timeout is Some { now } else { old(self)@.last_message_timestamp },
                    ..old(self)@
                };
                match message {
                    Message::User(m) => r == Delivery::Deliver(m) && final(self)@ == touched,
                    Message::Timer(name, gen, m) => final(self)@ == touched && r == (if timer_is_current(c.timers, name@, gen) {
                        Delivery::Deliver(m)
                    } else {
                        Delivery::<T>::Skip
                    }),
                    Message::AutoMessage(_) => r is StopSelf && final(self)@ == old(self)@,
                    Message::ReceiveTimeout(exp) => final(self)@ == old(self)@ && r == timeout_delivery::<T>(
                        c.receive_timeout,
                        num_user_message,
                        exp,
                        old(self)@.last_message_timestamp,
                        now,
                    ),
                }
            }),
    {
        if self.actor.is_none() {
            return Delivery::Skip;
        }
        let context = self.context.take().unwrap();
        let tmout = context.receive_timeout();
        let r = match message {
            Message::User(msg) => {
                if tmout.is_some() {
                    self.last_message_timestamp = now;
                }
                Delivery::Deliver(msg)
            },
            Message::Timer(key, gen, msg) => {
                if tmout.is_some() {
                    self.last_message_timestamp = now;
                }
                if context.is_timer_current(&key, gen) {
                    Delivery::Deliver(msg)
                } else {
                    Delivery::Skip
                }
            },
            Message::AutoMessage(AutoMessage::PoisonPill) => Delivery::StopSelf,
            Message::ReceiveTimeout(exp) => {
                let last = self.last_message_timestamp;
                match tmout {
                    Some(t) => {
                        if num_user_message == 0 && exp > last {
                            if exp - last >= t {
                                Delivery::ReceiveTimeout
                            } else {
                                let end = last + t;
                                if end > now {
                                    Delivery::Reschedule(end - now)
                                } else {
                                    Delivery::Reschedule(0)
                                }
                            }
                        } else {
                            Delivery::Reschedule(t)
                        }
                    },
                    None => Delivery::Skip,
                }
            },
        };
        self.context = Some(context);
        r
    }

    /// Where the next message of this run comes from, once the internal
    /// messages are handled: none without a context or once the mailbox is
    /// closed; else the oldest message taken back from the stash; else the
    /// mailbox's queue.
    pub fn next_message(&mut self, terminated: bool) -> (r: NextStep<T>)
        ensures
            (old(self)@.context is None || terminated) ==> r is Stop && final(self)@ == old(self)@,
            (old(self)@.context is Some && !terminated && old(self)@.context->0.unstashed.len() > 0) ==> ({
                let c = old(self)@.context->0;
                &&& r == NextStep::Deliver(Message::User(c.unstashed[0]))
                &&& final(self)@ == (DispatcherView {
                    context: Some(ActorContextView { unstashed: c.unstashed.drop_first(), ..c }),
                    ..old(self)@
                })
            }),
            (old(self)@.context is Some && !terminated && old(self)@.context->0.unstashed.len() == 0)
                ==> r is PollQueue && final(self)@ == old(self)@,
    {
        if self.context.is_none() || terminated {
            return NextStep::Stop;
        }
        let mut context = self.context.take().unwrap();
        let r = match context.pop_unstashed() {
            Some(msg) => NextStep::Deliver(Message::User(msg)),
            None => NextStep::PollQueue,
        };
        self.context = Some(context);
        r
    }
}

} // verus!
