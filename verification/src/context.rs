//! What an actor keeps between two messages: its stash, its timers, its
//! children, its receive timeout, and the behaviour it is to become.

use std::collections::VecDeque;

use vstd::prelude::*;
use vstd::string::StringExecFns;

use crate::naming::{base64, base64_digits};
use crate::registry::Registry;

verus! {

/// The kinds of value that the runtime hands to the kernel and gets back:
/// a behaviour, a child, a parent, a watcher and a scheduled delivery.
pub trait Handles {
    /// A behaviour that an actor can become.
    type Actor;
    /// How an actor reaches one of its children.
    type Child;
    /// How an actor reaches its parent.
    type Parent;
    /// How a watcher of an actor is told that it has terminated.
    type Watcher;
    /// A delivery that the scheduler will make later.
    type Scheduled;
}

/// A timer that was started: its generation, and the delivery that is
/// scheduled for it.
pub struct TimerMessage<S> {
    pub gen: u32,
    pub scheduled: S,
}

/// The timers of an actor, by name.
pub struct Timer<S> {
    list: Registry<TimerMessage<S>>,
}

impl<S> View for Timer<S> {
    type V = Map<Seq<char>, TimerMessage<S>>;

    closed spec fn view(&self) -> Map<Seq<char>, TimerMessage<S>> {
        self.list@
    }
}

/// Whether a timer's message, named `name` and of generation `gen`, is one
/// that the actor is still waiting for.
pub open spec fn timer_is_current<S>(timers: Map<Seq<char>, TimerMessage<S>>, name: Seq<char>, gen: u32) -> bool {
    timers.dom().contains(name) && timers[name].gen == gen
}

impl<S> Timer<S> {
    /// No timers.
    pub fn new() -> (r: Self)
        ensures
            r@ == Map::<Seq<char>, TimerMessage<S>>::empty(),
    {
        Timer { list: Registry::new() }
    }

    /// Starts (or restarts) the timer `name`.
    pub fn insert(&mut self, name: String, message: TimerMessage<S>) -> (r: Option<TimerMessage<S>>)
        ensures
            final(self)@ == old(self)@.insert(name@, message),
            r is Some == old(self)@.dom().contains(name@),
            r is Some ==> r->0 == old(self)@[name@],
    {
        self.list.insert(name, message)
    }

    /// Cancels the timer `name`.
    pub fn remove(&mut self, name: &String) -> (r: Option<TimerMessage<S>>)
        ensures
            final(self)@ == old(self)@.remove(name@),
            r is Some == old(self)@.dom().contains(name@),
            r is Some ==> r->0 == old(self)@[name@],
    {
        self.list.remove(name)
    }

    /// Whether a message of timer `name` and generation `gen` is still due.
    pub fn is_current(&self, name: &String, gen: u32) -> (r: bool)
        ensures
            r == timer_is_current(self@, name@, gen),
    {
        match self.list.get(name) {
            Some(info) => info.gen == gen,
            None => false,
        }
    }
}

/// Why an actor waits before it terminates.
pub enum SuspendReason {
    /// It waits for its children to terminate.
    ChildrenTermination,
}

/// The generation that follows `gen`: one more, and after the largest, zero.
pub open spec fn next_gen(gen: u32) -> u32 {
    if gen == u32::MAX {
        0
    } else {
        (gen + 1) as u32
    }
}

/// The name offset that follows `offset`: one more, and after the largest,
/// zero.
pub open spec fn next_offset(offset: usize) -> usize {
    if offset == usize::MAX {
        0
    } else {
        (offset + 1) as usize
    }
}

/// The name that the offset `offset` gives a child: `$` and the offset in
/// base 64.
pub open spec fn child_name(offset: usize) -> Seq<char> {
    seq!['$'] + base64_digits(offset as nat)
}

/// Restarting a timer supersedes it: afterwards only the new generation of
/// that timer is handled, and every other timer is as it was. The next
/// generation always differs from the last.
pub proof fn lemma_timer_restart<S>(
    timers: Map<Seq<char>, TimerMessage<S>>,
    name: Seq<char>,
    gen: u32,
    scheduled: S,
    other: Seq<char>,
    g: u32,
)
    ensures
        timer_is_current(timers.insert(name, TimerMessage { gen, scheduled }), name, g) <==> g == gen,
        other != name ==> (timer_is_current(timers.insert(name, TimerMessage { gen, scheduled }), other, g)
            <==> timer_is_current(timers, other, g)),
        next_gen(gen) != gen,
{
}

/// A cancelled timer's messages are never handled, and every other timer is
/// as it was.
pub proof fn lemma_timer_cancel<S>(timers: Map<Seq<char>, TimerMessage<S>>, name: Seq<char>, other: Seq<char>, g: u32)
    ensures
        !timer_is_current(timers.remove(name), name, g),
        other != name ==> (timer_is_current(timers.remove(name), other, g) <==> timer_is_current(timers, other, g)),
{
}

/// Generated child names do not repeat: different offsets give different
/// names, and the offset changes with every name.
pub proof fn lemma_child_names_distinct(a: usize, b: usize)
    requires
        a != b,
    ensures
        child_name(a) != child_name(b),
        next_offset(a) != a,
{
    crate::naming::lemma_base64_digits_injective(a as nat, b as nat);
    let pa = child_name(a);
    let pb = child_name(b);
    if pa == pb {
        assert(pa.subrange(1, pa.len() as int) =~= base64_digits(a as nat));
        assert(pb.subrange(1, pb.len() as int) =~= base64_digits(b as nat));
    }
}

/// What an actor keeps between two messages.
pub struct ActorContext<T, H: Handles> {
    actor: Option<H::Actor>,
    stash: VecDeque<T>,
    unstashed: VecDeque<T>,
    timer: Timer<H::Scheduled>,
    childrens: Registry<H::Child>,
    receive_timeout: Option<u64>,
    scheduled_receive_timeout: Option<H::Scheduled>,
    timer_gen: u32,
    next_name_offset: usize,
    suspend_reason: Option<SuspendReason>,
}

/// The model of an `ActorContext`.
pub struct ActorContextView<T, H: Handles> {
    /// The behaviour that the actor is to become, if it asked for one.
    pub pending: Option<H::Actor>,
    /// The messages put aside, oldest first.
    pub stash: Seq<T>,
    /// The messages taken back from the stash and not yet handled, oldest
    /// first.
    pub unstashed: Seq<T>,
    /// The timers, by name.
    pub timers: Map<Seq<char>, TimerMessage<H::Scheduled>>,
    /// The children, by name.
    pub children: Map<Seq<char>, H::Child>,
    /// The receive timeout in nanoseconds, if one is set.
    pub receive_timeout: Option<u64>,
    /// The pending delivery of the receive timeout, if any.
    pub scheduled_receive_timeout: Option<H::Scheduled>,
    /// The generation that the next timer gets.
    pub timer_gen: u32,
    /// The offset that the next generated child name gets.
    pub next_name_offset: usize,
    /// Whether the actor waits for its children before it terminates.
    pub suspended: bool,
}

impl<T, H: Handles> View for ActorContext<T, H> {
    type V = ActorContextView<T, H>;

    closed spec fn view(&self) -> ActorContextView<T, H> {
        ActorContextView {
            pending: self.actor,
            stash: self.stash@,
            unstashed: self.unstashed@,
            timers: self.timer@,
            children: self.childrens@,
            receive_timeout: self.receive_timeout,
            scheduled_receive_timeout: self.scheduled_receive_timeout,
            timer_gen: self.timer_gen,
            next_name_offset: self.next_name_offset,
            suspended: self.suspend_reason is Some,
        }
    }
}

impl<T, H: Handles> ActorContext<T, H> {
    /// A fresh context: nothing stashed, no timers, no children, no
    /// receive timeout.
    pub fn new() -> (r: Self)
        ensures
            r@.pending is None,
            r@.stash == Seq::<T>::empty(),
            r@.unstashed == Seq::<T>::empty(),
            r@.timers == Map::<Seq<char>, TimerMessage<H::Scheduled>>::empty(),
            r@.children == Map::<Seq<char>, H::Child>::empty(),
            r@.receive_timeout is None,
            r@.scheduled_receive_timeout is None,
            r@.timer_gen == 0,
            r@.next_name_offset == 0,
            !r@.suspended,
    {
        ActorContext {
            actor: None,
            stash: VecDeque::new(),
            unstashed: VecDeque::new(),
            timer: Timer::new(),
            childrens: Registry::new(),
            receive_timeout: None,
            scheduled_receive_timeout: None,
            timer_gen: 0,
            next_name_offset: 0,
            suspend_reason: None,
        }
    }

    /// Asks to become `new_actor` once the current message is handled.
    pub fn transit(&mut self, new_actor: H::Actor)
        ensures
            final(self)@ == (ActorContextView { pending: Some(new_actor), ..old(self)@ }),
    {
        self.actor = Some(new_actor);
    }

    /// Takes the behaviour that the actor asked to become, if any.
    pub fn take_transit(&mut self) -> (r: Option<H::Actor>)
        ensures
            r == old(self)@.pending,
            final(self)@ == (ActorContextView { pending: None, ..old(self)@ }),
    {
        self.actor.take()
    }

    /// Puts `message` aside, behind those put aside before.
    pub fn stash(&mut self, message: T)
        ensures
            final(self)@ == (ActorContextView { stash: old(self)@.stash.push(message), ..old(self)@ }),
    {
        self.stash.push_back(message);
    }

    /// Takes back every message put aside, in the order they were put
    /// aside, behind those taken back before.
    pub fn unstash_all(&mut self)
        ensures
            final(self)@ == (ActorContextView {
                stash: Seq::<T>::empty(),
                unstashed: old(self)@.unstashed + old(self)@.stash,
                ..old(self)@
            }),
    {
        loop
            invariant
                self.unstashed@ + self.stash@ == old(self)@.unstashed + old(self)@.stash,
                self@ == (ActorContextView {
                    stash: self.stash@,
                    unstashed: self.unstashed@,
                    ..old(self)@
                }),
            ensures
                self.stash@.len() == 0,
                self.unstashed@ + self.stash@ == old(self)@.unstashed + old(self)@.stash,
                self@ == (ActorContextView {
                    stash: self.stash@,
                    unstashed: self.unstashed@,
                    ..old(self)@
                }),
            decreases self.stash@.len(),
        {
            let ghost before_unstashed = self.unstashed@;
            let ghost before_stash = self.stash@;
            match self.stash.pop_front() {
                Some(message) => {
                    self.unstashed.push_back(message);
                    assert(self.unstashed@ + self.stash@ =~= before_unstashed + before_stash);
                },
                None => {
                    assert(self.unstashed@ + self.stash@ =~= self.unstashed@);
                    break;
                },
            }
        }
        assert(self.stash@ =~= Seq::<T>::empty());
        assert(self.unstashed@ =~= old(self)@.unstashed + old(self)@.stash);
    }

    /// The oldest message taken back from the stash, if any.
    pub fn pop_unstashed(&mut self) -> (r: Option<T>)
        ensures
            old(self)@.unstashed.len() == 0 ==> r is None && final(self)@ == old(self)@,
            old(self)@.unstashed.len() > 0 ==> r == Some(old(self)@.unstashed[0])
                && final(self)@ == (ActorContextView {
                    unstashed: old(self)@.unstashed.drop_first(),
                    ..old(self)@
                }),
    {
        let r = self.unstashed.pop_front();
        proof {
            if old(self)@.unstashed.len() > 0 {
                assert(self.unstashed@ =~= old(self)@.unstashed.drop_first());
            }
        }
        r
    }

    /// The generation for a new timer; the next one follows it.
    pub fn next_timer_gen(&mut self) -> (r: u32)
        ensures
            r == old(self)@.timer_gen,
            final(self)@ == (ActorContextView { timer_gen: next_gen(old(self)@.timer_gen), ..old(self)@ }),
    {
        let ret = self.timer_gen;
        self.timer_gen = if self.timer_gen == u32::MAX {
            0
        } else {
            self.timer_gen + 1
        };
        ret
    }

    /// Starts the timer `name` with a new generation, and has `schedule`
    /// arrange the delivery of that generation's message. A timer of the same
    /// name that was started before is replaced.
    pub fn start_single_timer<F: FnOnce(u32) -> H::Scheduled>(&mut self, name: String, schedule: F) -> (gen: u32)
        requires
            forall|g: u32| schedule.requires((g,)),
        ensures
            gen == old(self)@.timer_gen,
            schedule.ensures((gen,), final(self)@.timers[name@].scheduled),
            final(self)@ == (ActorContextView {
                timer_gen: next_gen(old(self)@.timer_gen),
                timers: old(self)@.timers.insert(
                    name@,
                    TimerMessage { gen, scheduled: final(self)@.timers[name@].scheduled },
                ),
                ..old(self)@
            }),
    {
        let gen = self.next_timer_gen();
        let scheduled = schedule(gen);
        let ghost name_view = name@;
        self.timer.insert(name, TimerMessage { gen, scheduled });
        proof {
            assert(self.timer@[name_view] == TimerMessage { gen, scheduled });
        }
        gen
    }

    /// Cancels the timer `name`: its messages are no longer handled.
    pub fn cancel_timer(&mut self, name: &String)
        ensures
            final(self)@ == (ActorContextView { timers: old(self)@.timers.remove(name@), ..old(self)@ }),
    {
        self.timer.remove(name);
    }

    /// Whether the message of timer `name` and generation `gen` is due: the
    /// timer runs and was last started with that generation.
    pub fn is_timer_current(&self, name: &String, gen: u32) -> (r: bool)
        ensures
            r == timer_is_current(self@.timers, name@, gen),
    {
        self.timer.is_current(name, gen)
    }

    /// Sets the receive timeout to `d` nanoseconds, with `scheduled` as its
    /// first delivery.
    pub fn set_receive_timeout(&mut self, d: u64, scheduled: H::Scheduled)
        ensures
            final(self)@ == (ActorContextView {
                receive_timeout: Some(d),
                scheduled_receive_timeout: Some(scheduled),
                ..old(self)@
            }),
    {
        self.receive_timeout = Some(d);
        self.schedule_receive_timeout(scheduled);
    }

    /// Removes the receive timeout and its pending delivery.
    pub fn cancel_receive_timeout(&mut self)
        ensures
            final(self)@ == (ActorContextView {
                receive_timeout: None,
                scheduled_receive_timeout: None,
                ..old(self)@
            }),
    {
        self.receive_timeout = None;
        self.scheduled_receive_timeout = None;
    }

    /// Replaces the pending delivery of the receive timeout.
    pub fn schedule_receive_timeout(&mut self, scheduled: H::Scheduled)
        ensures
            final(self)@ == (ActorContextView {
                scheduled_receive_timeout: Some(scheduled),
                ..old(self)@
            }),
    {
        self.scheduled_receive_timeout = Some(scheduled);
    }

    /// The receive timeout in nanoseconds, if one is set.
    pub fn receive_timeout(&self) -> (r: Option<u64>)
        ensures
            r == self@.receive_timeout,
    {
        self.receive_timeout
    }

    /// A name for a child that was given none: `$` and a counter in base 64.
    /// The counter goes up by one, and after its largest value starts again
    /// at zero.
    pub fn random_name(&mut self) -> (r: String)
        ensures
            r@ == child_name(old(self)@.next_name_offset),
            final(self)@ == (ActorContextView {
                next_name_offset: next_offset(old(self)@.next_name_offset),
                ..old(self)@
            }),
    {
        let num = self.next_name_offset;
        self.next_name_offset = match self.next_name_offset.checked_add(1) {
            Some(n) => n,
            None => 0,
        };
        proof {
            reveal_strlit("$");
        }
        base64(num, String::from_str("$"))
    }

    /// The child named `name`, if there is one.
    pub fn get_child(&self, name: &String) -> (r: Option<&H::Child>)
        ensures
            r is Some == self@.children.dom().contains(name@),
            r is Some ==> *r->0 == self@.children[name@],
    {
        self.childrens.get(name)
    }

    /// Records `child` under `name`, and hands back the child recorded there
    /// before, if any.
    pub fn add_child(&mut self, name: String, child: H::Child) -> (r: Option<H::Child>)
        ensures
            r is Some == old(self)@.children.dom().contains(name@),
            r is Some ==> r->0 == old(self)@.children[name@],
            final(self)@ == (ActorContextView {
                children: old(self)@.children.insert(name@, child),
                ..old(self)@
            }),
    {
        self.childrens.insert(name, child)
    }

    /// Makes the child `name` with `make`, unless a child of that name is
    /// recorded; then `make` is not called and nothing changes. True when
    /// the child was made.
    pub fn get_or_create_child<F: FnOnce() -> H::Child>(&mut self, name: String, make: F) -> (created: bool)
        requires
            make.requires(()),
        ensures
            created == !old(self)@.children.dom().contains(name@),
            !created ==> final(self)@ == old(self)@,
            created ==> make.ensures((), final(self)@.children[name@]) && final(self)@ == (ActorContextView {
                children: old(self)@.children.insert(name@, final(self)@.children[name@]),
                ..old(self)@
            }),
    {
        if self.childrens.contains_key(&name) {
            return false;
        }
        let child = make();
        let ghost key = name@;
        self.childrens.insert(name, child);
        proof {
            assert(self.childrens@[key] == child);
        }
        true
    }

    /// Forgets the child named `name`, and hands it back if there was one.
    pub fn remove_child(&mut self, name: &String) -> (r: Option<H::Child>)
        ensures
            r is Some == old(self)@.children.dom().contains(name@),
            r is Some ==> r->0 == old(self)@.children[name@],
            final(self)@ == (ActorContextView {
                children: old(self)@.children.remove(name@),
                ..old(self)@
            }),
    {
        self.childrens.remove(name)
    }

    /// The number of children.
    pub fn num_children(&self) -> (r: usize)
        ensures
            r == self@.children.len(),
            self@.children.dom().finite(),
    {
        self.childrens.len()
    }

    /// The names of the children, each once.
    pub fn child_names(&self) -> (r: Vec<String>)
        ensures
            r@.len() == self@.children.len(),
            forall|i: int| 0 <= i < r@.len() ==> self@.children.dom().contains(#[trigger] r@[i]@),
            forall|k: Seq<char>| self@.children.dom().contains(k) ==> exists|i: int| 0 <= i < r@.len() && #[trigger] r@[i]@ == k,
            forall|i: int, j: int| 0 <= i < r@.len() && 0 <= j < r@.len() && i != j ==> r@[i]@ != r@[j]@,
    {
        self.childrens.names()
    }

    /// Whether the actor waits for its children before it terminates.
    pub fn is_suspended(&self) -> (r: bool)
        ensures
            r == self@.suspended,
    {
        self.suspend_reason.is_some()
    }

    /// The actor waits for its children before it terminates.
    pub fn suspend_for_children(&mut self)
        ensures
            final(self)@ == (ActorContextView { suspended: true, ..old(self)@ }),
    {
        self.suspend_reason = Some(SuspendReason::ChildrenTermination);
    }

    /// The actor no longer waits.
    pub fn resume(&mut self)
        ensures
            final(self)@ == (ActorContextView { suspended: false, ..old(self)@ }),
    {
        self.suspend_reason = None;
    }
}

} // verus!
