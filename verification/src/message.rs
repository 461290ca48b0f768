//! The messages that reach an actor.

use vstd::prelude::*;

use crate::path::ActorPath;

verus! {

/// A message that the runtime hands to an actor's behaviour on its own.
#[derive(Debug)]
pub enum SystemMessage {
    /// No message came within the receive timeout.
    ReceiveTimeout,
}

/// A message that the runtime handles for the actor.
#[derive(Debug)]
pub enum AutoMessage {
    /// Stop after the messages that came before.
    PoisonPill,
}

/// A message in an actor's mailbox.
#[derive(Debug)]
pub enum Message<T> {
    /// A message of the actor's own type.
    User(T),
    /// A timer's message: the timer's name, its generation, the payload.
    Timer(String, u32, T),
    /// A receive timeout that falls due at the given instant (nanoseconds).
    ReceiveTimeout(u64),
    /// A message that the runtime handles.
    AutoMessage(AutoMessage),
}

impl<T> Message<T> {
    /// The payload of a message of the actor's own type.
    pub fn into_user(self) -> (r: T)
        requires
            self is User,
        ensures
            self == Message::User(r),
    {
        match self {
            Message::User(m) => m,
            _ => vstd::pervasive::unreached(),
        }
    }
}

/// A message between an actor and the runtime; `W` is how a watcher is
/// answered.
#[derive(Debug)]
pub enum InternalMessage<W> {
    /// The actor was created.
    Created,
    /// A child of the actor has terminated.
    ChildTerminate(ActorPath),
    /// Stop the actor.
    Terminate,
    /// Answer `W` once the actor has terminated.
    Watch(W),
}

/// What can be sent an `AutoMessage`.
pub trait AutoRef {
    fn send_auto_message(&self, message: AutoMessage);
}

} // verus!
