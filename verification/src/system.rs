//! The registry of the top-level actors of an actor system.

use vstd::prelude::*;
use vstd::string::StringExecFns;

use crate::message::InternalMessage;
use crate::path::{ActorPath, separator};
use crate::registry::Registry;

verus! {

/// Why an actor could not be created or reached.
#[derive(Debug)]
pub enum ActorError {
    /// An actor with this path exists already.
    Exists(ActorPath),
    /// The actor could not be created.
    CreateError(String),
    /// A message could not be sent.
    SendError(String),
}

/// The name under which top-level actors stand.
pub open spec fn user_root() -> Seq<char> {
    seq!['u', 's', 'e', 'r']
}

/// The path `/user/name` of the top-level actor `name`.
pub fn user_path(name: &String) -> (r: ActorPath)
    ensures
        r@.path == separator() + user_root() + separator() + name@,
        r@.key == name@,
{
    let root = ActorPath::root(&String::from_str("user"));
    proof {
        reveal_strlit("user");
    }
    root.child(name)
}

/// The top-level actors of an actor system, by path; `C` is how an actor is
/// reached.
pub struct UserGuard<C> {
    actors: Registry<C>,
}

impl<C> View for UserGuard<C> {
    type V = Map<Seq<char>, C>;

    closed spec fn view(&self) -> Map<Seq<char>, C> {
        self.actors@
    }
}

impl<C> UserGuard<C> {
    /// No actors.
    pub fn new() -> (r: Self)
        ensures
            r@ == Map::<Seq<char>, C>::empty(),
    {
        UserGuard { actors: Registry::new() }
    }

    /// The actor at `path`, if there is one.
    pub fn get_actor(&self, path: &ActorPath) -> (r: Option<&C>)
        ensures
            r is Some == self@.dom().contains(path@.path),
            r is Some ==> *r->0 == self@[path@.path],
    {
        self.actors.get(&path.path())
    }

    /// Creates the actor at `path` with `make`, unless an actor has that
    /// path already; then `make` is not called and the error names the path.
    pub fn create_actor_path<F: FnOnce() -> C>(&mut self, path: ActorPath, make: F) -> (r: Result<(), ActorError>)
        requires
            make.requires(()),
        ensures
            old(self)@.dom().contains(path@.path) ==> final(self)@ == old(self)@
                && (r matches Err(ActorError::Exists(p)) && p@ == path@),
            !old(self)@.dom().contains(path@.path) ==> r is Ok
                && make.ensures((), final(self)@[path@.path])
                && final(self)@ == old(self)@.insert(path@.path, final(self)@[path@.path]),
    {
        let key = path.path();
        if self.actors.contains_key(&key) {
            return Err(ActorError::Exists(path));
        }
        let actor = make();
        self.actors.insert(key, actor);
        Ok(())
    }

    /// Creates the actor at `path` with `make`, unless an actor has that
    /// path already; then `make` is not called and nothing changes. True
    /// when the actor was created.
    pub fn get_or_create_actor_path<F: FnOnce() -> C>(&mut self, path: ActorPath, make: F) -> (created: bool)
        requires
            make.requires(()),
        ensures
            created == !old(self)@.dom().contains(path@.path),
            !created ==> final(self)@ == old(self)@,
            created ==> make.ensures((), final(self)@[path@.path])
                && final(self)@ == old(self)@.insert(path@.path, final(self)@[path@.path]),
    {
        match self.create_actor_path(path, make) {
            Ok(()) => true,
            Err(_) => false,
        }
    }

    /// Creates the top-level actor `name`, at `/user/name`.
    pub fn create_actor<F: FnOnce() -> C>(&mut self, name: &String, make: F) -> (r: Result<(), ActorError>)
        requires
            make.requires(()),
        ensures
            ({
                let path = separator() + user_root() + separator() + name@;
                &&& old(self)@.dom().contains(path) ==> final(self)@ == old(self)@
                    && (r matches Err(ActorError::Exists(p)) && p@.path == path)
                &&& !old(self)@.dom().contains(path) ==> r is Ok
                    && make.ensures((), final(self)@[path])
                    && final(self)@ == old(self)@.insert(path, final(self)@[path])
            }),
    {
        let path = user_path(name);
        self.create_actor_path(path, make)
    }

    /// Removes the actor at `path` and hands it back, to be stopped.
    pub fn stop_actor(&mut self, path: &String) -> (r: Option<C>)
        ensures
            r is Some == old(self)@.dom().contains(path@),
            r is Some ==> r->0 == old(self)@[path@],
            final(self)@ == old(self)@.remove(path@),
    {
        self.actors.remove(path)
    }

    /// The paths of the actors, each once.
    pub fn paths(&self) -> (r: Vec<String>)
        ensures
            r@.len() == self@.len(),
            forall|i: int| 0 <= i < r@.len() ==> self@.dom().contains(#[trigger] r@[i]@),
            forall|k: Seq<char>| self@.dom().contains(k) ==> exists|i: int| 0 <= i < r@.len() && #[trigger] r@[i]@ == k,
            forall|i: int, j: int| 0 <= i < r@.len() && 0 <= j < r@.len() && i != j ==> r@[i]@ != r@[j]@,
    {
        self.actors.names()
    }

    /// The number of top-level actors.
    pub fn num_actors(&self) -> (r: usize)
        ensures
            r == self@.len(),
    {
        self.actors.len()
    }

    /// What the system does when a top-level actor reports to it: a
    /// terminated actor leaves the registry; anything else changes nothing.
    pub fn on_internal_message<W>(&mut self, message: InternalMessage<W>)
        ensures
            match message {
                InternalMessage::ChildTerminate(path) => final(self)@ == old(self)@.remove(path@.path),
                _ => final(self)@ == old(self)@,
            },
    {
        match message {
            InternalMessage::ChildTerminate(path) => {
                self.actors.remove(&path.path());
            },
            _ => {},
        }
    }
}

} // verus!
