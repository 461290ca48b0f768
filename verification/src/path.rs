//! Where an actor stands in the tree of actors.

use vstd::prelude::*;
use vstd::string::StringExecFns;

verus! {

/// The path of an actor: the whole path, and its last name, which is the
/// key under which the actor's parent knows it.
#[derive(Debug)]
pub struct ActorPath {
    path: String,
    key: String,
}

/// The model of a path: the whole path and its last name.
pub struct ActorPathView {
    pub path: Seq<char>,
    pub key: Seq<char>,
}

impl View for ActorPath {
    type V = ActorPathView;

    closed spec fn view(&self) -> ActorPathView {
        ActorPathView { path: self.path@, key: self.key@ }
    }
}

/// The separator between the names of a path.
pub open spec fn separator() -> Seq<char> {
    seq!['/']
}

impl ActorPath {
    /// The path `/name` of a top-level name.
    pub fn root(name: &String) -> (r: ActorPath)
        ensures
            r@.path == separator() + name@,
            r@.key == name@,
    {
        proof {
            reveal_strlit("/");
        }
        let mut path = String::from_str("/");
        path.append(name.as_str());
        ActorPath { path, key: name.clone() }
    }

    /// The path of the child `name` of this path: `self/name`.
    pub fn child(&self, name: &String) -> (r: ActorPath)
        ensures
            r@.path == self@.path + separator() + name@,
            r@.key == name@,
    {
        proof {
            reveal_strlit("/");
        }
        let mut path = self.path.clone();
        path.append("/");
        path.append(name.as_str());
        ActorPath { path, key: name.clone() }
    }

    /// The last name of the path.
    pub fn key(&self) -> (r: String)
        ensures
            r@ == self@.key,
    {
        self.key.clone()
    }

    /// The whole path, written out.
    pub fn path(&self) -> (r: String)
        ensures
            r@ == self@.path,
    {
        self.path.clone()
    }
}

impl Clone for ActorPath {
    fn clone(&self) -> (r: Self)
        ensures
            r@ == self@,
    {
        ActorPath { path: self.path.clone(), key: self.key.clone() }
    }
}

} // verus!
