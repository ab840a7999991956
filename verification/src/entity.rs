//! The records that a diagram holds: actors and use cases.

use std::rc::Rc;
use vstd::prelude::*;

verus! {

/// An actor of zero or more use cases.
#[derive(Debug, PartialEq, Eq)]
pub struct Actor {
    pub name: Rc<str>,
}

/// A use case.
#[derive(Debug, PartialEq, Eq)]
pub struct UseCase {
    pub title: Rc<str>,
}

impl View for Actor {
    type V = Seq<char>;

    /// An actor is its name.
    open spec fn view(&self) -> Seq<char> {
        self.name@
    }
}

impl View for UseCase {
    type V = Seq<char>;

    /// A use case is its title.
    open spec fn view(&self) -> Seq<char> {
        self.title@
    }
}

/// Calls `Rc::clone` of the standard library, which hands out one more
/// pointer to the same text. Not proved: that the text behind the new
/// pointer is the text behind the old one.
#[verifier::external_body]
fn share(text: &Rc<str>) -> (shared: Rc<str>)
    ensures
        shared@ == text@,
{
    Rc::clone(text)
}

impl Clone for Actor {
    /// A copy with the same name; the text itself is shared, not copied.
    fn clone(&self) -> (copy: Self)
        ensures
            copy@ == self@,
    {
        Actor { name: share(&self.name) }
    }
}

impl Clone for UseCase {
    /// A copy with the same title; the text itself is shared, not copied.
    fn clone(&self) -> (copy: Self)
        ensures
            copy@ == self@,
    {
        UseCase { title: share(&self.title) }
    }
}

impl Actor {
    /// The actor's name.
    pub fn name(&self) -> (name: &str)
        ensures
            name@ == self@,
    {
        &*self.name
    }
}

impl UseCase {
    /// The use case's title.
    pub fn title(&self) -> (title: &str)
        ensures
            title@ == self@,
    {
        &*self.title
    }
}

} // verus!
