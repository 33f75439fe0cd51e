//! The parent record.
use vstd::prelude::*;

verus! {

/// The kind of server a parent provides.
#[derive(Clone, Copy, Debug, PartialEq, Eq, Structural)]
pub enum Type {
    Server,
    Proxy,
}

/// A base tree that templates build on. Its name is also its directory name.
#[derive(Debug)]
pub struct Parent {
    pub name: String,
    pub t: Type,
    pub description: String,
}

/// What a parent record says, as plain mathematical values.
pub struct ParentView {
    pub name: Seq<char>,
    pub t: Type,
    pub description: Seq<char>,
}

impl View for Parent {
    type V = ParentView;

    open spec fn view(&self) -> ParentView {
        ParentView { name: self.name@, t: self.t, description: self.description@ }
    }
}

impl Parent {
    /// A copy of this record.
    pub fn duplicate(&self) -> (copy: Parent)
        ensures
            copy@ == self@,
    {
        Parent { name: self.name.clone(), t: self.t, description: self.description.clone() }
    }
}

} // verus!
