//! Schools that participants attend.

use vstd::prelude::*;

verus! {

/// A verified school
#[derive(Debug, PartialEq, Eq)]
pub struct School {
    /// The school's unique id
    pub id: String,
    /// The school's official name
    pub name: String,
}

/// What a [`School`] holds, with each string as its characters.
pub struct SchoolView {
    pub id: Seq<char>,
    pub name: Seq<char>,
}

impl View for School {
    type V = SchoolView;

    open spec fn view(&self) -> SchoolView {
        SchoolView { id: self.id@, name: self.name@ }
    }
}

impl Clone for School {
    fn clone(&self) -> (r: School)
        ensures
            r@ == self@,
    {
        School { id: self.id.clone(), name: self.name.clone() }
    }
}

} // verus!
