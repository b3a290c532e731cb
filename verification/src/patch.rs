//! Changes to an answer that may be left open.

use vstd::prelude::*;

verus! {

/// What to do with an answer: leave it as it is, take it back, or give
/// one.
#[derive(Debug, PartialEq, Eq)]
pub enum Patch<T> {
    /// The answer stays as it is
    Keep,
    /// The answer is taken back
    Clear,
    /// The answer is the given one
    Replace(T),
}

impl<T> Patch<T> {
    /// The answer after the patch.
    pub open spec fn applied(self, current: Option<T>) -> Option<T> {
        match self {
            Patch::Keep => current,
            Patch::Clear => None,
            Patch::Replace(value) => Some(value),
        }
    }

    /// Applies the patch to an answer.
    pub fn apply(self, target: &mut Option<T>)
        ensures
            *final(target) == self.applied(*old(target)),
    {
        match self {
            Patch::Keep => {},
            Patch::Clear => {
                *target = None;
            },
            Patch::Replace(value) => {
                *target = Some(value);
            },
        }
    }
}

/// A patch of a string, with the string as its characters.
pub open spec fn patch_text(patch: Patch<String>) -> Patch<Seq<char>> {
    match patch {
        Patch::Keep => Patch::Keep,
        Patch::Clear => Patch::Clear,
        Patch::Replace(value) => Patch::Replace(value@),
    }
}

} // verus!
