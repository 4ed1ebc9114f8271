//! What outside lookups and writes answer, as far as a decision depends on it.
use vstd::prelude::*;

verus! {

/// What a yes-or-no lookup said.
#[derive(Clone, Copy, Debug, PartialEq, Eq, Structural)]
pub enum Answer {
    Yes,
    No,
    Failed,
}

/// What became of a write to one stored record.
#[derive(Clone, Copy, Debug, PartialEq, Eq, Structural)]
pub enum Written {
    /// The record was changed.
    Done,
    /// There was no such record.
    Missing,
    /// The store could not be reached.
    Failed,
}

/// What a lookup of one stored record said.
#[derive(Clone, Copy, Debug, PartialEq, Eq, Structural)]
pub enum Lookup {
    Found,
    Missing,
    /// The store could not be reached.
    Failed,
}

/// What an access check said.
#[derive(Clone, Copy, Debug, PartialEq, Eq, Structural)]
pub enum Access {
    Granted,
    Denied,
    /// It could not be found out.
    Unavailable,
}

/// What became of a change that may find nothing to change.
#[derive(Clone, Copy, Debug, PartialEq, Eq, Structural)]
pub enum Change {
    Changed,
    Unchanged,
    /// The store could not be reached.
    Failed,
}

} // verus!
