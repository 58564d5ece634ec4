use vstd::prelude::*;

verus! {

/// Completion status of an entry.
#[derive(Clone, Copy, Debug, PartialEq, Eq, Structural)]
pub enum Status {
    Todo,
    Completed,
}

/// The other status.
pub open spec fn toggled(s: Status) -> Status {
    match s {
        Status::Todo => Status::Completed,
        Status::Completed => Status::Todo,
    }
}

impl Status {
    /// Returns the other status.
    pub fn toggled(self) -> (r: Status)
        ensures
            r == toggled(self),
    {
        match self {
            Status::Todo => Status::Completed,
            Status::Completed => Status::Todo,
        }
    }
}

/// Toggling twice gives back the status one started from.
pub proof fn lemma_toggled_twice(s: Status)
    ensures
        toggled(toggled(s)) == s,
{
}

} // verus!
