//! A file's or torrent's transfer priority.

use vstd::prelude::*;

verus! {

/// Represents a transfer priority.
#[derive(Clone, Copy, Debug, PartialEq, Eq, Structural)]
pub enum Priority {
    Low,
    Normal,
    High,
}

/// The priority a wire number stands for, if any.
pub open spec fn priority_of(v: int) -> Option<Priority> {
    if v == -1 {
        Some(Priority::Low)
    } else if v == 0 {
        Some(Priority::Normal)
    } else if v == 1 {
        Some(Priority::High)
    } else {
        None
    }
}

/// The wire number of a priority.
pub open spec fn priority_wire(p: Priority) -> int {
    match p {
        Priority::Low => -1,
        Priority::Normal => 0,
        Priority::High => 1,
    }
}

impl Priority {
    /// The priority a wire number stands for, if any.
    pub fn from_i64(v: i64) -> (r: Option<Priority>)
        ensures
            r == priority_of(v as int),
    {
        if v == -1 {
            Some(Priority::Low)
        } else if v == 0 {
            Some(Priority::Normal)
        } else if v == 1 {
            Some(Priority::High)
        } else {
            None
        }
    }

    /// The wire number of this priority.
    pub fn as_i64(&self) -> (r: i64)
        ensures
            r as int == priority_wire(*self),
    {
        match self {
            Priority::Low => -1,
            Priority::Normal => 0,
            Priority::High => 1,
        }
    }
}

/// The wire number of a priority is the one it stands for.
pub proof fn lemma_priority_wire_round_trip(p: Priority)
    ensures
        priority_of(priority_wire(p)) == Some(p),
{
}

} // verus!
