//! The transfer priority as the request builders take it.

use vstd::prelude::*;

verus! {

/// Represents a transfer priority.
#[derive(Clone, Copy, Debug, PartialEq, Eq, Structural)]
pub enum Priority {
    Low,
    Normal,
    High,
}

impl Priority {
    /// The priority a wire number stands for, if any.
    pub fn from_i32(v: i32) -> (r: Option<Priority>)
        ensures
            v == -1 ==> r == Some(Priority::Low),
            v == 0 ==> r == Some(Priority::Normal),
            v == 1 ==> r == Some(Priority::High),
            !(-1 <= v <= 1) ==> r is None,
    {
        if v == -1 {
            Some(Priority::Low)
        } else if v == 0 {
            Some(Priority::Normal)
        } else if v == 1 {
            Some(Priority::High)
        } else {
            None
        }
    }

    /// The wire number of this priority.
    pub fn as_i8(&self) -> (r: i8)
        ensures
            *self == Priority::Low ==> r == -1,
            *self == Priority::Normal ==> r == 0,
            *self == Priority::High ==> r == 1,
    {
        match self {
            Priority::Low => -1,
            Priority::Normal => 0,
            Priority::High => 1,
        }
    }
}

} // verus!
