//! The retention policy: how many records each category keeps.

use vstd::prelude::*;

verus! {

/// Closed set of categories; each one fixes the length of its window.
#[derive(Debug, Clone, Copy, PartialEq, Eq, Structural)]
pub enum Kind {
    One,
    Two,
    Three,
    Four,
}

/// Number of most recent records that a window of category `k` keeps.
pub open spec fn spec_window_length(k: Kind) -> nat {
    match k {
        Kind::One => 4,
        Kind::Two => 3,
        Kind::Three => 2,
        Kind::Four => u32::MAX as nat,
    }
}

impl Kind {
    /// The retention length of this category; `Four` keeps the largest
    /// count a `u32` can hold.
    pub fn window_length(&self) -> (r: u32)
        ensures
            r as nat == spec_window_length(*self),
            r >= 2,
    {
        match self {
            Kind::One => 4,
            Kind::Two => 3,
            Kind::Three => 2,
            Kind::Four => u32::MAX,
        }
    }
}

} // verus!
