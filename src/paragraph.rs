//! Paragraph level boundary information.

use vstd::prelude::*;

verus! {

/// Line boundary state of a character or a cluster.
#[derive(Copy, Clone, PartialEq, Eq, Structural, Debug)]
pub enum LineBoundary {
    /// No line boundary.
    NoBreak,
    /// A line break opportunity.
    Soft,
    /// A mandatory line break.
    Hard,
}

impl LineBoundary {
    /// The two bit code of the boundary.
    pub open spec fn code(self) -> u16 {
        match self {
            LineBoundary::NoBreak => 0,
            LineBoundary::Soft => 1,
            LineBoundary::Hard => 2,
        }
    }

    /// Severity of the boundary: none < soft < hard.
    pub open spec fn rank(self) -> nat {
        match self {
            LineBoundary::NoBreak => 0,
            LineBoundary::Soft => 1,
            LineBoundary::Hard => 2,
        }
    }

    /// The boundary that a two bit code stands for. The code 3 arises from
    /// merging a soft and a hard boundary and reads as hard.
    pub open spec fn spec_from_raw(bits: u16) -> LineBoundary {
        let b = bits & 3;
        if b == 0 {
            LineBoundary::NoBreak
        } else if b == 1 {
            LineBoundary::Soft
        } else {
            LineBoundary::Hard
        }
    }

    /// Decodes the low two bits of `bits`.
    pub fn from_raw(bits: u16) -> (r: LineBoundary)
        ensures
            r == LineBoundary::spec_from_raw(bits),
    {
        let b = bits & 3;
        if b == 0 {
            LineBoundary::NoBreak
        } else if b == 1 {
            LineBoundary::Soft
        } else {
            LineBoundary::Hard
        }
    }

    /// Returns the two bit code of the boundary.
    pub fn to_raw(self) -> (r: u16)
        ensures
            r == self.code(),
            r < 3,
    {
        match self {
            LineBoundary::NoBreak => 0,
            LineBoundary::Soft => 1,
            LineBoundary::Hard => 2,
        }
    }
}

} // verus!
