//! The ends of ranges.
use vstd::prelude::*;

verus! {

/// One end of a range.
#[derive(Debug, PartialEq, Eq)]
pub enum Bound<T> {
    /// The range reaches to this value and holds it.
    Included(T),
    /// The range reaches to this value and does not hold it.
    Excluded(T),
    /// The range has no end on this side.
    Unbounded,
}

impl Bound<usize> {
    /// The first offset of a range of offsets that starts at this bound.
    pub open spec fn first(&self) -> int {
        match self {
            Bound::Unbounded => 0,
            Bound::Included(x) => *x as int,
            Bound::Excluded(x) => x + 1,
        }
    }

    /// The offset one past the last of a range of offsets that ends at this
    /// bound; `None` where the range has no end.
    pub open spec fn past(&self) -> Option<int> {
        match self {
            Bound::Unbounded => None,
            Bound::Included(x) => Some(x + 1),
            Bound::Excluded(x) => Some(*x as int),
        }
    }
}

} // verus!
