use vstd::prelude::*;
use core::ops::{Range, RangeInclusive};

verus! {

/// the half-open range from `start` up to `end`
pub fn range<A>(start: A, end: A) -> (r: Range<A>)
    ensures
        r.start == start,
        r.end == end,
{
    start..end
}

/// the closed range from `start` to `end`
pub fn irange<A>(start: A, end: A) -> (r: RangeInclusive<A>)
    ensures
        r@.start == start,
        r@.end == end,
        r@.exhausted == false,
{
    RangeInclusive::new(start, end)
}

} // verus!
