use vstd::prelude::*;

verus! {

/// A segment of an indexed mesh: the indices of its two end vertices.
///
/// Any pair of indices is a segment; a pair with `a == b` is a self-loop that
/// mesh traversals skip.
#[derive(Clone, Copy, PartialEq, Eq, Structural, Hash)]
pub struct IndSeg {
    pub a: usize,
    pub b: usize,
}

impl IndSeg {
    /// Two segments are equivalent when they join the same unordered pair of indices.
    pub open spec fn equiv_spec(&self, other: &IndSeg) -> bool {
        self.a == other.a && self.b == other.b || self.b == other.a && self.a == other.b
    }

    /// The segment touches the vertex `index`.
    pub open spec fn touches(&self, index: usize) -> bool {
        self.a == index || self.b == index
    }

    /// The segment joins a vertex to itself.
    pub open spec fn is_loop(&self) -> bool {
        self.a == self.b
    }

    /// What `swap` does to one index.
    pub open spec fn swapped(index: usize, from: usize, to: usize) -> usize {
        if index == from {
            to
        } else {
            index
        }
    }

    /// What `swap_shift` does to one index: replace `from` by `to`, then close
    /// the gap that removing vertex `from` leaves.
    pub open spec fn shifted(index: usize, from: usize, to: usize) -> int {
        let moved = Self::swapped(index, from, to);
        if moved > from {
            moved - 1
        } else {
            moved as int
        }
    }

    pub fn new(index_a: usize, index_b: usize) -> (seg: IndSeg)
        ensures
            seg.a == index_a,
            seg.b == index_b,
    {
        IndSeg { a: index_a, b: index_b }
    }

    pub fn a(&self) -> (index: usize)
        ensures
            index == self.a,
    {
        self.a
    }

    pub fn b(&self) -> (index: usize)
        ensures
            index == self.b,
    {
        self.b
    }

    pub fn equiv(&self, other: &IndSeg) -> (r: bool)
        ensures
            r == self.equiv_spec(other),
    {
        self.a() == other.a() && self.b() == other.b() || self.b() == other.a() && self.a()
            == other.b()
    }

    /// true if one end of the segment is `index`
    pub fn contains_index(&self, index: usize) -> (r: bool)
        ensures
            r == self.touches(index),
    {
        self.a == index || self.b == index
    }

    /// replace every end equal to `from` by `to`
    pub fn swap(&mut self, from: usize, to: usize)
        ensures
            final(self).a == Self::swapped(old(self).a, from, to),
            final(self).b == Self::swapped(old(self).b, from, to),
    {
        if self.a == from {
            self.a = to;
        }
        if self.b == from {
            self.b = to;
        }
    }

    /// replace every end equal to `from` by `to`, then lower every end above `from` by one
    pub fn swap_shift(&mut self, from: usize, to: usize)
        ensures
            final(self).a == Self::shifted(old(self).a, from, to),
            final(self).b == Self::shifted(old(self).b, from, to),
    {
        if self.a == from {
            self.a = to;
        }
        if self.b == from {
            self.b = to;
        }
        if self.a > from {
            self.a -= 1
        }
        if self.b > from {
            self.b -= 1
        }
    }

    /// Lowers `a` to the smaller of the two ends; `b` keeps its value.
    pub fn sort(&mut self)
        ensures
            final(self).a == if old(self).a <= old(self).b {
                old(self).a
            } else {
                old(self).b
            },
            final(self).b == old(self).b,
    {
        if self.b < self.a {
            self.a = self.b;
        }
    }
}

} // verus!
