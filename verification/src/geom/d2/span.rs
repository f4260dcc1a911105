use vstd::prelude::*;
use crate::geom::d2::prim::vect::Vect;

verus! {

/// 2D limited transported linear span defined by 1 transport vector "base" and N vectors "vects" where the scalar for vectors is in interval \[0, 1\]
pub struct LTSpan<A, const N: usize> {
    pub base: Vect<A>,
    pub vects: [Vect<A>; N],
}

impl<A, const N: usize> LTSpan<A, N> {
    pub fn new(base: Vect<A>, vects: [Vect<A>; N]) -> (span: LTSpan<A, N>)
        ensures
            span.base == base,
            span.vects == vects,
    {
        LTSpan { base: base, vects: vects }
    }

    pub fn base(&self) -> (r: &Vect<A>)
        ensures
            *r == self.base,
    {
        &self.base
    }

    pub fn vects(&self) -> (r: &[Vect<A>; N])
        ensures
            *r == self.vects,
    {
        &self.vects
    }
}

} // verus!
