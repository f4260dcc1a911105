use vstd::prelude::*;
use crate::geom::d2::prim::vect::{
    can_v_add, can_v_div, can_v_mul, can_v_sub, v_diff, v_prod, v_quot, v_sum, Vect,
};
use crate::ops::{HAdd, HDiv, HMul, HSub};

verus! {

/// A primitive seen as the vectors it stores.
///
/// Positions are points of the plane; directions lead from one point of the
/// primitive to another. A translation changes the positions only, a scaling
/// changes both.
pub trait Parts: Sized {
    /// the value type of vector
    type Val: Copy;

    /// the stored positions, in the order of the fields
    spec fn positions(&self) -> Seq<Vect<Self::Val>>;

    /// the stored directions, in the order of the fields
    spec fn directions(&self) -> Seq<Vect<Self::Val>>;
}

impl<'a, P: Parts> Parts for &'a P {
    type Val = P::Val;

    open spec fn positions(&self) -> Seq<Vect<P::Val>> {
        (**self).positions()
    }

    open spec fn directions(&self) -> Seq<Vect<P::Val>> {
        (**self).directions()
    }
}

/// `v` can be added to every vector of `ps`.
pub open spec fn all_can_add<A: HAdd>(ps: Seq<Vect<A>>, v: Vect<A>) -> bool {
    forall|i: int| 0 <= i < ps.len() ==> can_v_add(#[trigger] ps[i], v)
}

/// `v` can be subtracted from every vector of `ps`.
pub open spec fn all_can_sub<A: HSub>(ps: Seq<Vect<A>>, v: Vect<A>) -> bool {
    forall|i: int| 0 <= i < ps.len() ==> can_v_sub(#[trigger] ps[i], v)
}

/// Every vector of `ps` can be multiplied by `v`.
pub open spec fn all_can_mul<A: HMul>(ps: Seq<Vect<A>>, v: Vect<A>) -> bool {
    forall|i: int| 0 <= i < ps.len() ==> can_v_mul(#[trigger] ps[i], v)
}

/// Every vector of `ps` can be divided by `v`.
pub open spec fn all_can_div<A: HDiv>(ps: Seq<Vect<A>>, v: Vect<A>) -> bool {
    forall|i: int| 0 <= i < ps.len() ==> can_v_div(#[trigger] ps[i], v)
}

/// every vector of `ps` plus `v`
pub open spec fn sums<A: HAdd>(ps: Seq<Vect<A>>, v: Vect<A>) -> Seq<Vect<A>> {
    Seq::new(ps.len(), |i: int| v_sum(ps[i], v))
}

/// every vector of `ps` minus `v`
pub open spec fn diffs<A: HSub>(ps: Seq<Vect<A>>, v: Vect<A>) -> Seq<Vect<A>> {
    Seq::new(ps.len(), |i: int| v_diff(ps[i], v))
}

/// every vector of `ps` times `v`, componentwise
pub open spec fn prods<A: HMul>(ps: Seq<Vect<A>>, v: Vect<A>) -> Seq<Vect<A>> {
    Seq::new(ps.len(), |i: int| v_prod(ps[i], v))
}

/// every vector of `ps` divided by `v`, componentwise
pub open spec fn quots<A: HDiv>(ps: Seq<Vect<A>>, v: Vect<A>) -> Seq<Vect<A>> {
    Seq::new(ps.len(), |i: int| v_quot(ps[i], v))
}

} // verus!
