use vstd::prelude::*;
use crate::geom::d2::prim::parts::Parts;
use crate::geom::d2::prim::vect::{
    can_det, can_dot, can_v_add, can_v_div, can_v_mul, can_v_sub, det_of, dot_of, splat, v_diff,
    v_max, v_min, v_prod, v_quot, v_sum, Coords, Vect, Vector,
};
use crate::geom::d2::shape::d2::{Bounds, Shape};
use crate::num::Zero;
use crate::ops::{
    add_exact, add_total, can_sub, diff, div_exact, mul_exact, mul_total, sub_exact, sub_total,
    HAdd, HDiv, HMul, HNeg, HSub,
};
use crate::rel::{below, ord_exact, within, HPEq, HPOrd};

verus! {

/// 2D triangle defined by 3 points "a" "b" "c"
pub struct PTri<V: Vector> {
    pub a: V,
    pub b: V,
    pub c: V,
}

/// 2D triangle defined by 1 position vector "a" and 2 direction vectors "ab" "ac"
pub struct VTri<V: Vector> {
    pub a: V,
    pub ab: V,
    pub ac: V,
}

/// The range between zero and the determinant of the two directions: the
/// doubled area of the triangle, with its sign.
pub open spec fn bary_range<A: Zero + HSub + HMul + PartialOrd>(ab: Vect<A>, ac: Vect<A>) -> (
    A,
    A,
) {
    let abc = det_of(ab, ac);
    if below(abc, A::zero_spec()) {
        (abc, A::zero_spec())
    } else {
        (A::zero_spec(), abc)
    }
}

/// The point `p` lies in the triangle `a` `b` `c` with the directions `ab`
/// and `ac`: each of the three determinants that `p` spans with two corners
/// lies between zero and the determinant of the triangle.
pub open spec fn contains_bary<A: Zero + HSub + HMul + PartialOrd>(
    a: Vect<A>,
    b: Vect<A>,
    c: Vect<A>,
    ab: Vect<A>,
    ac: Vect<A>,
    p: Vect<A>,
) -> bool {
    let (start, end) = bary_range(ab, ac);
    let pa = v_diff(a, p);
    let pb = v_diff(b, p);
    let pc = v_diff(c, p);
    &&& within(det_of(pa, pb), start, end)
    &&& within(det_of(pb, pc), start, end)
    &&& within(det_of(pc, pa), start, end)
}

/// The normal of the edge from `a` to `b`.
pub open spec fn edge_normal<A: HSub>(a: Vect<A>, b: Vect<A>) -> Vect<A> {
    (diff(a.1, b.1), diff(b.0, a.0))
}

/// The point `p` lies on the inner side of the edge from `a` to `b`.
pub open spec fn inside_edge<A: HAdd + HSub + HMul + PartialOrd>(
    a: Vect<A>,
    b: Vect<A>,
    p: Vect<A>,
) -> bool {
    !below(dot_of(edge_normal(a, b), p), dot_of(edge_normal(a, b), a))
}

/// The point `p` lies in the triangle `a` `b` `c` with the directions `ab`
/// and `ac`: it lies on the inner side of each edge, the corners taken in
/// the order that turns left.
pub open spec fn contains_implicit<A: Zero + HAdd + HSub + HMul + PartialOrd>(
    a: Vect<A>,
    b: Vect<A>,
    c: Vect<A>,
    ab: Vect<A>,
    ac: Vect<A>,
    p: Vect<A>,
) -> bool {
    let flip = below(det_of(ab, ac), A::zero_spec());
    let second = if flip {
        c
    } else {
        b
    };
    let third = if flip {
        b
    } else {
        c
    };
    &&& inside_edge(a, second, p)
    &&& inside_edge(second, third, p)
    &&& inside_edge(third, a, p)
}

/// Every operation that the test with barycentric coordinates carries out on
/// these values is defined, where the scalar's operations return what their
/// specifications name.
pub open spec fn can_contains_bary<A: Zero + HSub + HMul + PartialOrd>(
    a: Vect<A>,
    b: Vect<A>,
    c: Vect<A>,
    ab: Vect<A>,
    ac: Vect<A>,
    p: Vect<A>,
) -> bool {
    let (start, end) = bary_range(ab, ac);
    let pa = v_diff(a, p);
    let pb = v_diff(b, p);
    let pc = v_diff(c, p);
    &&& can_det(ab, ac)
    &&& can_v_sub(a, p)
    &&& can_v_sub(b, p)
    &&& can_det(pa, pb)
    &&& within(det_of(pa, pb), start, end) ==> {
        &&& can_v_sub(c, p)
        &&& can_det(pb, pc)
        &&& within(det_of(pb, pc), start, end) ==> can_det(pc, pa)
    }
}

/// The side of `p` to the edge from `a` to `b` can be computed.
pub open spec fn can_inside_edge<A: HAdd + HSub + HMul>(a: Vect<A>, b: Vect<A>, p: Vect<A>) -> bool {
    &&& can_sub(a.1, b.1)
    &&& can_sub(b.0, a.0)
    &&& can_dot(edge_normal(a, b), p)
    &&& can_dot(edge_normal(a, b), a)
}

/// Every operation that the test with line equations carries out on these
/// values is defined, where the scalar's operations return what their
/// specifications name.
pub open spec fn can_contains_implicit<A: Zero + HAdd + HSub + HMul + PartialOrd>(
    a: Vect<A>,
    b: Vect<A>,
    c: Vect<A>,
    ab: Vect<A>,
    ac: Vect<A>,
    p: Vect<A>,
) -> bool {
    let flip = below(det_of(ab, ac), A::zero_spec());
    let second = if flip {
        c
    } else {
        b
    };
    let third = if flip {
        b
    } else {
        c
    };
    &&& can_det(ab, ac)
    &&& can_inside_edge(a, second, p)
    &&& inside_edge(a, second, p) ==> {
        &&& can_inside_edge(second, third, p)
        &&& inside_edge(second, third, p) ==> can_inside_edge(third, a, p)
    }
}

impl<P: Vector> PTri<P> {
    /// create new PTri of 3 points "a" "b" "c"
    pub fn new(a: P, b: P, c: P) -> (tri: PTri<P>)
        ensures
            tri.a == a,
            tri.b == b,
            tri.c == c,
    {
        PTri { a: a, b: b, c: c }
    }

    /// create new triangle of other triangle
    pub fn of<T: TriPoints<Val = P::Val>>(tri: T) -> (r: PTri<Vect<P::Val>>)
        requires
            tri.wf(),
        ensures
            T::exact() ==> r == (PTri { a: tri.a_spec(), b: tri.b_spec(), c: tri.c_spec() }),
    {
        let a = tri.a();
        let b = tri.b();
        let c = tri.c();

        PTri { a: a, b: b, c: c }
    }

    /// first point of triangle
    pub fn a(&self) -> (r: Vect<P::Val>)
        ensures
            r == self.a.xy(),
    {
        self.a.to()
    }

    /// second point of triangle
    pub fn b(&self) -> (r: Vect<P::Val>)
        ensures
            r == self.b.xy(),
    {
        self.b.to()
    }

    /// third point of triangle
    pub fn c(&self) -> (r: Vect<P::Val>)
        ensures
            r == self.c.xy(),
    {
        self.c.to()
    }

    /// direction vector of triangle with ab() = b() - a()
    pub fn ab(&self) -> (r: Vect<P::Val>) where P::Val: HSub
        requires
            can_v_sub(self.b.xy(), self.a.xy()),
        ensures
            sub_exact::<P::Val>() ==> r == v_diff(self.b.xy(), self.a.xy()),
    {
        self.b.sub(&self.a)
    }

    /// direction vector of triangle with ac() = c() - a()
    pub fn ac(&self) -> (r: Vect<P::Val>) where P::Val: HSub
        requires
            can_v_sub(self.c.xy(), self.a.xy()),
        ensures
            sub_exact::<P::Val>() ==> r == v_diff(self.c.xy(), self.a.xy()),
    {
        self.c.sub(&self.a)
    }

    /// add vector to triangle points (translation)
    pub fn add<V: Coords<Val = P::Val>>(&self, vect: V) -> (r: PTri<Vect<P::Val>>) where P::Val: HAdd
        requires
            can_v_add(self.a.xy(), vect.xy()),
            can_v_add(self.b.xy(), vect.xy()),
            can_v_add(self.c.xy(), vect.xy()),
        ensures
            add_exact::<P::Val>() ==> r == (PTri {
                a: v_sum(self.a.xy(), vect.xy()),
                b: v_sum(self.b.xy(), vect.xy()),
                c: v_sum(self.c.xy(), vect.xy()),
            }),
    {
        let a = self.a.add(&vect);
        let b = self.b.add(&vect);
        let c = self.c.add(&vect);

        PTri { a: a, b: b, c: c }
    }

    /// sub vector from triangle points (translation)
    pub fn sub<V: Coords<Val = P::Val>>(&self, vect: V) -> (r: PTri<Vect<P::Val>>) where P::Val: HSub
        requires
            can_v_sub(self.a.xy(), vect.xy()),
            can_v_sub(self.b.xy(), vect.xy()),
            can_v_sub(self.c.xy(), vect.xy()),
        ensures
            sub_exact::<P::Val>() ==> r == (PTri {
                a: v_diff(self.a.xy(), vect.xy()),
                b: v_diff(self.b.xy(), vect.xy()),
                c: v_diff(self.c.xy(), vect.xy()),
            }),
    {
        let a = self.a.sub(&vect);
        let b = self.b.sub(&vect);
        let c = self.c.sub(&vect);

        PTri { a: a, b: b, c: c }
    }

    /// mul vector to triangle points
    pub fn mul<V: Coords<Val = P::Val>>(&self, vect: V) -> (r: PTri<Vect<P::Val>>) where P::Val: HMul
        requires
            can_v_mul(self.a.xy(), vect.xy()),
            can_v_mul(self.b.xy(), vect.xy()),
            can_v_mul(self.c.xy(), vect.xy()),
        ensures
            mul_exact::<P::Val>() ==> r == (PTri {
                a: v_prod(self.a.xy(), vect.xy()),
                b: v_prod(self.b.xy(), vect.xy()),
                c: v_prod(self.c.xy(), vect.xy()),
            }),
    {
        let a = self.a.mul(&vect);
        let b = self.b.mul(&vect);
        let c = self.c.mul(&vect);

        PTri { a: a, b: b, c: c }
    }

    /// div vector from triangle points
    pub fn div<V: Coords<Val = P::Val>>(&self, vect: V) -> (r: PTri<Vect<P::Val>>) where P::Val: HDiv
        requires
            can_v_div(self.a.xy(), vect.xy()),
            can_v_div(self.b.xy(), vect.xy()),
            can_v_div(self.c.xy(), vect.xy()),
        ensures
            div_exact::<P::Val>() ==> r == (PTri {
                a: v_quot(self.a.xy(), vect.xy()),
                b: v_quot(self.b.xy(), vect.xy()),
                c: v_quot(self.c.xy(), vect.xy()),
            }),
    {
        let a = self.a.div(&vect);
        let b = self.b.div(&vect);
        let c = self.c.div(&vect);

        PTri { a: a, b: b, c: c }
    }

    /// add value to the values of the triangle points
    pub fn vadd(&self, val: P::Val) -> (r: PTri<Vect<P::Val>>) where P::Val: HAdd
        requires
            can_v_add(self.a.xy(), splat(val)),
            can_v_add(self.b.xy(), splat(val)),
            can_v_add(self.c.xy(), splat(val)),
        ensures
            add_exact::<P::Val>() ==> r == (PTri {
                a: v_sum(self.a.xy(), splat(val)),
                b: v_sum(self.b.xy(), splat(val)),
                c: v_sum(self.c.xy(), splat(val)),
            }),
    {
        let a = self.a.vadd(val);
        let b = self.b.vadd(val);
        let c = self.c.vadd(val);

        PTri { a: a, b: b, c: c }
    }

    /// sub value from the values of the triangle points
    pub fn vsub(&self, val: P::Val) -> (r: PTri<Vect<P::Val>>) where P::Val: HSub
        requires
            can_v_sub(self.a.xy(), splat(val)),
            can_v_sub(self.b.xy(), splat(val)),
            can_v_sub(self.c.xy(), splat(val)),
        ensures
            sub_exact::<P::Val>() ==> r == (PTri {
                a: v_diff(self.a.xy(), splat(val)),
                b: v_diff(self.b.xy(), splat(val)),
                c: v_diff(self.c.xy(), splat(val)),
            }),
    {
        let a = self.a.vsub(val);
        let b = self.b.vsub(val);
        let c = self.c.vsub(val);

        PTri { a: a, b: b, c: c }
    }

    /// mul vector values with value (scaling)
    pub fn vmul(&self, val: P::Val) -> (r: PTri<Vect<P::Val>>) where P::Val: HMul
        requires
            can_v_mul(self.a.xy(), splat(val)),
            can_v_mul(self.b.xy(), splat(val)),
            can_v_mul(self.c.xy(), splat(val)),
        ensures
            mul_exact::<P::Val>() ==> r == (PTri {
                a: v_prod(self.a.xy(), splat(val)),
                b: v_prod(self.b.xy(), splat(val)),
                c: v_prod(self.c.xy(), splat(val)),
            }),
    {
        let a = self.a.vmul(val);
        let b = self.b.vmul(val);
        let c = self.c.vmul(val);

        PTri { a: a, b: b, c: c }
    }

    /// div vector values with value (scaling)
    pub fn vdiv(&self, val: P::Val) -> (r: PTri<Vect<P::Val>>) where P::Val: HDiv
        requires
            can_v_div(self.a.xy(), splat(val)),
            can_v_div(self.b.xy(), splat(val)),
            can_v_div(self.c.xy(), splat(val)),
        ensures
            div_exact::<P::Val>() ==> r == (PTri {
                a: v_quot(self.a.xy(), splat(val)),
                b: v_quot(self.b.xy(), splat(val)),
                c: v_quot(self.c.xy(), splat(val)),
            }),
    {
        let a = self.a.vdiv(val);
        let b = self.b.vdiv(val);
        let c = self.c.vdiv(val);

        PTri { a: a, b: b, c: c }
    }

    /// points of triangle with pnts() = \[a(), b(), c()\]
    pub fn pnts(&self) -> (r: [Vect<P::Val>; 3])
        ensures
            r[0] == self.a.xy(),
            r[1] == self.b.xy(),
            r[2] == self.c.xy(),
    {
        [self.a(), self.b(), self.c()]
    }

    /// vectors of triangle with vects() = \[a(), ab(), ac()\]
    pub fn vects(&self) -> (r: [Vect<P::Val>; 3]) where P::Val: HSub
        requires
            can_v_sub(self.b.xy(), self.a.xy()),
            can_v_sub(self.c.xy(), self.a.xy()),
        ensures
            r[0] == self.a.xy(),
            sub_exact::<P::Val>() ==> r[1] == v_diff(self.b.xy(), self.a.xy()),
            sub_exact::<P::Val>() ==> r[2] == v_diff(self.c.xy(), self.a.xy()),
    {
        [self.a(), self.ab(), self.ac()]
    }

    /// direction vectors of triangle with dirs() = \[ab(), ac()\]
    pub fn dirs(&self) -> (r: [Vect<P::Val>; 2]) where P::Val: HSub
        requires
            can_v_sub(self.b.xy(), self.a.xy()),
            can_v_sub(self.c.xy(), self.a.xy()),
        ensures
            sub_exact::<P::Val>() ==> r[0] == v_diff(self.b.xy(), self.a.xy()),
            sub_exact::<P::Val>() ==> r[1] == v_diff(self.c.xy(), self.a.xy()),
    {
        [self.ab(), self.ac()]
    }

    /// bounding axis aligned rectangle
    pub fn bounds(&self) -> (r: Bounds<Vect<P::Val>>) where P::Val: HPOrd
        ensures
            ord_exact::<P::Val>() ==> r.corners() == (
                v_min(self.a.xy(), v_min(self.b.xy(), self.c.xy())),
                v_max(self.a.xy(), v_max(self.b.xy(), self.c.xy())),
            ),
    {
        let min = self.a.min(self.b.min(&self.c));
        let max = self.a.max(self.b.max(&self.c));

        Bounds::new_unchecked(min, max)
    }

    /// Every operation that `contains` carries out for this point is defined:
    /// on these values where the scalar's operations return what their
    /// specifications name, else on all values.
    pub open spec fn contains_defined(&self, pnt: Vect<P::Val>) -> bool where
        P::Val: Zero + HSub + HMul + HPOrd,
     {
        if sub_exact::<P::Val>() && mul_exact::<P::Val>() && ord_exact::<P::Val>() {
            &&& can_v_sub(self.b.xy(), self.a.xy())
            &&& can_v_sub(self.c.xy(), self.a.xy())
            &&& can_contains_bary(
                self.a.xy(),
                self.b.xy(),
                self.c.xy(),
                v_diff(self.b.xy(), self.a.xy()),
                v_diff(self.c.xy(), self.a.xy()),
                pnt,
            )
        } else {
            sub_total::<P::Val>() && mul_total::<P::Val>()
        }
    }

    /// check if triangle contains point with baryzentric coordinates
    ///
    /// slightly slower then implicit line equation check but more precise
    pub fn contains<V: Vector<Val = P::Val>>(&self, pnt: V) -> (r: bool) where
        P::Val: Zero + HSub + HMul + HPOrd,

        requires
            self.contains_defined(pnt.xy()),
        ensures
            sub_exact::<P::Val>() && mul_exact::<P::Val>() && ord_exact::<P::Val>() ==> r
                == contains_bary(
                self.a.xy(),
                self.b.xy(),
                self.c.xy(),
                v_diff(self.b.xy(), self.a.xy()),
                v_diff(self.c.xy(), self.a.xy()),
                pnt.xy(),
            ),
    {
        let zero = P::Val::zero();

        let ab = self.ab();
        let ac = self.ac();
        let abc = ab.det(&ac);

        let (start, end) = if abc < zero {
            (abc, zero)
        } else {
            (zero, abc)
        };

        let a = self.a();
        let b = self.b();

        let pa = a.sub(&pnt);
        let pb = b.sub(&pnt);

        let pab = pa.det(&pb);

        if !pab.inc_in(start, end) {
            return false;
        }
        let c = self.c();

        let pc = c.sub(&pnt);

        let pbc = pb.det(&pc);

        if !pbc.inc_in(start, end) {
            return false;
        }
        let pca = pc.det(&pa);

        if !pca.inc_in(start, end) {
            return false;
        }
        true
    }
}

impl<P: Vector> VTri<P> {
    /// create new VTri of 1 position vector "a" and 2 direction vectors "ab" "ac"
    pub fn new(a: P, ab: P, ac: P) -> (tri: VTri<P>)
        ensures
            tri.a == a,
            tri.ab == ab,
            tri.ac == ac,
    {
        VTri { a: a, ab: ab, ac: ac }
    }

    /// create new triangle of other triangle
    pub fn of<T: TriPoints<Val = P::Val>>(tri: T) -> (r: VTri<Vect<P::Val>>)
        requires
            tri.wf(),
        ensures
            T::exact() ==> r == (VTri { a: tri.a_spec(), ab: tri.ab_spec(), ac: tri.ac_spec() }),
    {
        let a = tri.a();
        let ab = tri.ab();
        let ac = tri.ac();

        VTri { a: a, ab: ab, ac: ac }
    }

    /// first point of triangle
    pub fn a(&self) -> (r: Vect<P::Val>)
        ensures
            r == self.a.xy(),
    {
        self.a.to()
    }

    /// second point of triangle
    pub fn b(&self) -> (r: Vect<P::Val>) where P::Val: HAdd
        requires
            can_v_add(self.a.xy(), self.ab.xy()),
        ensures
            add_exact::<P::Val>() ==> r == v_sum(self.a.xy(), self.ab.xy()),
    {
        self.a.add(&self.ab)
    }

    /// third point of triangle
    pub fn c(&self) -> (r: Vect<P::Val>) where P::Val: HAdd
        requires
            can_v_add(self.a.xy(), self.ac.xy()),
        ensures
            add_exact::<P::Val>() ==> r == v_sum(self.a.xy(), self.ac.xy()),
    {
        self.a.add(&self.ac)
    }

    /// direction vector of triangle with ab() = b() - a()
    pub fn ab(&self) -> (r: Vect<P::Val>)
        ensures
            r == self.ab.xy(),
    {
        self.ab.to()
    }

    /// direction vector of triangle with ac() = c() - a()
    pub fn ac(&self) -> (r: Vect<P::Val>)
        ensures
            r == self.ac.xy(),
    {
        self.ac.to()
    }

    /// add vector to triangle points (translation)
    pub fn add<V: Coords<Val = P::Val>>(&self, vect: V) -> (r: VTri<Vect<P::Val>>) where P::Val: HAdd
        requires
            can_v_add(self.a.xy(), vect.xy()),
        ensures
            add_exact::<P::Val>() ==> r == (VTri {
                a: v_sum(self.a.xy(), vect.xy()),
                ab: self.ab.xy(),
                ac: self.ac.xy(),
            }),
    {
        let a = self.a.add(&vect);
        let ab = self.ab.to();
        let ac = self.ac.to();

        VTri { a: a, ab: ab, ac: ac }
    }

    /// sub vector from triangle points (translation)
    pub fn sub<V: Coords<Val = P::Val>>(&self, vect: V) -> (r: VTri<Vect<P::Val>>) where P::Val: HSub
        requires
            can_v_sub(self.a.xy(), vect.xy()),
        ensures
            sub_exact::<P::Val>() ==> r == (VTri {
                a: v_diff(self.a.xy(), vect.xy()),
                ab: self.ab.xy(),
                ac: self.ac.xy(),
            }),
    {
        let a = self.a.sub(&vect);
        let ab = self.ab.to();
        let ac = self.ac.to();

        VTri { a: a, ab: ab, ac: ac }
    }

    /// mul vector to triangle points
    pub fn mul<V: Coords<Val = P::Val>>(&self, vect: V) -> (r: VTri<Vect<P::Val>>) where P::Val: HMul
        requires
            can_v_mul(self.a.xy(), vect.xy()),
            can_v_mul(self.ab.xy(), vect.xy()),
            can_v_mul(self.ac.xy(), vect.xy()),
        ensures
            mul_exact::<P::Val>() ==> r == (VTri {
                a: v_prod(self.a.xy(), vect.xy()),
                ab: v_prod(self.ab.xy(), vect.xy()),
                ac: v_prod(self.ac.xy(), vect.xy()),
            }),
    {
        let a = self.a.mul(&vect);
        let ab = self.ab.mul(&vect);
        let ac = self.ac.mul(&vect);

        VTri { a: a, ab: ab, ac: ac }
    }

    /// div vector from triangle points
    pub fn div<V: Coords<Val = P::Val>>(&self, vect: V) -> (r: VTri<Vect<P::Val>>) where P::Val: HDiv
        requires
            can_v_div(self.a.xy(), vect.xy()),
            can_v_div(self.ab.xy(), vect.xy()),
            can_v_div(self.ac.xy(), vect.xy()),
        ensures
            div_exact::<P::Val>() ==> r == (VTri {
                a: v_quot(self.a.xy(), vect.xy()),
                ab: v_quot(self.ab.xy(), vect.xy()),
                ac: v_quot(self.ac.xy(), vect.xy()),
            }),
    {
        let a = self.a.div(&vect);
        let ab = self.ab.div(&vect);
        let ac = self.ac.div(&vect);

        VTri { a: a, ab: ab, ac: ac }
    }

    /// add value to the values of the triangle points
    pub fn vadd(&self, val: P::Val) -> (r: VTri<Vect<P::Val>>) where P::Val: HAdd
        requires
            can_v_add(self.a.xy(), splat(val)),
        ensures
            add_exact::<P::Val>() ==> r == (VTri {
                a: v_sum(self.a.xy(), splat(val)),
                ab: self.ab.xy(),
                ac: self.ac.xy(),
            }),
    {
        let a = self.a.vadd(val);
        let ab = self.ab.to();
        let ac = self.ac.to();

        VTri { a: a, ab: ab, ac: ac }
    }

    /// sub value from the values of the triangle points
    pub fn vsub(&self, val: P::Val) -> (r: VTri<Vect<P::Val>>) where P::Val: HSub
        requires
            can_v_sub(self.a.xy(), splat(val)),
        ensures
            sub_exact::<P::Val>() ==> r == (VTri {
                a: v_diff(self.a.xy(), splat(val)),
                ab: self.ab.xy(),
                ac: self.ac.xy(),
            }),
    {
        let a = self.a.vsub(val);
        let ab = self.ab.to();
        let ac = self.ac.to();

        VTri { a: a, ab: ab, ac: ac }
    }

    /// mul vector values with value (scaling)
    pub fn vmul(&self, val: P::Val) -> (r: VTri<Vect<P::Val>>) where P::Val: HMul
        requires
            can_v_mul(self.a.xy(), splat(val)),
            can_v_mul(self.ab.xy(), splat(val)),
            can_v_mul(self.ac.xy(), splat(val)),
        ensures
            mul_exact::<P::Val>() ==> r == (VTri {
                a: v_prod(self.a.xy(), splat(val)),
                ab: v_prod(self.ab.xy(), splat(val)),
                ac: v_prod(self.ac.xy(), splat(val)),
            }),
    {
        let a = self.a.vmul(val);
        let ab = self.ab.vmul(val);
        let ac = self.ac.vmul(val);

        VTri { a: a, ab: ab, ac: ac }
    }

    /// div vector values with value (scaling)
    pub fn vdiv(&self, val: P::Val) -> (r: VTri<Vect<P::Val>>) where P::Val: HDiv
        requires
            can_v_div(self.a.xy(), splat(val)),
            can_v_div(self.ab.xy(), splat(val)),
            can_v_div(self.ac.xy(), splat(val)),
        ensures
            div_exact::<P::Val>() ==> r == (VTri {
                a: v_quot(self.a.xy(), splat(val)),
                ab: v_quot(self.ab.xy(), splat(val)),
                ac: v_quot(self.ac.xy(), splat(val)),
            }),
    {
        let a = self.a.vdiv(val);
        let ab = self.ab.vdiv(val);
        let ac = self.ac.vdiv(val);

        VTri { a: a, ab: ab, ac: ac }
    }

    /// points of triangle with pnts() = \[a(), b(), c()\]
    pub fn pnts(&self) -> (r: [Vect<P::Val>; 3]) where P::Val: HAdd
        requires
            can_v_add(self.a.xy(), self.ab.xy()),
            can_v_add(self.a.xy(), self.ac.xy()),
        ensures
            r[0] == self.a.xy(),
            add_exact::<P::Val>() ==> r[1] == v_sum(self.a.xy(), self.ab.xy()),
            add_exact::<P::Val>() ==> r[2] == v_sum(self.a.xy(), self.ac.xy()),
    {
        [self.a(), self.b(), self.c()]
    }

    /// vectors of triangle with vects() = \[a(), ab(), ac()\]
    pub fn vects(&self) -> (r: [Vect<P::Val>; 3])
        ensures
            r[0] == self.a.xy(),
            r[1] == self.ab.xy(),
            r[2] == self.ac.xy(),
    {
        [self.a(), self.ab(), self.ac()]
    }

    /// direction vectors of triangle with dirs() = \[ab(), ac()\]
    pub fn dirs(&self) -> (r: [Vect<P::Val>; 2])
        ensures
            r[0] == self.ab.xy(),
            r[1] == self.ac.xy(),
    {
        [self.ab(), self.ac()]
    }

    /// bounding axis aligned rectangle
    pub fn bounds(&self) -> (r: Bounds<Vect<P::Val>>) where P::Val: HAdd + HPOrd
        requires
            can_v_add(self.a.xy(), self.ab.xy()),
            can_v_add(self.a.xy(), self.ac.xy()),
        ensures
            add_exact::<P::Val>() && ord_exact::<P::Val>() ==> r.corners() == (
                v_min(
                    self.a.xy(),
                    v_min(v_sum(self.a.xy(), self.ab.xy()), v_sum(self.a.xy(), self.ac.xy())),
                ),
                v_max(
                    self.a.xy(),
                    v_max(v_sum(self.a.xy(), self.ab.xy()), v_sum(self.a.xy(), self.ac.xy())),
                ),
            ),
    {
        let b = self.b();
        let c = self.c();

        let min = self.a.min(Vector::min(&b, &c));
        let max = self.a.max(Vector::max(&b, &c));

        Bounds::new_unchecked(min, max)
    }

    /// Every operation that `contains` carries out for this point is defined:
    /// on these values where the scalar's operations return what their
    /// specifications name, else on all values.
    pub open spec fn contains_defined(&self, pnt: Vect<P::Val>) -> bool where
        P::Val: Zero + HAdd + HSub + HMul + HPOrd,
     {
        if add_exact::<P::Val>() && sub_exact::<P::Val>() && mul_exact::<P::Val>()
            && ord_exact::<P::Val>() {
            &&& can_v_add(self.a.xy(), self.ab.xy())
            &&& can_v_add(self.a.xy(), self.ac.xy())
            &&& can_contains_bary(
                self.a.xy(),
                v_sum(self.a.xy(), self.ab.xy()),
                v_sum(self.a.xy(), self.ac.xy()),
                self.ab.xy(),
                self.ac.xy(),
                pnt,
            )
        } else {
            add_total::<P::Val>() && sub_total::<P::Val>() && mul_total::<P::Val>()
        }
    }

    /// check if triangle contains point with baryzentric coordinates
    ///
    /// slightly slower then implicit line equation check but more precise
    pub fn contains<V: Vector<Val = P::Val>>(&self, pnt: V) -> (r: bool) where
        P::Val: Zero + HAdd + HSub + HMul + HPOrd,

        requires
            self.contains_defined(pnt.xy()),
        ensures
            add_exact::<P::Val>() && sub_exact::<P::Val>() && mul_exact::<P::Val>()
                && ord_exact::<P::Val>() ==> r == contains_bary(
                self.a.xy(),
                v_sum(self.a.xy(), self.ab.xy()),
                v_sum(self.a.xy(), self.ac.xy()),
                self.ab.xy(),
                self.ac.xy(),
                pnt.xy(),
            ),
    {
        let zero = P::Val::zero();

        let ab = self.ab();
        let ac = self.ac();
        let abc = ab.det(&ac);

        let (start, end) = if abc < zero {
            (abc, zero)
        } else {
            (zero, abc)
        };

        let a = self.a();
        let b = self.b();

        let pa = a.sub(&pnt);
        let pb = b.sub(&pnt);

        let pab = pa.det(&pb);

        if !pab.inc_in(start, end) {
            return false;
        }
        let c = self.c();

        let pc = c.sub(&pnt);

        let pbc = pb.det(&pc);

        if !pbc.inc_in(start, end) {
            return false;
        }
        let pca = pc.det(&pa);

        if !pca.inc_in(start, end) {
            return false;
        }
        true
    }
}

/// The part of a triangle that other code reads: its corners and its two
/// directions.
pub trait TriPoints: Shape {
    spec fn a_spec(&self) -> Vect<Self::Val>;

    spec fn b_spec(&self) -> Vect<Self::Val>;

    spec fn c_spec(&self) -> Vect<Self::Val>;

    spec fn ab_spec(&self) -> Vect<Self::Val>;

    spec fn ac_spec(&self) -> Vect<Self::Val>;

    /// first point of triangle
    fn a(&self) -> (r: Vect<Self::Val>)
        requires
            self.wf(),
        ensures
            Self::exact() ==> r == self.a_spec(),
    ;

    /// second point of triangle
    fn b(&self) -> (r: Vect<Self::Val>)
        requires
            self.wf(),
        ensures
            Self::exact() ==> r == self.b_spec(),
    ;

    /// third point of triangle
    fn c(&self) -> (r: Vect<Self::Val>)
        requires
            self.wf(),
        ensures
            Self::exact() ==> r == self.c_spec(),
    ;

    /// direction vector of triangle with ab() = b() - a()
    fn ab(&self) -> (r: Vect<Self::Val>)
        requires
            self.wf(),
        ensures
            Self::exact() ==> r == self.ab_spec(),
    ;

    /// direction vector of triangle with ac() = c() - a()
    fn ac(&self) -> (r: Vect<Self::Val>)
        requires
            self.wf(),
        ensures
            Self::exact() ==> r == self.ac_spec(),
    ;
}

/// A triangle in any form.
pub trait Triangle: TriPoints {
    /// The owned triangle with the given corners and directions.
    spec fn of_spec(
        a: Vect<Self::Val>,
        b: Vect<Self::Val>,
        c: Vect<Self::Val>,
        ab: Vect<Self::Val>,
        ac: Vect<Self::Val>,
    ) -> Self::Own;

    /// create new triangle of other triangle
    fn of<T: TriPoints<Val = Self::Val>>(tri: T) -> (r: Self::Own)
        requires
            tri.wf(),
        ensures
            T::exact() ==> r == Self::of_spec(
                tri.a_spec(),
                tri.b_spec(),
                tri.c_spec(),
                tri.ab_spec(),
                tri.ac_spec(),
            ),
    ;

    /// points of triangle with pnts() = \[a(), b(), c()\]
    fn pnts(&self) -> (r: [Vect<Self::Val>; 3])
        requires
            self.wf(),
        ensures
            Self::exact() ==> r[0] == self.a_spec() && r[1] == self.b_spec() && r[2]
                == self.c_spec(),
    {
        [self.a(), self.b(), self.c()]
    }

    /// vectors of triangle with vects() = \[a(), ab(), ac()\]
    fn vects(&self) -> (r: [Vect<Self::Val>; 3])
        requires
            self.wf(),
        ensures
            Self::exact() ==> r[0] == self.a_spec() && r[1] == self.ab_spec() && r[2]
                == self.ac_spec(),
    {
        [self.a(), self.ab(), self.ac()]
    }

    /// direction vectors of triangle with dirs() = \[ab(), ac()\]
    fn dirs(&self) -> (r: [Vect<Self::Val>; 2])
        requires
            self.wf(),
        ensures
            Self::exact() ==> r[0] == self.ab_spec() && r[1] == self.ac_spec(),
    {
        [self.ab(), self.ac()]
    }
}

impl<'a, Tri: TriPoints> TriPoints for &'a Tri {
    open spec fn a_spec(&self) -> Vect<Tri::Val> {
        (**self).a_spec()
    }

    open spec fn b_spec(&self) -> Vect<Tri::Val> {
        (**self).b_spec()
    }

    open spec fn c_spec(&self) -> Vect<Tri::Val> {
        (**self).c_spec()
    }

    open spec fn ab_spec(&self) -> Vect<Tri::Val> {
        (**self).ab_spec()
    }

    open spec fn ac_spec(&self) -> Vect<Tri::Val> {
        (**self).ac_spec()
    }

    fn a(&self) -> Vect<Tri::Val> {
        Tri::a(self)
    }

    fn b(&self) -> Vect<Tri::Val> {
        Tri::b(self)
    }

    fn c(&self) -> Vect<Tri::Val> {
        Tri::c(self)
    }

    fn ab(&self) -> Vect<Tri::Val> {
        Tri::ab(self)
    }

    fn ac(&self) -> Vect<Tri::Val> {
        Tri::ac(self)
    }
}

impl<'a, Tri: Triangle> Triangle for &'a Tri {
    open spec fn of_spec(
        a: Vect<Tri::Val>,
        b: Vect<Tri::Val>,
        c: Vect<Tri::Val>,
        ab: Vect<Tri::Val>,
        ac: Vect<Tri::Val>,
    ) -> Tri::Own {
        Tri::of_spec(a, b, c, ab, ac)
    }

    fn of<T: TriPoints<Val = Self::Val>>(tri: T) -> Tri::Own {
        Tri::of(tri)
    }
}

impl<P: Vector> Parts for PTri<P> {
    type Val = P::Val;

    open spec fn positions(&self) -> Seq<Vect<P::Val>> {
        seq![self.a.xy(), self.b.xy(), self.c.xy()]
    }

    open spec fn directions(&self) -> Seq<Vect<P::Val>> {
        seq![]
    }
}

impl<P: Vector> Shape for PTri<P> where P::Val: Zero + HSub + HMul + HPOrd {
    type Own = PTri<Vect<P::Val>>;

    open spec fn wf(&self) -> bool {
        can_v_sub(self.b.xy(), self.a.xy()) && can_v_sub(self.c.xy(), self.a.xy())
    }

    open spec fn can_contain(&self, pnt: Vect<P::Val>) -> bool {
        self.contains_defined(pnt)
    }

    open spec fn exact() -> bool {
        sub_exact::<P::Val>() && mul_exact::<P::Val>() && ord_exact::<P::Val>()
    }

    open spec fn bounds_spec(&self) -> (Vect<P::Val>, Vect<P::Val>) {
        (
            v_min(self.a.xy(), v_min(self.b.xy(), self.c.xy())),
            v_max(self.a.xy(), v_max(self.b.xy(), self.c.xy())),
        )
    }

    open spec fn contains_spec(&self, pnt: Vect<P::Val>) -> bool {
        contains_bary(
            self.a.xy(),
            self.b.xy(),
            self.c.xy(),
            v_diff(self.b.xy(), self.a.xy()),
            v_diff(self.c.xy(), self.a.xy()),
            pnt,
        )
    }

    fn add<V: Coords<Val = P::Val>>(&self, vect: V) -> PTri<Vect<P::Val>> where P::Val: HAdd {
        assert(self.positions()[0] == self.a.xy());
        assert(self.positions()[1] == self.b.xy());
        assert(self.positions()[2] == self.c.xy());
        PTri::add(self, vect)
    }

    fn sub<V: Coords<Val = P::Val>>(&self, vect: V) -> PTri<Vect<P::Val>> where P::Val: HSub {
        assert(self.positions()[0] == self.a.xy());
        assert(self.positions()[1] == self.b.xy());
        assert(self.positions()[2] == self.c.xy());
        PTri::sub(self, vect)
    }

    fn mul<V: Coords<Val = P::Val>>(&self, vect: V) -> PTri<Vect<P::Val>> where P::Val: HMul {
        assert(self.positions()[0] == self.a.xy());
        assert(self.positions()[1] == self.b.xy());
        assert(self.positions()[2] == self.c.xy());
        PTri::mul(self, vect)
    }

    fn div<V: Coords<Val = P::Val>>(&self, vect: V) -> PTri<Vect<P::Val>> where P::Val: HDiv {
        assert(self.positions()[0] == self.a.xy());
        assert(self.positions()[1] == self.b.xy());
        assert(self.positions()[2] == self.c.xy());
        PTri::div(self, vect)
    }

    fn vadd(&self, val: P::Val) -> PTri<Vect<P::Val>> where P::Val: HAdd {
        assert(self.positions()[0] == self.a.xy());
        assert(self.positions()[1] == self.b.xy());
        assert(self.positions()[2] == self.c.xy());
        PTri::vadd(self, val)
    }

    fn vsub(&self, val: P::Val) -> PTri<Vect<P::Val>> where P::Val: HSub {
        assert(self.positions()[0] == self.a.xy());
        assert(self.positions()[1] == self.b.xy());
        assert(self.positions()[2] == self.c.xy());
        PTri::vsub(self, val)
    }

    fn vmul(&self, val: P::Val) -> PTri<Vect<P::Val>> where P::Val: HMul {
        assert(self.positions()[0] == self.a.xy());
        assert(self.positions()[1] == self.b.xy());
        assert(self.positions()[2] == self.c.xy());
        PTri::vmul(self, val)
    }

    fn vdiv(&self, val: P::Val) -> PTri<Vect<P::Val>> where P::Val: HDiv {
        assert(self.positions()[0] == self.a.xy());
        assert(self.positions()[1] == self.b.xy());
        assert(self.positions()[2] == self.c.xy());
        PTri::vdiv(self, val)
    }

    fn bounds(&self) -> Bounds<Vect<P::Val>> {
        PTri::bounds(self)
    }

    fn contains<V: Vector<Val = P::Val>>(&self, pnt: V) -> bool {
        PTri::contains(self, pnt)
    }
}

impl<P: Vector> TriPoints for PTri<P> where P::Val: Zero + HSub + HMul + HPOrd {
    open spec fn a_spec(&self) -> Vect<P::Val> {
        self.a.xy()
    }

    open spec fn b_spec(&self) -> Vect<P::Val> {
        self.b.xy()
    }

    open spec fn c_spec(&self) -> Vect<P::Val> {
        self.c.xy()
    }

    open spec fn ab_spec(&self) -> Vect<P::Val> {
        v_diff(self.b.xy(), self.a.xy())
    }

    open spec fn ac_spec(&self) -> Vect<P::Val> {
        v_diff(self.c.xy(), self.a.xy())
    }

    fn a(&self) -> Vect<P::Val> {
        PTri::a(self)
    }

    fn b(&self) -> Vect<P::Val> {
        PTri::b(self)
    }

    fn c(&self) -> Vect<P::Val> {
        PTri::c(self)
    }

    fn ab(&self) -> Vect<P::Val> {
        PTri::ab(self)
    }

    fn ac(&self) -> Vect<P::Val> {
        PTri::ac(self)
    }
}

impl<P: Vector> Triangle for PTri<P> where P::Val: Zero + HSub + HMul + HPOrd {
    open spec fn of_spec(
        a: Vect<P::Val>,
        b: Vect<P::Val>,
        c: Vect<P::Val>,
        ab: Vect<P::Val>,
        ac: Vect<P::Val>,
    ) -> PTri<Vect<P::Val>> {
        PTri { a: a, b: b, c: c }
    }

    fn of<T: TriPoints<Val = P::Val>>(tri: T) -> PTri<Vect<P::Val>> {
        PTri::<P>::of(tri)
    }
}

impl<P: Vector> Parts for VTri<P> {
    type Val = P::Val;

    open spec fn positions(&self) -> Seq<Vect<P::Val>> {
        seq![self.a.xy()]
    }

    open spec fn directions(&self) -> Seq<Vect<P::Val>> {
        seq![self.ab.xy(), self.ac.xy()]
    }
}

impl<P: Vector> Shape for VTri<P> where P::Val: Zero + HAdd + HSub + HMul + HPOrd {
    type Own = VTri<Vect<P::Val>>;

    open spec fn wf(&self) -> bool {
        can_v_add(self.a.xy(), self.ab.xy()) && can_v_add(self.a.xy(), self.ac.xy())
    }

    open spec fn can_contain(&self, pnt: Vect<P::Val>) -> bool {
        self.contains_defined(pnt)
    }

    open spec fn exact() -> bool {
        add_exact::<P::Val>() && sub_exact::<P::Val>() && mul_exact::<P::Val>()
            && ord_exact::<P::Val>()
    }

    open spec fn bounds_spec(&self) -> (Vect<P::Val>, Vect<P::Val>) {
        (
            v_min(
                self.a.xy(),
                v_min(v_sum(self.a.xy(), self.ab.xy()), v_sum(self.a.xy(), self.ac.xy())),
            ),
            v_max(
                self.a.xy(),
                v_max(v_sum(self.a.xy(), self.ab.xy()), v_sum(self.a.xy(), self.ac.xy())),
            ),
        )
    }

    open spec fn contains_spec(&self, pnt: Vect<P::Val>) -> bool {
        contains_bary(
            self.a.xy(),
            v_sum(self.a.xy(), self.ab.xy()),
            v_sum(self.a.xy(), self.ac.xy()),
            self.ab.xy(),
            self.ac.xy(),
            pnt,
        )
    }

    fn add<V: Coords<Val = P::Val>>(&self, vect: V) -> VTri<Vect<P::Val>> where P::Val: HAdd {
        assert(self.positions()[0] == self.a.xy());
        VTri::add(self, vect)
    }

    fn sub<V: Coords<Val = P::Val>>(&self, vect: V) -> VTri<Vect<P::Val>> where P::Val: HSub {
        assert(self.positions()[0] == self.a.xy());
        VTri::sub(self, vect)
    }

    fn mul<V: Coords<Val = P::Val>>(&self, vect: V) -> VTri<Vect<P::Val>> where P::Val: HMul {
        assert(self.positions()[0] == self.a.xy());
        assert(self.directions()[0] == self.ab.xy());
        assert(self.directions()[1] == self.ac.xy());
        VTri::mul(self, vect)
    }

    fn div<V: Coords<Val = P::Val>>(&self, vect: V) -> VTri<Vect<P::Val>> where P::Val: HDiv {
        assert(self.positions()[0] == self.a.xy());
        assert(self.directions()[0] == self.ab.xy());
        assert(self.directions()[1] == self.ac.xy());
        VTri::div(self, vect)
    }

    fn vadd(&self, val: P::Val) -> VTri<Vect<P::Val>> where P::Val: HAdd {
        assert(self.positions()[0] == self.a.xy());
        VTri::vadd(self, val)
    }

    fn vsub(&self, val: P::Val) -> VTri<Vect<P::Val>> where P::Val: HSub {
        assert(self.positions()[0] == self.a.xy());
        VTri::vsub(self, val)
    }

    fn vmul(&self, val: P::Val) -> VTri<Vect<P::Val>> where P::Val: HMul {
        assert(self.positions()[0] == self.a.xy());
        assert(self.directions()[0] == self.ab.xy());
        assert(self.directions()[1] == self.ac.xy());
        VTri::vmul(self, val)
    }

    fn vdiv(&self, val: P::Val) -> VTri<Vect<P::Val>> where P::Val: HDiv {
        assert(self.positions()[0] == self.a.xy());
        assert(self.directions()[0] == self.ab.xy());
        assert(self.directions()[1] == self.ac.xy());
        VTri::vdiv(self, val)
    }

    fn bounds(&self) -> Bounds<Vect<P::Val>> {
        VTri::bounds(self)
    }

    fn contains<V: Vector<Val = P::Val>>(&self, pnt: V) -> bool {
        VTri::contains(self, pnt)
    }
}

impl<P: Vector> TriPoints for VTri<P> where P::Val: Zero + HAdd + HSub + HMul + HPOrd {
    open spec fn a_spec(&self) -> Vect<P::Val> {
        self.a.xy()
    }

    open spec fn b_spec(&self) -> Vect<P::Val> {
        v_sum(self.a.xy(), self.ab.xy())
    }

    open spec fn c_spec(&self) -> Vect<P::Val> {
        v_sum(self.a.xy(), self.ac.xy())
    }

    open spec fn ab_spec(&self) -> Vect<P::Val> {
        self.ab.xy()
    }

    open spec fn ac_spec(&self) -> Vect<P::Val> {
        self.ac.xy()
    }

    fn a(&self) -> Vect<P::Val> {
        VTri::a(self)
    }

    fn b(&self) -> Vect<P::Val> {
        VTri::b(self)
    }

    fn c(&self) -> Vect<P::Val> {
        VTri::c(self)
    }

    fn ab(&self) -> Vect<P::Val> {
        VTri::ab(self)
    }

    fn ac(&self) -> Vect<P::Val> {
        VTri::ac(self)
    }
}

impl<P: Vector> Triangle for VTri<P> where P::Val: Zero + HAdd + HSub + HMul + HPOrd {
    open spec fn of_spec(
        a: Vect<P::Val>,
        b: Vect<P::Val>,
        c: Vect<P::Val>,
        ab: Vect<P::Val>,
        ac: Vect<P::Val>,
    ) -> VTri<Vect<P::Val>> {
        VTri { a: a, ab: ab, ac: ac }
    }

    fn of<T: TriPoints<Val = P::Val>>(tri: T) -> VTri<Vect<P::Val>> {
        VTri::<P>::of(tri)
    }
}

/// check if triangle contains point with baryzentric coordinates
///
/// slightly slower then implicit line equation check but more precise
pub fn contains_with_barycentric_coords<V: Vector, T: Triangle<Val = V::Val>>(
    tri: &T,
    pnt: V,
) -> (r: bool) where V::Val: Zero + HSub + HMul + HPEq + HPOrd
    requires
        tri.wf(),
        if T::exact() && sub_exact::<V::Val>() && mul_exact::<V::Val>() && ord_exact::<V::Val>() {
            can_contains_bary(
                tri.a_spec(),
                tri.b_spec(),
                tri.c_spec(),
                tri.ab_spec(),
                tri.ac_spec(),
                pnt.xy(),
            )
        } else {
            sub_total::<V::Val>() && mul_total::<V::Val>()
        },
    ensures
        T::exact() && sub_exact::<V::Val>() && mul_exact::<V::Val>() && ord_exact::<V::Val>()
            ==> r == contains_bary(
            tri.a_spec(),
            tri.b_spec(),
            tri.c_spec(),
            tri.ab_spec(),
            tri.ac_spec(),
            pnt.xy(),
        ),
{
    let zero = V::Val::zero();

    let dirs = tri.dirs();
    let ab = dirs[0];
    let ac = dirs[1];
    let abc = ab.det(&ac);

    let (start, end) = if abc < zero {
        (abc, zero)
    } else {
        (zero, abc)
    };

    let a = tri.a();
    let b = tri.b();

    let pa = a.sub(&pnt);
    let pb = b.sub(&pnt);

    let pab = pa.det(&pb);

    if !pab.inc_in(start, end) {
        return false;
    }
    let c = tri.c();

    let pc = c.sub(&pnt);

    let pbc = pb.det(&pc);

    if !pbc.inc_in(start, end) {
        return false;
    }
    let pca = pc.det(&pa);

    if !pca.inc_in(start, end) {
        return false;
    }
    true
}

/// check if triangle contains point with implicit line equation e(p) = dot(n, p) + d = 0
///
/// slighty faster then baryzentric coordinate check but less precise
pub fn contains_with_implicit_line_equation<V: Vector, T: Triangle<Val = V::Val>>(
    tri: &T,
    pnt: V,
) -> (r: bool) where V::Val: Zero + HAdd + HSub + HMul + HPOrd + HNeg
    requires
        tri.wf(),
        if T::exact() && add_exact::<V::Val>() && sub_exact::<V::Val>() && mul_exact::<V::Val>()
            && ord_exact::<V::Val>() {
            can_contains_implicit(
                tri.a_spec(),
                tri.b_spec(),
                tri.c_spec(),
                tri.ab_spec(),
                tri.ac_spec(),
                pnt.xy(),
            )
        } else {
            add_total::<V::Val>() && sub_total::<V::Val>() && mul_total::<V::Val>()
        },
    ensures
        T::exact() && add_exact::<V::Val>() && sub_exact::<V::Val>() && mul_exact::<V::Val>()
            && ord_exact::<V::Val>() ==> r == contains_implicit(
            tri.a_spec(),
            tri.b_spec(),
            tri.c_spec(),
            tri.ab_spec(),
            tri.ac_spec(),
            pnt.xy(),
        ),
{
    let zero = V::Val::zero();
    let vects = tri.vects();
    let a = vects[0];
    let ab = vects[1];
    let ac = vects[2];

    let turn = ab.det(&ac);

    let (b, c) = if turn < zero {
        (tri.c(), tri.b())
    } else {
        (tri.b(), tri.c())
    };

    let n_ab = (a.y() - b.y(), b.x() - a.x());
    if n_ab.dot(&pnt) < n_ab.dot(&a) {
        return false;
    }
    let n_bc = (b.y() - c.y(), c.x() - b.x());
    if n_bc.dot(&pnt) < n_bc.dot(&b) {
        return false;
    }
    let n_ca = (c.y() - a.y(), a.x() - c.x());
    if n_ca.dot(&pnt) < n_ca.dot(&c) {
        return false;
    }
    true
}

} // verus!
