use std::ops::{Add, Div, Mul, Neg, Rem, Sub};
use tg::conv::{Cast, Of, To};
use tg::draw::vect::{
    draw_segment_to_path, draw_segments_to_path, draw_segments_to_paths, PathStep,
};
use tg::geom::d2::poly::Poly;
use tg::geom::d2::prim::line::{Line, SLine};
use tg::geom::d2::prim::rect::{PRect, RectPoints, Rectangle, VRect};
use tg::geom::d2::prim::seg::{Ends, PSeg, Segment, VSeg};
use tg::geom::d2::prim::srect::{OVTri, SRect, TRect};
use tg::geom::d2::prim::tri::{
    contains_with_barycentric_coords, contains_with_implicit_line_equation, PTri, TriPoints,
    Triangle, VTri,
};
use tg::geom::d2::prim::vect::{Coords, Vector};
use tg::geom::d2::shape::d2::{Bounds, Shape};
use tg::geom::d2::span::LTSpan;
use tg::num::{Float, One, Two, Zero};
use tg::range::{irange, range};
use tg::rel::HPOrd;

/// A double precision number as the scalar of the values under test.
#[derive(Clone, Copy, Debug, PartialEq, PartialOrd)]
struct F(f64);

impl Add for F {
    type Output = F;

    fn add(self, other: F) -> F {
        F(self.0 + other.0)
    }
}

impl Sub for F {
    type Output = F;

    fn sub(self, other: F) -> F {
        F(self.0 - other.0)
    }
}

impl Mul for F {
    type Output = F;

    fn mul(self, other: F) -> F {
        F(self.0 * other.0)
    }
}

impl Div for F {
    type Output = F;

    fn div(self, other: F) -> F {
        F(self.0 / other.0)
    }
}

impl Rem for F {
    type Output = F;

    fn rem(self, other: F) -> F {
        F(self.0 % other.0)
    }
}

impl Neg for F {
    type Output = F;

    fn neg(self) -> F {
        F(-self.0)
    }
}

impl Zero for F {
    fn zero() -> F {
        F(0.0)
    }
}

impl One for F {
    fn one() -> F {
        F(1.0)
    }
}

impl Two for F {
    fn two() -> F {
        F(2.0)
    }
}

impl Float for F {
    fn sqrt(self) -> F {
        F(self.0.sqrt())
    }

    fn sin(self) -> F {
        F(self.0.sin())
    }

    fn cos(self) -> F {
        F(self.0.cos())
    }

    fn acos(self) -> F {
        F(self.0.acos())
    }

    fn pi() -> F {
        F(std::f64::consts::PI)
    }
}

fn v(x: f64, y: f64) -> (F, F) {
    (F(x), F(y))
}

struct Meters(i64);

impl Of<i64> for Meters {
    fn of(value: i64) -> Meters {
        Meters(value)
    }
}

#[test]
fn numbers_zero_one_two() {
    assert_eq!((<u32 as Zero>::zero(), <u32 as One>::one(), <u32 as Two>::two()), (0, 1, 2));
    assert_eq!((<u64 as Zero>::zero(), <u64 as One>::one(), <u64 as Two>::two()), (0, 1, 2));
    assert_eq!((<usize as Zero>::zero(), <usize as One>::one(), <usize as Two>::two()), (0, 1, 2));
    assert_eq!((<i32 as Zero>::zero(), <i32 as One>::one(), <i32 as Two>::two()), (0, 1, 2));
    assert_eq!((<i64 as Zero>::zero(), <i64 as One>::one(), <i64 as Two>::two()), (0, 1, 2));
    assert_eq!((<isize as Zero>::zero(), <isize as One>::one(), <isize as Two>::two()), (0, 1, 2));
}

#[test]
fn conversions() {
    let m: Meters = 7i64.to();
    assert_eq!(m.0, 7);
    let same: u8 = Cast::<u8>::cast(9u8);
    assert_eq!(same, 9);
}

#[test]
fn ranges() {
    assert_eq!(range(2, 5).collect::<Vec<i32>>(), vec![2, 3, 4]);
    assert_eq!(irange(2, 5).collect::<Vec<i32>>(), vec![2, 3, 4, 5]);
    assert!(range(5, 5).collect::<Vec<i32>>().is_empty());
}

#[test]
fn order_helpers() {
    assert_eq!(HPOrd::min(3i64, 5), 3);
    assert_eq!(HPOrd::max(3i64, 5), 5);
    assert_eq!(HPOrd::min(F(2.0), F(-1.0)), F(-1.0));
    assert!(HPOrd::exc_in(4i64, 3, 5));
    assert!(!HPOrd::exc_in(3i64, 3, 5));
    assert!(HPOrd::inc_in(3i64, 3, 5) && HPOrd::inc_in(5i64, 3, 5));
    assert!(!HPOrd::inc_in(6i64, 3, 5));
    // a value that compares with nothing is in no range and is no minimum
    assert!(!HPOrd::inc_in(F(f64::NAN), F(0.0), F(1.0)));
    assert_eq!(HPOrd::min(F(1.0), F(f64::NAN)).0.is_nan(), true);
    assert_eq!(tg::rel::ExtHPOrd::max(7u8, 7u8), 7);
}

#[test]
fn vector_algebra_on_integers() {
    let a: (i64, i64) = (1, 2);
    let b: (i64, i64) = (3, -4);
    assert_eq!((a.x(), a.y()), (1, 2));
    assert_eq!(a.vals(), [1, 2]);
    assert_eq!(a.add(b), (4, -2));
    assert_eq!(a.sub(&b), (-2, 6));
    assert_eq!(a.mul(b), (3, -8));
    assert_eq!(b.div(a), (3, -2));
    assert_eq!(Vector::neg(&b), (-3, 4));
    assert_eq!(a.vadd(10), (11, 12));
    assert_eq!(a.vsub(10), (-9, -8));
    assert_eq!(b.vmul(3), (9, -12));
    assert_eq!(b.vdiv(2), (1, -2));
    assert_eq!(a.det(b), -10);
    assert_eq!(b.det(a), 10);
    assert_eq!(a.dot(b), -5);
    assert_eq!(Vector::min(&a, b), (1, -4));
    assert_eq!(Vector::max(&a, b), (3, 2));
    assert_eq!(a.orth_l(), (-2, 1));
    assert_eq!(a.orth_r(), (2, -1));
    assert!(a.equal((1, 2)) && !a.equal((1, 3)));
    assert_eq!(Vector::to(&&a), (1, 2));
    assert_eq!(<(i64, i64) as Vector>::of(&b), (3, -4));
    assert_eq!(<(i64, i64) as Vector>::zero(), (0, 0));
    assert_eq!(<(i64, i64) as Vector>::one(), (1, 1));
    assert_eq!(a.map(|value| value > 1), (false, true));
    assert!(a.lin_dep((2, 4)) && !a.lin_dep(b));
    assert_eq!(a.indep_det((2, 4)), None);
    assert_eq!(a.indep_det(b), Some(-10));
    assert!(a.lin_dep_eps(b, 10) && !a.lin_dep_eps(b, 9));
    assert_eq!(a.indep_det_eps(b, 9), Some(-10));
    assert_eq!(a.indep_det_eps(b, 10), None);
    assert!(b.left(a) && !a.left(b) && !a.left(a));
}

#[test]
fn vector_lengths_and_angles() {
    assert_eq!(v(3.0, 4.0).len(), F(5.0));
    let half_pi = std::f64::consts::FRAC_PI_2;
    assert_eq!(v(1.0, 0.0).angle(v(0.0, 1.0)), F(half_pi));
    assert_eq!(v(1.0, 0.0).angle(v(0.0, -2.0)), F(half_pi));
    assert_eq!(v(1.0, 0.0).angle(v(-1.0, 0.0)), F(std::f64::consts::PI));
    assert_eq!(v(1.0, 0.0).angle_l(v(0.0, 1.0)), F(half_pi));
    assert_eq!(v(1.0, 0.0).angle_l(v(0.0, -1.0)), F(2.0 * std::f64::consts::PI - half_pi));
    // the left angle stays below a full turn: no turn towards a vector that points the same way
    assert_eq!(v(1.0, 0.0).angle_l(v(2.0, 0.0)), F(0.0));
    assert_eq!(v(3.0, 4.0).angle_l(v(3.0, 4.0)), F(0.0));
    // half a turn towards a vector that points the other way
    assert_eq!(v(1.0, 0.0).angle_l(v(-2.0, 0.0)), F(std::f64::consts::PI));
    assert_eq!(v(0.0, 1.0).angle_l(v(1.0, 0.0)), F(2.0 * std::f64::consts::PI - half_pi));
}

#[test]
fn segments() {
    let p = PSeg::new(v(1.0, 1.0), v(4.0, 5.0));
    assert_eq!((Ends::a(&p), Ends::b(&p), p.ab()), (v(1.0, 1.0), v(4.0, 5.0), v(3.0, 4.0)));
    assert_eq!(p.pnts(), [v(1.0, 1.0), v(4.0, 5.0)]);
    assert_eq!(p.vects(), [v(1.0, 1.0), v(3.0, 4.0)]);
    let q = VSeg::new(v(1.0, 1.0), v(3.0, 4.0));
    assert_eq!((Ends::a(&q), Ends::b(&q), q.ab()), (v(1.0, 1.0), v(4.0, 5.0), v(3.0, 4.0)));

    let moved = Segment::add(&p, v(1.0, -1.0));
    assert_eq!((moved.a, moved.b), (v(2.0, 0.0), v(5.0, 4.0)));
    let moved = Segment::add(&q, v(1.0, -1.0));
    assert_eq!((moved.a, moved.ab), (v(2.0, 0.0), v(3.0, 4.0)));
    let moved = Segment::sub(&q, v(1.0, -1.0));
    assert_eq!((moved.a, moved.ab), (v(0.0, 2.0), v(3.0, 4.0)));
    let scaled = Segment::vmul(&p, F(2.0));
    assert_eq!((scaled.a, scaled.b), (v(2.0, 2.0), v(8.0, 10.0)));
    let scaled = Segment::vmul(&q, F(2.0));
    assert_eq!((scaled.a, scaled.ab), (v(2.0, 2.0), v(6.0, 8.0)));
    let scaled = Segment::mul(&q, v(2.0, 0.5));
    assert_eq!((scaled.a, scaled.ab), (v(2.0, 0.5), v(6.0, 2.0)));
    let scaled = Segment::div(&p, v(2.0, 0.5));
    assert_eq!((scaled.a, scaled.b), (v(0.5, 2.0), v(2.0, 10.0)));
    let shifted = Segment::vadd(&p, F(1.0));
    assert_eq!((shifted.a, shifted.b), (v(2.0, 2.0), v(5.0, 6.0)));
    let shifted = Segment::vsub(&q, F(1.0));
    assert_eq!((shifted.a, shifted.ab), (v(0.0, 0.0), v(3.0, 4.0)));
    let shrunk = Segment::vdiv(&q, F(2.0));
    assert_eq!((shrunk.a, shrunk.ab), (v(0.5, 0.5), v(1.5, 2.0)));

    let copy = <PSeg<(F, F)> as Segment>::of(&q);
    assert_eq!((copy.a, copy.b), (v(1.0, 1.0), v(4.0, 5.0)));
    let copy = <VSeg<(F, F)> as Segment>::of(&p);
    assert_eq!((copy.a, copy.ab), (v(1.0, 1.0), v(3.0, 4.0)));
}

#[test]
fn segment_intersections() {
    let ab = PSeg::new(v(100.0, 100.0), v(300.0, 300.0));
    let cd = PSeg::new(v(100.0, 300.0), v(300.0, 100.0));
    assert_eq!(ab.intsec(&cd), Some(v(200.0, 200.0)));
    assert_eq!(cd.intsec(&ab), Some(v(200.0, 200.0)));
    // the crossing lies beyond the end of the first segment
    let short = PSeg::new(v(0.0, 0.0), v(1.0, 1.0));
    let far = PSeg::new(v(4.0, 0.0), v(0.0, 4.0));
    assert_eq!(short.intsec(&far), None);
    // the ends of both segments limit the crossing
    assert_eq!(far.intsec(&short), None);
    let floor = PSeg::new(v(0.0, 0.0), v(4.0, 0.0));
    assert_eq!(floor.intsec(&PSeg::new(v(2.0, -6.0), v(2.0, -10.0))), None);
    assert_eq!(floor.intsec(&PSeg::new(v(2.0, -6.0), v(2.0, 0.0))), Some(v(2.0, 0.0)));
    assert_eq!(floor.intsec(&PSeg::new(v(2.0, -6.0), v(2.0, 3.0))), Some(v(2.0, 0.0)));
    assert_eq!(floor.intsec_eps(&PSeg::new(v(2.0, -6.0), v(2.0, -10.0)), F(0.001)), None);
    assert_eq!(floor.intsec_eps(&PSeg::new(v(2.0, -6.0), v(2.0, 3.0)), F(0.001)), Some(v(2.0, 0.0)));
    // parallel segments do not cross
    let low = PSeg::new(v(0.0, 0.0), v(1.0, 0.0));
    let high = PSeg::new(v(0.0, 1.0), v(1.0, 1.0));
    assert_eq!(low.intsec(&high), None);
    assert_eq!(low.intsec_eps(&high, F(0.001)), None);
    assert_eq!(ab.intsec_eps(&cd, F(0.001)), Some(v(200.0, 200.0)));
    // directions whose determinant is within eps count as parallel
    assert_eq!(ab.intsec_eps(&cd, F(100000.0)), None);
    // a segment that ends on the other one crosses it there
    let to_the_line = PSeg::new(v(0.0, 0.0), v(2.0, 2.0));
    assert_eq!(to_the_line.intsec(&far), Some(v(2.0, 2.0)));
    // two lines meet where they are not parallel
    let line = SLine::new(PSeg::new(v(0.0, 0.0), v(1.0, 1.0)));
    assert_eq!(line.intsec_line(&far, F(0.001)), Some(v(2.0, 2.0)));
    assert_eq!(line.intsec_line(&SLine::new(far), F(0.001)), Some(v(2.0, 2.0)));
    assert_eq!(SLine::new(low).intsec_line(&high, F(0.001)), None);
}

#[test]
fn triangles() {
    let p = PTri::new(v(0.0, 0.0), v(4.0, 0.0), v(0.0, 4.0));
    let q = VTri::new(v(0.0, 0.0), v(4.0, 0.0), v(0.0, 4.0));
    assert_eq!(p.pnts(), [v(0.0, 0.0), v(4.0, 0.0), v(0.0, 4.0)]);
    assert_eq!(q.pnts(), [v(0.0, 0.0), v(4.0, 0.0), v(0.0, 4.0)]);
    assert_eq!(p.vects(), q.vects());
    assert_eq!(p.dirs(), [v(4.0, 0.0), v(0.0, 4.0)]);
    assert_eq!((p.a(), p.b(), p.c(), p.ab(), p.ac()), (q.a(), q.b(), q.c(), q.ab(), q.ac()));
    for t in [true, false] {
        let inside = |pnt: (F, F)| if t { p.contains(pnt) } else { q.contains(pnt) };
        assert!(inside(v(1.0, 1.0)));
        assert!(inside(v(0.0, 0.0)) && inside(v(2.0, 2.0)) && inside(v(4.0, 0.0)));
        assert!(!inside(v(3.0, 3.0)) && !inside(v(-0.5, 1.0)) && !inside(v(1.0, -0.5)));
    }
    // the corners may turn either way
    let turned = PTri::new(v(0.0, 0.0), v(0.0, 4.0), v(4.0, 0.0));
    assert!(turned.contains(v(1.0, 1.0)) && !turned.contains(v(3.0, 3.0)));
    assert!(contains_with_barycentric_coords(&p, v(1.0, 1.0)));
    assert!(!contains_with_barycentric_coords(&q, v(3.0, 3.0)));
    assert!(contains_with_implicit_line_equation(&p, v(1.0, 1.0)));
    assert!(contains_with_implicit_line_equation(&turned, v(1.0, 1.0)));
    assert!(!contains_with_implicit_line_equation(&q, v(3.0, 3.0)));
    assert!(Shape::contains(&&p, v(1.0, 1.0)));

    let b = p.bounds();
    assert_eq!((b.start, b.end), (v(0.0, 0.0), v(4.0, 4.0)));
    let b = VTri::new(v(1.0, 1.0), v(-3.0, 0.0), v(2.0, 5.0)).bounds();
    assert_eq!((b.start, b.end), (v(-2.0, 1.0), v(3.0, 6.0)));

    let moved = p.add(v(1.0, 2.0));
    assert_eq!((moved.a, moved.b, moved.c), (v(1.0, 2.0), v(5.0, 2.0), v(1.0, 6.0)));
    let moved = q.add(v(1.0, 2.0));
    assert_eq!((moved.a, moved.ab, moved.ac), (v(1.0, 2.0), v(4.0, 0.0), v(0.0, 4.0)));
    let moved = q.vsub(F(1.0));
    assert_eq!((moved.a, moved.ab, moved.ac), (v(-1.0, -1.0), v(4.0, 0.0), v(0.0, 4.0)));
    let scaled = q.vmul(F(0.5));
    assert_eq!((scaled.a, scaled.ab, scaled.ac), (v(0.0, 0.0), v(2.0, 0.0), v(0.0, 2.0)));
    let scaled = p.div(v(2.0, 4.0));
    assert_eq!((scaled.a, scaled.b, scaled.c), (v(0.0, 0.0), v(2.0, 0.0), v(0.0, 1.0)));
    let scaled = Shape::mul(&p, v(2.0, 4.0));
    assert_eq!((scaled.a, scaled.b, scaled.c), (v(0.0, 0.0), v(8.0, 0.0), v(0.0, 16.0)));

    let copy = PTri::<(F, F)>::of(&q);
    assert_eq!((copy.a, copy.b, copy.c), (v(0.0, 0.0), v(4.0, 0.0), v(0.0, 4.0)));
    let copy = <VTri<(F, F)> as Triangle>::of(&moved);
    assert_eq!((copy.a, copy.ab, copy.ac), (v(-1.0, -1.0), v(4.0, 0.0), v(0.0, 4.0)));
    assert_eq!(TriPoints::b(&moved), v(3.0, -1.0));
}

#[test]
fn rectangles() {
    let p = PRect::new_unchecked(v(1.0, 1.0), v(5.0, 1.0), v(5.0, 3.0), v(1.0, 3.0));
    let q = VRect::new_unchecked(v(1.0, 1.0), v(4.0, 0.0), v(4.0, 2.0), v(0.0, 2.0));
    assert_eq!(p.pnts(), q.pnts());
    assert_eq!(p.vects(), q.vects());
    assert_eq!(p.dirs(), [v(4.0, 0.0), v(4.0, 2.0), v(0.0, 2.0)]);
    assert_eq!((p.d(), p.ad(), q.d(), q.ad()), (v(1.0, 3.0), v(0.0, 2.0), v(1.0, 3.0), v(0.0, 2.0)));
    for pnt in [v(1.0, 1.0), v(3.0, 2.0), v(5.0, 3.0), v(1.0, 3.0)] {
        assert!(p.contains(pnt) && q.contains(pnt));
    }
    for pnt in [v(0.9, 2.0), v(3.0, 3.1), v(5.1, 2.0), v(3.0, 0.9)] {
        assert!(!p.contains(pnt) && !q.contains(pnt));
    }
    let b = p.bounds();
    assert_eq!((b.start, b.end), (v(1.0, 1.0), v(5.0, 3.0)));
    let b = q.bounds();
    assert_eq!((b.start, b.end), (v(1.0, 1.0), v(5.0, 3.0)));
    let b = Shape::bounds(&q);
    assert_eq!((b.start(), b.end(), b.size()), (v(1.0, 1.0), v(5.0, 3.0), v(4.0, 2.0)));

    let moved = p.sub(v(1.0, 1.0));
    assert_eq!(moved.pnts(), [v(0.0, 0.0), v(4.0, 0.0), v(4.0, 2.0), v(0.0, 2.0)]);
    let moved = q.sub(v(1.0, 1.0));
    assert_eq!(moved.pnts(), [v(0.0, 0.0), v(4.0, 0.0), v(4.0, 2.0), v(0.0, 2.0)]);
    let moved = q.vadd(F(1.0));
    assert_eq!(moved.vects(), [v(2.0, 2.0), v(4.0, 0.0), v(4.0, 2.0), v(0.0, 2.0)]);
    let scaled = q.vdiv(F(2.0));
    assert_eq!(scaled.vects(), [v(0.5, 0.5), v(2.0, 0.0), v(2.0, 1.0), v(0.0, 1.0)]);
    let scaled = p.mul(v(2.0, 3.0));
    assert_eq!(scaled.pnts(), [v(2.0, 3.0), v(10.0, 3.0), v(10.0, 9.0), v(2.0, 9.0)]);

    let copy = VRect::<(F, F)>::of(&p);
    assert_eq!(copy.vects(), q.vects());
    let copy = <PRect<(F, F)> as Rectangle>::of(&q);
    assert_eq!(copy.pnts(), p.pnts());
    assert_eq!(RectPoints::c(&q), v(5.0, 3.0));
}

#[test]
fn bounds() {
    let b = Bounds::new((3i64, -1i64), (1i64, 4i64));
    assert_eq!((b.start, b.end), ((1, -1), (3, 4)));
    assert_eq!(b.size(), (2, 5));
    let zero = Bounds::with_zero_unchecked((7u32, 9u32));
    assert_eq!((zero.start(), zero.end()), ((0, 0), (7, 9)));
    let raw = Bounds::new_unchecked((5i64, 5i64), (1i64, 1i64));
    assert_eq!((raw.start, raw.end), ((5, 5), (1, 1)));
    let clamped = b.clamp(Bounds::new_unchecked((2i64, -5i64), (9i64, 2i64)));
    assert_eq!((clamped.start, clamped.end), ((2, -1), (3, 2)));
    let mapped = b.map_unchecked(|p: &(i64, i64)| (-p.0, p.1));
    assert_eq!((mapped.start, mapped.end), ((-1, -1), (-3, 4)));
    let mapped = b.map(|p: &(i64, i64)| (-p.0, p.1));
    assert_eq!((mapped.start, mapped.end), ((-3, -1), (-1, 4)));
    let mapped = b.vmap(|value: i64| -value);
    assert_eq!((mapped.start, mapped.end), ((-3, -4), (-1, 1)));
    let old = tg::geom::d2::obj::d2::Bounds::new_unchecked((0i64, 1i64), (2i64, 3i64));
    assert_eq!((old.min, old.max), ((0, 1), (2, 3)));
}

#[test]
fn polygons() {
    let poly = Poly::new(vec![v(1.0, 1.0), v(3.0, 1.0), v(2.0, 5.0)]);
    assert_eq!(poly.vertices().len(), 3);
    let b = poly.bounds();
    assert_eq!((b.start, b.end), (v(1.0, 1.0), v(3.0, 5.0)));
    assert_eq!(poly.add(v(1.0, -1.0)).vertices, vec![v(2.0, 0.0), v(4.0, 0.0), v(3.0, 4.0)]);
    assert_eq!(poly.mul(v(2.0, 0.5)).vertices, vec![v(2.0, 0.5), v(6.0, 0.5), v(4.0, 2.5)]);
    // scaled by (10 / 2, 2 / 4), then moved by (10, 0) - (1, 1)
    let fitted = poly.fit_bounds(Bounds::new_unchecked(v(10.0, 0.0), v(20.0, 2.0)));
    assert_eq!(fitted.vertices, vec![v(14.0, -0.5), v(24.0, -0.5), v(19.0, 1.5)]);
}

#[test]
fn spans() {
    let span = LTSpan::new((1, 2), [(3, 4), (5, 6)]);
    assert_eq!(*span.base(), (1, 2));
    assert_eq!(*span.vects(), [(3, 4), (5, 6)]);
}

fn steps(path: &[PathStep<F>]) -> Vec<(bool, (F, F))> {
    path.iter()
        .map(|step| match *step {
            PathStep::MoveTo(point) => (false, point),
            PathStep::LineTo(point) => (true, point),
        })
        .collect()
}

#[test]
fn paths_move_to_the_first_point_and_draw_to_the_second() {
    let one = PSeg::new(v(1.0, 2.0), v(3.0, 4.0));
    let two = VSeg::new(v(5.0, 5.0), v(1.0, -1.0));
    assert_eq!(steps(&draw_segment_to_path(&one)), vec![(false, v(1.0, 2.0)), (true, v(3.0, 4.0))]);
    assert_eq!(steps(&draw_segment_to_path(&two)), vec![(false, v(5.0, 5.0)), (true, v(6.0, 4.0))]);
    let both = vec![PSeg::new(v(1.0, 2.0), v(3.0, 4.0)), PSeg::new(v(5.0, 5.0), v(6.0, 4.0))];
    assert_eq!(
        steps(&draw_segments_to_path(&both)),
        vec![(false, v(1.0, 2.0)), (true, v(3.0, 4.0)), (false, v(5.0, 5.0)), (true, v(6.0, 4.0))]
    );
    let paths = draw_segments_to_paths(&both);
    assert_eq!(paths.len(), 2);
    assert_eq!(steps(&paths[1]), vec![(false, v(5.0, 5.0)), (true, v(6.0, 4.0))]);
    assert!(draw_segments_to_path(&Vec::<PSeg<(F, F)>>::new()).is_empty());
}

#[test]
fn rectangles_over_a_side() {
    let corners = [v(1.0, 1.0), v(3.0, 1.0), v(3.0, 2.0), v(1.0, 2.0)];
    let side = SRect::new(PSeg::new(v(1.0, 1.0), v(3.0, 1.0)), F(0.5));
    assert_eq!(side.points(), corners);
    assert_eq!(side.span(), (v(1.0, 1.0), (v(2.0, 0.0), v(0.0, 1.0))));
    let b = side.bounds();
    assert_eq!((b.start, b.end), (v(1.0, 1.0), v(3.0, 2.0)));
    assert!(side.contains(&v(2.0, 1.5)) && side.contains(&v(1.0, 2.0)));
    assert!(!side.contains(&v(2.0, 2.5)) && !side.contains(&v(0.5, 1.5)));
    // a negative ratio turns to the right
    let down = SRect::new(PSeg::new(v(1.0, 1.0), v(3.0, 1.0)), F(-1.0));
    assert_eq!(down.points(), [v(1.0, 1.0), v(3.0, 1.0), v(3.0, -1.0), v(1.0, -1.0)]);

    let tri = OVTri::new_unchecked(VTri::new(v(1.0, 1.0), v(2.0, 0.0), v(0.0, 1.0)));
    assert_eq!((tri.pos(), tri.dir0(), tri.dir1()), (v(1.0, 1.0), v(2.0, 0.0), v(0.0, 1.0)));
    assert_eq!(tri.dirs(), (v(2.0, 0.0), v(0.0, 1.0)));
    let spanned = TRect::new(tri);
    assert_eq!(spanned.points(), corners);
    assert_eq!(spanned.span(), (v(1.0, 1.0), (v(2.0, 0.0), v(0.0, 1.0))));
    assert_eq!((spanned.pos(), spanned.dir0(), spanned.dir1()), (v(1.0, 1.0), v(2.0, 0.0), v(0.0, 1.0)));
    assert_eq!(spanned.dirs(), (v(2.0, 0.0), v(0.0, 1.0)));
    let b = spanned.bounds();
    assert_eq!((b.start, b.end), (v(1.0, 1.0), v(3.0, 2.0)));
    assert!(spanned.contains(&v(2.0, 1.5)) && !spanned.contains(&v(2.0, 2.5)));
}
