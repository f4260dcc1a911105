use std::ops::{Add, Div, Mul, Neg, Rem, Sub};
use tg::geom::d2::mesh::contour::{
    ContourAdjacentResult, ContourIntersectionResult, ContourStepOrigin,
};
use tg::geom::d2::mesh::ind::IndSegMesh;
use tg::geom::d3::mesh::ind::{mesh_of_values, stem_contour};
use tg::geom::mesh::ind::IndSeg;
use tg::num::{Float, One, Two, Zero};

/// A double precision number as the scalar of the values under test.
#[derive(Clone, Copy, Debug, PartialEq, PartialOrd)]
struct F(f64);

impl Add for F {
    type Output = F;

    fn add(self, other: F) -> F {
        F(self.0 + other.0)
    }
}

impl Sub for F {
    type Output = F;

    fn sub(self, other: F) -> F {
        F(self.0 - other.0)
    }
}

impl Mul for F {
    type Output = F;

    fn mul(self, other: F) -> F {
        F(self.0 * other.0)
    }
}

impl Div for F {
    type Output = F;

    fn div(self, other: F) -> F {
        F(self.0 / other.0)
    }
}

impl Rem for F {
    type Output = F;

    fn rem(self, other: F) -> F {
        F(self.0 % other.0)
    }
}

impl Neg for F {
    type Output = F;

    fn neg(self) -> F {
        F(-self.0)
    }
}

impl Zero for F {
    fn zero() -> F {
        F(0.0)
    }
}

impl One for F {
    fn one() -> F {
        F(1.0)
    }
}

impl Two for F {
    fn two() -> F {
        F(2.0)
    }
}

impl Float for F {
    fn sqrt(self) -> F {
        F(self.0.sqrt())
    }

    fn sin(self) -> F {
        F(self.0.sin())
    }

    fn cos(self) -> F {
        F(self.0.cos())
    }

    fn acos(self) -> F {
        F(self.0.acos())
    }

    fn pi() -> F {
        F(std::f64::consts::PI)
    }
}

fn v(x: f64, y: f64) -> (F, F) {
    (F(x), F(y))
}

fn mesh(points: &[(f64, f64)], edges: &[(usize, usize)]) -> IndSegMesh<(F, F)> {
    let vertices = points.iter().map(|p| v(p.0, p.1)).collect();
    let segments = edges.iter().map(|e| IndSeg::new(e.0, e.1)).collect();
    IndSegMesh::new_unchecked(vertices, segments)
}

fn plain(contour: Vec<(F, F)>) -> Vec<(f64, f64)> {
    contour.iter().map(|p| (p.0 .0, p.1 .0)).collect()
}

fn l_shape() -> IndSegMesh<(F, F)> {
    mesh(
        &[(0.0, 0.0), (3.0, 0.0), (4.0, 1.0), (1.0, 4.0), (0.0, 3.0)],
        &[(0, 1), (1, 3), (2, 4), (1, 2), (3, 4), (4, 0)],
    )
}

/// twice the signed area of the triangle p q r
fn turn(p: (f64, f64), q: (f64, f64), r: (f64, f64)) -> f64 {
    (q.0 - p.0) * (r.1 - p.1) - (q.1 - p.1) * (r.0 - p.0)
}

/// the open segments p q and a b have a point in common and are not parallel
fn cross_inside(p: (f64, f64), q: (f64, f64), a: (f64, f64), b: (f64, f64)) -> bool {
    turn(p, q, a) * turn(p, q, b) < 0.0 && turn(a, b, p) * turn(a, b, q) < 0.0
}

#[test]
fn triangle_closes_after_three_corners() {
    let m = mesh(&[(0.0, 0.0), (2.0, 0.0), (1.0, 2.0)], &[(0, 1), (1, 2), (2, 0)]);
    assert!(m.valid());
    let contour = plain(m.rrcontour(100).unwrap());
    assert_eq!(contour, vec![(0.0, 0.0), (2.0, 0.0), (1.0, 2.0), (0.0, 0.0)]);
}

#[test]
fn square_with_diagonals_keeps_to_the_outside() {
    let m = mesh(
        &[(0.0, 0.0), (4.0, 0.0), (4.0, 4.0), (0.0, 4.0)],
        &[(0, 1), (1, 2), (2, 3), (3, 0), (0, 2), (1, 3)],
    );
    let contour = plain(m.rrcontour(100).unwrap());
    assert_eq!(contour, vec![(0.0, 0.0), (4.0, 0.0), (4.0, 4.0), (0.0, 4.0), (0.0, 0.0)]);
    assert!(!contour.contains(&(2.0, 2.0)));
}

#[test]
fn empty_mesh_has_no_contour() {
    let m = mesh(&[], &[]);
    assert!(m.rrcontour(100).is_none());
    assert!(m.contour().is_none());
    assert!(m.rrrcontour(100).is_none());
    assert!(m.leftmost().is_none());
    assert!(m.bounds().is_none());
}

#[test]
fn isolated_start_vertex_has_no_contour() {
    let m = mesh(&[(0.0, 0.0), (1.0, 1.0), (2.0, 0.0)], &[(1, 2)]);
    assert!(m.rrcontour(100).is_none());
    assert!(m.rrcontour(0).is_none());
}

#[test]
fn notch_of_an_l_shape_bends_at_the_crossing() {
    let points = [(0.0, 0.0), (3.0, 0.0), (4.0, 1.0), (1.0, 4.0), (0.0, 3.0)];
    let contour = plain(l_shape().rrcontour(100).unwrap());
    assert_eq!(
        contour,
        vec![(0.0, 0.0), (3.0, 0.0), (4.0, 1.0), (2.0, 2.0), (1.0, 4.0), (0.0, 3.0), (0.0, 0.0)]
    );
    // one crossing was traversed: one point more than the mesh has vertices
    assert_eq!(contour.len() - 1, points.len() + 1);
    assert!(!points.contains(&(2.0, 2.0)));
}

#[test]
fn self_loops_are_never_followed() {
    let m = mesh(
        &[(0.0, 0.0), (2.0, 0.0), (1.0, 2.0)],
        &[(0, 0), (0, 1), (1, 2), (2, 0), (1, 1)],
    );
    assert_eq!(m.adjacent_vertex_indecis(0), vec![1, 2]);
    assert_eq!(m.adjacent_vertex_indecis(1), vec![0, 2]);
    let contour = plain(m.rrcontour(100).unwrap());
    assert_eq!(contour, vec![(0.0, 0.0), (2.0, 0.0), (1.0, 2.0), (0.0, 0.0)]);
}

#[test]
fn contour_starts_at_the_first_of_the_leftmost_vertices() {
    let m = mesh(&[(1.0, 1.0), (0.0, 2.0), (0.0, 0.0), (2.0, 0.0)], &[(0, 1), (1, 2), (2, 3), (3, 0)]);
    assert_eq!(m.leftmost(), Some(1));
    let contour = plain(m.rrcontour(100).unwrap());
    assert_eq!(contour[0], (0.0, 2.0));
    assert_eq!(plain(m.rrrcontour(5).unwrap()), vec![(0.0, 2.0)]);
}

#[test]
fn contour_is_never_longer_than_asked_for() {
    let full = vec![(0.0, 0.0), (3.0, 0.0), (4.0, 1.0), (2.0, 2.0), (1.0, 4.0), (0.0, 3.0), (0.0, 0.0)];
    for max in 1..12usize {
        let contour = plain(l_shape().rrcontour(max).unwrap());
        assert!(contour.len() <= max);
        let expected: Vec<(f64, f64)> = full.iter().take(max).cloned().collect();
        assert_eq!(contour, expected);
    }
    // the start point is there even where no point was asked for
    assert_eq!(plain(l_shape().rrcontour(0).unwrap()), vec![(0.0, 0.0)]);
}

#[test]
fn contour_below_the_cap_is_closed() {
    for max in 1..12usize {
        let contour = plain(l_shape().rrcontour(max).unwrap());
        if contour.len() < max {
            assert_eq!(contour[0], contour[contour.len() - 1]);
        }
    }
    let capped = plain(l_shape().rrcontour(6).unwrap());
    assert_eq!(capped.len(), 6);
    assert_ne!(capped[0], capped[5]);
}

#[test]
fn no_step_crosses_a_segment_of_the_mesh() {
    let m = l_shape();
    let points = [(0.0, 0.0), (3.0, 0.0), (4.0, 1.0), (1.0, 4.0), (0.0, 3.0)];
    let edges = [(0, 1), (1, 3), (2, 4), (1, 2), (3, 4), (4, 0)];
    let contour = plain(m.rrcontour(100).unwrap());
    for k in 1..contour.len() {
        for e in edges.iter() {
            assert!(!cross_inside(contour[k - 1], contour[k], points[e.0], points[e.1]));
        }
    }
}

#[test]
fn steps_of_the_l_shape() {
    let m = l_shape();
    let start = m.first_step(0);
    assert_eq!(start.last_vertex, v(-1.0, 1.0));
    assert_eq!(start.current_vertex, v(0.0, 0.0));
    assert_eq!(start.last_right_index, 0);
    assert!(matches!(start.origin, ContourStepOrigin::Mesh { current_index: 0 }));

    assert_eq!(m.adjacent_target(&start), Some(1));
    assert!(m.crossing(&start, 1).is_none());
    let first = m.next_step(&start).unwrap();
    assert_eq!(first.current_vertex, v(3.0, 0.0));
    assert_eq!(first.last_vertex, v(0.0, 0.0));
    assert!(matches!(first.origin, ContourStepOrigin::Mesh { current_index: 1 }));

    let second = m.next_step(&first).unwrap();
    assert_eq!(second.current_vertex, v(4.0, 1.0));
    assert_eq!(second.last_right_index, 1);

    // from (4, 1) the way to (0, 3) is cut by the segment from (3, 0) to (1, 4)
    assert_eq!(m.adjacent_target(&second), Some(4));
    let cut = m.crossing(&second, 4).unwrap();
    assert_eq!(cut.intersection, v(2.0, 2.0));
    assert_eq!(cut.distance, F(5.0f64.sqrt()));
    assert_eq!((cut.left_index, cut.right_index), (3, 1));
    assert_eq!(cut.left_vertex, v(1.0, 4.0));
    assert_eq!(cut.right_vertex, v(3.0, 0.0));
    assert!(m.crossing_with(&second, 4, &IndSeg::new(0, 1)).is_none());
    assert!(m.crossing_with(&second, 4, &IndSeg::new(2, 4)).is_none());

    let third = m.next_step(&second).unwrap();
    assert_eq!(third.current_vertex, v(2.0, 2.0));
    assert_eq!(third.last_right_index, 2);
    assert!(matches!(
        third.origin,
        ContourStepOrigin::Intersection { last_left_index: 4, right_index: 1, left_index: 3 }
    ));

    // at a crossing the target is the left end of the crossed segment
    assert_eq!(m.adjacent_target(&third), Some(3));
    let fourth = m.next_step(&third).unwrap();
    assert_eq!(fourth.current_vertex, v(1.0, 4.0));
    assert_eq!(fourth.last_right_index, 1);
    assert!(matches!(fourth.origin, ContourStepOrigin::Mesh { current_index: 3 }));
}

fn adjacent(index: usize, angle: f64, length: Option<f64>, vector: (f64, f64)) -> ContourAdjacentResult<(F, F)> {
    ContourAdjacentResult {
        index: index,
        vector: v(vector.0, vector.1),
        angle: F(angle),
        length: length.map(F),
    }
}

#[test]
fn adjacent_pick_prefers_angle_then_length() {
    let a = adjacent(1, 0.5, None, (1.0, 0.0));
    let b = adjacent(2, 0.7, None, (1.0, 0.0));
    assert_eq!(ContourAdjacentResult::pick(a, b).index, 1);
    let a = adjacent(1, 0.9, None, (1.0, 0.0));
    let b = adjacent(2, 0.7, None, (1.0, 0.0));
    assert_eq!(ContourAdjacentResult::pick(a, b).index, 2);
    // equal angles: the shorter vector wins, the stored length before the vector
    let a = adjacent(1, 0.7, None, (3.0, 4.0));
    let b = adjacent(2, 0.7, Some(6.0), (1.0, 0.0));
    assert_eq!(ContourAdjacentResult::pick(a, b).index, 1);
    let a = adjacent(1, 0.7, Some(6.0), (1.0, 0.0));
    let b = adjacent(2, 0.7, None, (3.0, 4.0));
    assert_eq!(ContourAdjacentResult::pick(a, b).index, 2);
    // all equal: the second
    let a = adjacent(1, 0.7, None, (3.0, 4.0));
    let b = adjacent(2, 0.7, None, (4.0, 3.0));
    assert_eq!(ContourAdjacentResult::pick(a, b).index, 2);
}

fn crossing(
    at: (f64, f64),
    distance: f64,
    left: (usize, (f64, f64)),
    right: (usize, (f64, f64)),
) -> ContourIntersectionResult<(F, F)> {
    ContourIntersectionResult {
        intersection: v(at.0, at.1),
        distance: F(distance),
        left_vertex: v((left.1).0, (left.1).1),
        left_index: left.0,
        right_vertex: v((right.1).0, (right.1).1),
        right_index: right.0,
    }
}

#[test]
fn crossing_pick_prefers_distance_then_angle_then_left_end() {
    let direction = v(1.0, 0.0);
    let near = crossing((1.0, 0.0), 1.0, (1, (1.0, 1.0)), (2, (1.0, -1.0)));
    let far = crossing((2.0, 0.0), 2.0, (3, (2.0, 1.0)), (4, (2.0, -1.0)));
    assert_eq!(ContourIntersectionResult::pick(near, far, direction).left_index, 1);
    let near = crossing((1.0, 0.0), 1.0, (1, (1.0, 1.0)), (2, (1.0, -1.0)));
    let far = crossing((2.0, 0.0), 2.0, (3, (2.0, 1.0)), (4, (2.0, -1.0)));
    assert_eq!(ContourIntersectionResult::pick(far, near, direction).left_index, 1);
    // equal distance: the segment that turns less to the left wins;
    // from left to right the first points down (3/2 pi), the second up (1/2 pi)
    let down = crossing((1.0, 0.0), 1.0, (1, (1.0, 1.0)), (2, (1.0, -1.0)));
    let up = crossing((1.0, 0.0), 1.0, (3, (1.0, -1.0)), (4, (1.0, 1.0)));
    assert_eq!(ContourIntersectionResult::pick(down, up, direction).left_index, 3);
    // equal distance and angle: the nearer left end wins, the first where both are as near
    let long = crossing((1.0, 0.0), 1.0, (1, (1.0, 2.0)), (2, (1.0, -1.0)));
    let short = crossing((1.0, 0.0), 1.0, (3, (1.0, 1.0)), (4, (1.0, -2.0)));
    assert_eq!(ContourIntersectionResult::pick(long, short, direction).left_index, 3);
    let one = crossing((1.0, 0.0), 1.0, (1, (1.0, 1.0)), (2, (1.0, -1.0)));
    let other = crossing((1.0, 0.0), 1.0, (3, (1.0, 1.0)), (4, (1.0, -1.0)));
    assert_eq!(ContourIntersectionResult::pick(one, other, direction).left_index, 1);
}

#[test]
fn simple_tracer_starts_at_the_right_and_does_not_repeat_the_start() {
    let m = mesh(&[(0.0, 0.0), (2.0, 0.0), (1.0, 2.0)], &[(0, 1), (1, 2), (2, 0)]);
    assert_eq!(m.rightmost(), Some(1));
    assert_eq!(m.start_turn(1), Some(2));
    assert_eq!(plain(m.contour().unwrap()), vec![(2.0, 0.0), (1.0, 2.0), (0.0, 0.0)]);
    let square = mesh(&[(0.0, 0.0), (4.0, 0.0), (4.0, 4.0), (0.0, 4.0)], &[(0, 1), (1, 2), (2, 3), (3, 0)]);
    assert_eq!(
        plain(square.contour().unwrap()),
        vec![(4.0, 0.0), (4.0, 4.0), (0.0, 4.0), (0.0, 0.0)]
    );
    assert!(square.nearest_cut(1, 2).is_none());
    assert_eq!(square.next_turn(&v(4.0, 0.0), Some(1), 2), Some(3));
}

#[test]
fn simple_tracer_follows_cuts_to_an_end_of_the_cutting_segment() {
    let contour = plain(l_shape().contour().unwrap());
    assert_eq!(
        contour,
        vec![
            (4.0, 1.0),
            (0.0, 3.0),
            (1.0, 4.0),
            (2.0, 2.0),
            (0.0, 3.0),
            (2.0, 2.0),
            (3.0, 0.0),
            (2.0, 2.0)
        ]
    );
    assert_eq!(l_shape().nearest_cut(3, 1).map(|cut| (cut.1, cut.2)), Some((4, v(2.0, 2.0))));
}

#[test]
fn vertex_with_no_way_on_gives_no_contour() {
    // the vertex at (5, 0) hangs on one segment: the tracer gets there and cannot go on
    let m = mesh(&[(0.0, 0.0), (1.0, 0.0), (1.0, 1.0), (5.0, 0.0)], &[(0, 1), (1, 2), (2, 0), (3, 1)]);
    assert!(m.rrcontour(50).is_none());
    let start = m.first_step(0);
    let first = m.next_step(&start).unwrap();
    let second = m.next_step(&first).unwrap();
    assert_eq!(second.current_vertex, v(5.0, 0.0));
    assert_eq!(m.adjacent_target(&second), None);
    assert!(m.next_step(&second).is_none());
    // a path has no way back at its end either
    let path = mesh(&[(0.0, 0.0), (1.0, 0.0), (2.0, 0.5)], &[(0, 1), (1, 2)]);
    assert!(path.rrcontour(50).is_none());
    assert!(path.contour().is_none());
    assert_eq!(path.next_turn(&v(1.0, 0.0), Some(1), 0), None);
    assert_eq!(path.start_turn(2), Some(1));
}

#[test]
fn crossings_lie_on_both_segments() {
    // the segment from (2, -6) to (2, -10) lies on a line through the floor of
    // the box and does not reach it
    let m = mesh(
        &[(0.0, 0.0), (4.0, 0.0), (4.0, 4.0), (0.0, 4.0), (2.0, -6.0), (2.0, -10.0)],
        &[(0, 1), (1, 2), (2, 3), (3, 0), (4, 5)],
    );
    let contour = plain(m.rrcontour(50).unwrap());
    assert_eq!(contour, vec![(0.0, 0.0), (4.0, 0.0), (4.0, 4.0), (0.0, 4.0), (0.0, 0.0)]);
    let start = m.first_step(0);
    assert!(m.crossing_with(&start, 1, &IndSeg::new(4, 5)).is_none());
    assert!(m.crossing(&start, 1).is_none());
}

#[test]
fn mesh_bounds_and_transforms() {
    let mut m = l_shape();
    let bounds = m.bounds().unwrap();
    assert_eq!(bounds.start(), v(0.0, 0.0));
    assert_eq!(bounds.end(), v(4.0, 4.0));
    m.add_mut(v(1.0, -1.0));
    assert_eq!(*m.vertex(2), v(5.0, 0.0));
    m.vmul_mut(F(2.0));
    assert_eq!(*m.vertex(2), v(10.0, 0.0));
    assert_eq!(m.segments().len(), 6);
    assert_eq!(m.vertices().len(), 5);
    let seg = m.point_segment(&IndSeg::new(0, 2));
    assert_eq!((seg.a, seg.b), (v(2.0, -2.0), v(10.0, 0.0)));
}

#[test]
fn mesh_fits_into_a_view_by_one_factor() {
    // the bounds are (0, 0) and (4, 4): the factors are 2 and 1 / 2, the smaller one counts
    let mut m = l_shape();
    m.fit_to(v(8.0, 2.0));
    assert_eq!(*m.vertices(), vec![v(0.0, 0.0), v(1.5, 0.0), v(2.0, 0.5), v(0.5, 2.0), v(0.0, 1.5)]);
    assert_eq!(m.segments().len(), 6);
    // a mesh away from the origin is moved there first
    let mut m = mesh(&[(10.0, 20.0), (12.0, 21.0)], &[(0, 1)]);
    m.fit_to(v(4.0, 4.0));
    assert_eq!(*m.vertices(), vec![v(0.0, 0.0), v(4.0, 2.0)]);
}

#[test]
fn mesh_with_a_segment_out_of_range_is_not_valid() {
    let m = mesh(&[(0.0, 0.0), (2.0, 0.0)], &[(0, 1), (1, 2)]);
    assert!(!m.valid());
    let m = mesh(&[(0.0, 0.0), (2.0, 0.0)], &[(0, 1), (1, 1)]);
    assert!(m.valid());
}

#[test]
fn stem_contour_of_a_flat_triangle() {
    let values = [F(0.0), F(0.0), F(0.0), F(2.0), F(0.0), F(0.0), F(1.0), F(0.0), F(2.0)];
    let mesh = mesh_of_values(&values, &[0, 1, 1, 2, 2, 0]).unwrap();
    assert!(mesh.segments().iter().all(|s| s.a() < 3 && s.b() < 3));
    let contour = plain(stem_contour(&mesh, F(0.0), F(0.0)).unwrap());
    assert_eq!(contour, vec![(0.0, 0.0), (2.0, 0.0), (1.0, 2.0), (0.0, 0.0)]);
    // a half turn about the y axis mirrors x and z
    let turned = mesh.rotate_y(F(std::f64::consts::PI));
    let p = turned.vertices()[2];
    assert!((p.0 .0 + 1.0).abs() < 1e-12 && p.1 .0 == 0.0 && (p.2 .0 + 2.0).abs() < 1e-12);
    // a quarter turn about the z axis takes x to y
    let turned = mesh.rotate_z(F(std::f64::consts::FRAC_PI_2));
    let p = turned.vertices()[1];
    assert!(p.0 .0.abs() < 1e-12 && (p.1 .0 - 2.0).abs() < 1e-12 && p.2 .0 == 0.0);
}

#[test]
fn flat_values_of_a_wrong_length_give_no_mesh() {
    assert!(mesh_of_values(&[F(0.0), F(1.0)], &[]).is_none());
    assert!(mesh_of_values(&[F(0.0), F(1.0), F(2.0)], &[0]).is_none());
    let invalid = mesh_of_values(&[F(0.0), F(1.0), F(2.0)], &[0, 1]).unwrap();
    assert!(!invalid.valid());
    let mesh = mesh_of_values(&[F(0.0), F(1.0), F(2.0)], &[0, 0]).unwrap();
    assert!(mesh.valid());
    assert_eq!(mesh.vertices()[0], (F(0.0), F(1.0), F(2.0)));
    assert_eq!((mesh.segments()[0].a(), mesh.segments()[0].b()), (0, 0));
}
