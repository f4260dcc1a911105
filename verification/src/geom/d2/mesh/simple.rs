use vstd::prelude::*;
use crate::geom::d2::mesh::ind::{adjacent_of, IndSegMesh};
use crate::geom::d2::prim::seg::{intsec_of, PSeg, Segment};
use crate::geom::d2::prim::vect::{angle_l_of, v_diff, v_same, Coords, Vect, Vector};
use crate::geom::mesh::ind::IndSeg;
use crate::num::{exact, total, Float, One, Zero};
use crate::rel::{above, below, HPOrd};

verus! {

/// The most points that the simple tracer appends before it gives up.
pub const SIMPLE_CONTOUR_CAP: usize = 1000;

/// The index of the rightmost of the first `k` points: the one of largest x,
/// the earliest where several are as large.
pub open spec fn rightmost_of<A: PartialOrd>(ps: Seq<Vect<A>>, k: nat) -> nat
    decreases k,
{
    if k == 0 {
        0
    } else {
        let best = rightmost_of(ps, (k - 1) as nat);
        if above(ps[k - 1].0, ps[best as int].0) {
            (k - 1) as nat
        } else {
            best
        }
    }
}

/// The left angle from the x axis to the way from the vertex `start` to the
/// vertex `index`.
pub open spec fn start_angle<A: Float + PartialOrd>(
    points: Seq<Vect<A>>,
    start: usize,
    index: usize,
) -> A {
    angle_l_of((A::one_spec(), A::zero_spec()), v_diff(points[index as int], points[start as int]))
}

/// The neighbour of smallest start angle among the first `k` of `adjacent`,
/// with its angle; the earliest where several have the smallest.
pub open spec fn start_turn_fold<A: Float + PartialOrd>(
    points: Seq<Vect<A>>,
    start: usize,
    adjacent: Seq<usize>,
    k: nat,
) -> (usize, A)
    decreases k,
{
    if k == 0 {
        (adjacent[0], start_angle(points, start, adjacent[0]))
    } else {
        let (best, best_angle) = start_turn_fold(points, start, adjacent, (k - 1) as nat);
        let angle = start_angle(points, start, adjacent[k - 1]);
        if below(angle, best_angle) {
            (adjacent[k - 1], angle)
        } else {
            (best, best_angle)
        }
    }
}

/// The first turn of the simple tracer: from the vertex `start` to its
/// neighbour of smallest left angle from the x axis. None without neighbours.
pub open spec fn start_turn_of<A: Float + PartialOrd>(
    points: Seq<Vect<A>>,
    segs: Seq<IndSeg>,
    start: usize,
) -> Option<usize> {
    let adjacent = adjacent_of(segs, start);
    if adjacent.len() == 0 {
        None
    } else {
        Some(start_turn_fold(points, start, adjacent, adjacent.len()).0)
    }
}

/// The left angle from the way that led from `last` to `curr` to the way
/// from the vertex `index` back to `curr`.
pub open spec fn back_angle<A: Float + PartialOrd>(
    points: Seq<Vect<A>>,
    last: Vect<A>,
    curr: Vect<A>,
    index: usize,
) -> A {
    angle_l_of(v_diff(curr, last), v_diff(curr, points[index as int]))
}

/// The first of `adjacent` that is not the vertex just left.
pub open spec fn first_other(adjacent: Seq<usize>, last_index: Option<usize>) -> Option<usize>
    decreases adjacent.len(),
{
    if adjacent.len() == 0 {
        None
    } else {
        match first_other(adjacent.drop_last(), last_index) {
            Some(index) => Some(index),
            None => if last_index == Some(adjacent.last()) {
                None
            } else {
                Some(adjacent.last())
            },
        }
    }
}

/// The neighbour of smallest back angle among `first` and the first `k` of
/// `adjacent`, the vertex just left not counted, with its angle.
pub open spec fn next_turn_fold<A: Float + PartialOrd>(
    points: Seq<Vect<A>>,
    last: Vect<A>,
    curr: Vect<A>,
    last_index: Option<usize>,
    adjacent: Seq<usize>,
    first: usize,
    k: nat,
) -> (usize, A)
    decreases k,
{
    if k == 0 {
        (first, back_angle(points, last, curr, first))
    } else {
        let (best, best_angle) = next_turn_fold(
            points,
            last,
            curr,
            last_index,
            adjacent,
            first,
            (k - 1) as nat,
        );
        let index = adjacent[k - 1];
        let angle = back_angle(points, last, curr, index);
        if last_index != Some(index) && below(angle, best_angle) {
            (index, angle)
        } else {
            (best, best_angle)
        }
    }
}

/// The turn of the simple tracer at the vertex `curr_index`, reached from the
/// point `last`. None where the vertex has no neighbour but the one just left.
pub open spec fn next_turn_of<A: Float + PartialOrd>(
    points: Seq<Vect<A>>,
    segs: Seq<IndSeg>,
    last: Vect<A>,
    last_index: Option<usize>,
    curr_index: usize,
) -> Option<usize> {
    let adjacent = adjacent_of(segs, curr_index);
    match first_other(adjacent, last_index) {
        None => None,
        Some(first) => Some(
            next_turn_fold(
                points,
                last,
                points[curr_index as int],
                last_index,
                adjacent,
                first,
                adjacent.len(),
            ).0,
        ),
    }
}

/// The cut that `seg` makes into the way from the vertex `curr_index` to the
/// vertex `next_index`: the smaller of the two left angles towards its ends,
/// that end, and the crossing. None where the segment touches one of the two
/// vertices or does not cross.
pub open spec fn cut_candidate<A: Float + PartialOrd>(
    points: Seq<Vect<A>>,
    curr_index: usize,
    next_index: usize,
    seg: IndSeg,
) -> Option<(A, usize, Vect<A>)> {
    let curr = points[curr_index as int];
    let direction = v_diff(points[next_index as int], curr);
    let a = points[seg.a as int];
    let b = points[seg.b as int];
    if seg.touches(curr_index) || seg.touches(next_index) {
        None
    } else {
        match intsec_of(curr, direction, a, v_diff(b, a)) {
            None => None,
            Some(intsec) => {
                let angle_a = angle_l_of(direction, v_diff(curr, a));
                let angle_b = angle_l_of(direction, v_diff(curr, b));
                if below(angle_a, angle_b) {
                    Some((angle_a, seg.a, intsec))
                } else {
                    Some((angle_b, seg.b, intsec))
                }
            },
        }
    }
}

/// The cut that the simple tracer follows: of the cuts of the segments
/// `segs` one of smallest angle, the latest where several have the smallest.
pub open spec fn best_cut<A: Float + PartialOrd>(
    points: Seq<Vect<A>>,
    curr_index: usize,
    next_index: usize,
    segs: Seq<IndSeg>,
) -> Option<(A, usize, Vect<A>)>
    decreases segs.len(),
{
    if segs.len() == 0 {
        None
    } else {
        let best = best_cut(points, curr_index, next_index, segs.drop_last());
        match cut_candidate(points, curr_index, next_index, segs.last()) {
            None => best,
            Some(cut) => match best {
                None => Some(cut),
                Some(best) => if below(best.0, cut.0) {
                    Some(best)
                } else {
                    Some(cut)
                },
            },
        }
    }
}

/// The contour that the simple tracer grows from `contour`, standing at the
/// vertex `curr_index`.
///
/// Each round selects the turn, follows the best cut to one end of the
/// cutting segment where there is a cut, and ends where the vertex reached
/// equals the first point or more than `SIMPLE_CONTOUR_CAP` points are held.
pub open spec fn simple_trace<A: Float + PartialOrd>(
    points: Seq<Vect<A>>,
    segs: Seq<IndSeg>,
    last_index: Option<usize>,
    curr_index: usize,
    contour: Seq<Vect<A>>,
) -> Option<Seq<Vect<A>>>
    decreases SIMPLE_CONTOUR_CAP + 2 - contour.len(),
{
    if contour.len() < 2 || contour.len() > SIMPLE_CONTOUR_CAP {
        Some(contour)
    } else {
        match next_turn_of(points, segs, contour[contour.len() - 2], last_index, curr_index) {
            None => None,
            Some(next_index) => {
                let cut = best_cut(points, curr_index, next_index, segs);
                let reached = match cut {
                    None => next_index,
                    Some(cut) => cut.1,
                };
                let left = match cut {
                    None => Some(curr_index),
                    Some(cut) => None,
                };
                let grown = match cut {
                    None => contour,
                    Some(cut) => contour.push(cut.2),
                };
                if v_same(points[reached as int], grown[0]) {
                    Some(grown)
                } else if grown.len() + 1 > SIMPLE_CONTOUR_CAP {
                    Some(grown.push(points[reached as int]))
                } else {
                    simple_trace(
                        points,
                        segs,
                        left,
                        reached,
                        grown.push(points[reached as int]),
                    )
                }
            },
        }
    }
}

/// The contour of the simple tracer: it starts at the rightmost vertex,
/// turns first to the neighbour of smallest left angle from the x axis, and
/// goes on from there. None for a mesh without vertices and where a vertex
/// offers no turn.
pub open spec fn simple_contour_of<A: Float + PartialOrd>(
    points: Seq<Vect<A>>,
    segs: Seq<IndSeg>,
) -> Option<Seq<Vect<A>>> {
    if points.len() == 0 {
        None
    } else {
        let start = rightmost_of(points, points.len()) as usize;
        match start_turn_of(points, segs, start) {
            None => None,
            Some(next) => simple_trace(
                points,
                segs,
                Some(start),
                next,
                seq![points[start as int], points[next as int]],
            ),
        }
    }
}

impl<V: Vector> IndSegMesh<V> {
    /// The index of the vertex of largest x, the first of them where several
    /// are as large; none for a mesh without vertices.
    pub fn rightmost(&self) -> (r: Option<usize>) where V::Val: HPOrd
        ensures
            r is None <==> self.vertices.len() == 0,
            r is Some ==> r->0 < self.vertices.len(),
            crate::rel::ord_exact::<V::Val>() && r is Some ==> r->0 == rightmost_of(
                self.points(),
                self.vertices@.len(),
            ),
    {
        if self.vertices.len() == 0 {
            return None;
        }
        let mut start_index: usize = 0;
        let mut index: usize = 0;
        while index < self.vertices.len()
            invariant
                index <= self.vertices.len(),
                start_index < self.vertices.len(),
                crate::rel::ord_exact::<V::Val>() ==> start_index == rightmost_of(
                    self.points(),
                    index as nat,
                ),
            decreases self.vertices.len() - index,
        {
            if self.vertices[index].x() > self.vertices[start_index].x() {
                start_index = index;
            }
            index += 1;
        }
        Some(start_index)
    }

    /// The first turn of the simple tracer, from the vertex `start_index`.
    pub fn start_turn(&self, start_index: usize) -> (r: Option<usize>) where
        V::Val: Float + HPOrd,

        requires
            self.wf(),
            start_index < self.vertices.len(),
            total::<V::Val>(),
        ensures
            r is Some ==> r->0 < self.vertices.len(),
            r is None <==> adjacent_of(self.segments@, start_index).len() == 0,
            exact::<V::Val>() ==> r == start_turn_of(self.points(), self.segments@, start_index),
    {
        let adjacent_indecis = self.adjacent_vertex_indecis(start_index);
        let x_axis_direction = (V::Val::one(), V::Val::zero());
        let start_vertex = self.vertex(start_index);

        if adjacent_indecis.len() == 0 {
            return None;
        }
        let mut next_index = adjacent_indecis[0];
        let mut next_min_angle = x_axis_direction.angle_l(
            self.vertex(next_index).sub(start_vertex),
        );

        let mut k: usize = 0;
        while k < adjacent_indecis.len()
            invariant
                k <= adjacent_indecis.len(),
                adjacent_indecis.len() > 0,
                total::<V::Val>(),
                start_index < self.vertices.len(),
                *start_vertex == self.vertices[start_index as int],
                x_axis_direction == (V::Val::one_spec(), V::Val::zero_spec()),
                next_index < self.vertices.len(),
                forall|w: int|
                    0 <= w < adjacent_indecis.len() ==> #[trigger] adjacent_indecis[w]
                        < self.vertices.len(),
                exact::<V::Val>() ==> (next_index, next_min_angle) == start_turn_fold(
                    self.points(),
                    start_index,
                    adjacent_indecis@,
                    k as nat,
                ),
            decreases adjacent_indecis.len() - k,
        {
            let index = adjacent_indecis[k];
            let angle = x_axis_direction.angle_l(self.vertex(index).sub(start_vertex));

            if angle < next_min_angle {
                next_index = index;
                next_min_angle = angle;
            }
            k += 1;
        }
        Some(next_index)
    }

    /// The turn of the simple tracer at the vertex `curr_index`, which it
    /// reached from the point `last_vertex`; `last_index` is the vertex that
    /// it left, where it left one.
    pub fn next_turn(
        &self,
        last_vertex: &Vect<V::Val>,
        last_index: Option<usize>,
        curr_index: usize,
    ) -> (r: Option<usize>) where V::Val: Float + HPOrd
        requires
            self.wf(),
            curr_index < self.vertices.len(),
            total::<V::Val>(),
        ensures
            r is Some ==> r->0 < self.vertices.len(),
            r is None <==> first_other(adjacent_of(self.segments@, curr_index), last_index) is None,
            exact::<V::Val>() ==> r == next_turn_of(
                self.points(),
                self.segments@,
                *last_vertex,
                last_index,
                curr_index,
            ),
    {
        let curr_vertex = self.vertex(curr_index);
        let adjacent_indecis = self.adjacent_vertex_indecis(curr_index);
        let last_curr_direction = curr_vertex.sub(last_vertex);

        // the first neighbour that is not the vertex just left
        let mut first: Option<usize> = None;
        let mut k: usize = 0;
        while k < adjacent_indecis.len() && first.is_none()
            invariant
                k <= adjacent_indecis.len(),
                first == first_other(adjacent_indecis@.take(k as int), last_index),
                first is Some ==> exists|w: int|
                    0 <= w < adjacent_indecis.len() && adjacent_indecis[w] == first->0,
            decreases adjacent_indecis.len() - k,
        {
            assert(adjacent_indecis@.take(k + 1).drop_last() == adjacent_indecis@.take(k as int));
            if last_index != Some(adjacent_indecis[k]) {
                first = Some(adjacent_indecis[k]);
            }
            k += 1;
        }
        proof {
            lemma_first_other_prefix(adjacent_indecis@, last_index, k as int);
        }
        let mut next_index = match first {
            Some(index) => index,
            None => {
                return None;
            },
        };

        let mut next_min_angle = last_curr_direction.angle_l(
            curr_vertex.sub(self.vertex(next_index)),
        );

        let mut k: usize = 0;
        while k < adjacent_indecis.len()
            invariant
                k <= adjacent_indecis.len(),
                total::<V::Val>(),
                curr_index < self.vertices.len(),
                *curr_vertex == self.vertices[curr_index as int],
                next_index < self.vertices.len(),
                first is Some,
                forall|w: int|
                    0 <= w < adjacent_indecis.len() ==> #[trigger] adjacent_indecis[w]
                        < self.vertices.len(),
                exact::<V::Val>() ==> last_curr_direction == v_diff(
                    self.points()[curr_index as int],
                    *last_vertex,
                ),
                exact::<V::Val>() ==> (next_index, next_min_angle) == next_turn_fold(
                    self.points(),
                    *last_vertex,
                    self.points()[curr_index as int],
                    last_index,
                    adjacent_indecis@,
                    first->0,
                    k as nat,
                ),
            decreases adjacent_indecis.len() - k,
        {
            let index = adjacent_indecis[k];
            k += 1;

            if last_index == Some(index) {
                continue ;
            }
            let vertex_curr_direction = curr_vertex.sub(self.vertex(index));
            let angle = last_curr_direction.angle_l(&vertex_curr_direction);

            if angle < next_min_angle {
                next_index = index;
                next_min_angle = angle;
            }
        }
        Some(next_index)
    }

    /// The cut that the simple tracer follows on the way from the vertex
    /// `curr_index` to the vertex `next_index`: the end of a crossing
    /// segment to go to, and the crossing.
    pub fn nearest_cut(&self, curr_index: usize, next_index: usize) -> (r: Option<
        (V::Val, usize, Vect<V::Val>),
    >) where V::Val: Float + HPOrd
        requires
            self.wf(),
            curr_index < self.vertices.len(),
            next_index < self.vertices.len(),
            total::<V::Val>(),
        ensures
            r matches Some(cut) ==> cut.1 < self.vertices.len(),
            exact::<V::Val>() ==> r == best_cut(
                self.points(),
                curr_index,
                next_index,
                self.segments@,
            ),
    {
        let curr_vertex = self.vertex(curr_index);
        let next_vertex = V::of(self.vertex(next_index));
        let curr_next_pseg = PSeg::new(V::of(curr_vertex), next_vertex);
        let curr_next_direction = next_vertex.sub(curr_vertex);

        let mut best: Option<(V::Val, usize, Vect<V::Val>)> = None;

        let mut k: usize = 0;
        while k < self.segments.len()
            invariant
                k <= self.segments.len(),
                self.wf(),
                total::<V::Val>(),
                curr_index < self.vertices.len(),
                next_index < self.vertices.len(),
                *curr_vertex == self.vertices[curr_index as int],
                curr_next_pseg.a == self.points()[curr_index as int],
                curr_next_pseg.b == self.points()[next_index as int],
                best matches Some(cut) ==> cut.1 < self.vertices.len(),
                exact::<V::Val>() ==> curr_next_direction == v_diff(
                    self.points()[next_index as int],
                    self.points()[curr_index as int],
                ),
                exact::<V::Val>() ==> best == best_cut(
                    self.points(),
                    curr_index,
                    next_index,
                    self.segments@.take(k as int),
                ),
            decreases self.segments.len() - k,
        {
            let iseg = &self.segments[k];
            assert(self.segments@.take(k + 1).drop_last() == self.segments@.take(k as int));
            k += 1;

            if iseg.a() == curr_index || iseg.a() == next_index || iseg.b() == curr_index
                || iseg.b() == next_index {
                continue ;
            }
            let pseg = self.point_segment(iseg);

            match curr_next_pseg.intsec(&pseg) {
                None => {},
                Some(intsec) => {
                    let a_curr_direction = curr_vertex.sub(&pseg.a);
                    let b_curr_direction = curr_vertex.sub(&pseg.b);

                    let angle_a = curr_next_direction.angle_l(a_curr_direction);
                    let angle_b = curr_next_direction.angle_l(b_curr_direction);

                    let (angle, index) = if angle_a < angle_b {
                        (angle_a, iseg.a())
                    } else {
                        (angle_b, iseg.b())
                    };

                    best =
                    match best {
                        None => Some((angle, index, intsec)),
                        Some((best_angle, best_index, best_intsec)) => if best_angle < angle {
                            Some((best_angle, best_index, best_intsec))
                        } else {
                            Some((angle, index, intsec))
                        },
                    };
                },
            }
        }
        assert(self.segments@.take(k as int) == self.segments@);

        best
    }

    /// The contour of the mesh as the simple tracer finds it.
    ///
    /// It starts at the rightmost vertex and turns at each vertex to the
    /// neighbour of smallest left angle; where a segment cuts into its way
    /// it goes over the crossing to an end of that segment. It ends where
    /// it reaches a vertex that equals the first point, which it does not
    /// repeat, and gives up with more than `SIMPLE_CONTOUR_CAP` points.
    pub fn contour(&self) -> (r: Option<Vec<Vect<V::Val>>>) where V::Val: Float + HPOrd
        requires
            self.wf(),
            total::<V::Val>(),
        ensures
            self.vertices.len() == 0 ==> r is None,
            r is None ==> self.vertices.len() == 0 || exists|index: usize, left: Option<usize>|
                index < self.vertices.len() && #[trigger] first_other(
                    adjacent_of(self.segments@, index),
                    left,
                ) is None,
            r is Some ==> 2 <= r->0.len() <= SIMPLE_CONTOUR_CAP + 2,
            exact::<V::Val>() ==> match r {
                Some(contour) => simple_contour_of(self.points(), self.segments@) == Some(
                    contour@,
                ),
                None => simple_contour_of(self.points(), self.segments@) is None,
            },
    {
        let start_index = self.rightmost()?;
        let next_index = match self.start_turn(start_index) {
            Some(index) => index,
            None => {
                assert(first_other(adjacent_of(self.segments@, start_index), None) is None);
                return None;
            },
        };

        let mut last_index = Some(start_index);
        let mut curr_index = next_index;

        let mut contour: Vec<Vect<V::Val>> = Vec::new();
        contour.push(V::of(self.vertex(start_index)));
        contour.push(V::of(self.vertex(curr_index)));
        assert(contour@ == seq![
            self.points()[start_index as int],
            self.points()[curr_index as int],
        ]);

        loop
            invariant
                self.wf(),
                total::<V::Val>(),
                curr_index < self.vertices.len(),
                2 <= contour.len() <= SIMPLE_CONTOUR_CAP,
                exact::<V::Val>() ==> simple_contour_of(self.points(), self.segments@)
                    == simple_trace(
                    self.points(),
                    self.segments@,
                    last_index,
                    curr_index,
                    contour@,
                ),
            decreases SIMPLE_CONTOUR_CAP + 2 - contour.len(),
        {
            let last_vertex = contour[contour.len() - 2];

            let next_index = match self.next_turn(&last_vertex, last_index, curr_index) {
                Some(index) => index,
                None => {
                    return None;
                },
            };

            match self.nearest_cut(curr_index, next_index) {
                None => {
                    last_index = Some(curr_index);
                    curr_index = next_index;
                },
                Some((_, index, intsec)) => {
                    contour.push(intsec);

                    last_index = None;
                    curr_index = index;
                },
            }

            let next_vertex = V::of(self.vertex(curr_index));

            if next_vertex.equal(&contour[0]) {
                return Some(contour);
            }
            contour.push(next_vertex);

            if contour.len() > SIMPLE_CONTOUR_CAP {
                return Some(contour);
            }
        }
    }
}

/// Where the search for the first other neighbour stopped after `k` of them,
/// with one found or with all looked at, its answer is that of the whole list.
proof fn lemma_first_other_prefix(adjacent: Seq<usize>, last_index: Option<usize>, k: int)
    requires
        0 <= k <= adjacent.len(),
        first_other(adjacent.take(k), last_index) is Some || k == adjacent.len(),
    ensures
        first_other(adjacent, last_index) == first_other(adjacent.take(k), last_index),
    decreases adjacent.len() - k,
{
    if k == adjacent.len() {
        assert(adjacent.take(k) == adjacent);
    } else {
        assert(adjacent.take(k + 1).drop_last() == adjacent.take(k));
        lemma_first_other_prefix(adjacent, last_index, k + 1);
    }
}

} // verus!
