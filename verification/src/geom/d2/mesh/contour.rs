use vstd::prelude::*;
use core::ops::Neg;
use crate::geom::d2::mesh::ind::{
    adjacent_of, in_range, leftmost_of, lemma_adjacent_in_range, lemma_leftmost_in_range,
    IndSegMesh,
};
use crate::geom::d2::prim::seg::{intsec_of, intsec_ratio, point_at, PSeg, Segment};
use crate::geom::d2::prim::vect::{angle_l_of, len_of, v_diff, v_same, v_sum, Coords, Vect, Vector};
use crate::geom::mesh::ind::IndSeg;
use crate::num::{exact, total, Float, One, Zero};
use crate::ops::negated;
use crate::rel::{at_most, below, eq_exact, ord_exact, same, within, HPOrd};

verus! {

/// A neighbour of the current vertex, as a candidate for the next turn.
pub struct ContourAdjacentResult<V: Vector> {
    /// index of the neighbour
    pub index: usize,
    /// vector from the current vertex to the neighbour
    pub vector: V,
    /// left angle from the way back to that vector
    pub angle: V::Val,
    /// length of the vector, where it was computed already
    pub length: Option<V::Val>,
}

/// A segment that crosses the tentative segment, as a candidate for the next
/// contour point.
pub struct ContourIntersectionResult<V: Vector> {
    /// where the two segments cross
    pub intersection: V,
    /// distance from the current vertex to the crossing
    pub distance: V::Val,
    pub left_vertex: V,
    pub left_index: usize,
    pub right_vertex: V,
    pub right_index: usize,
}

/// Where the current contour point comes from.
#[derive(Clone, Copy)]
pub enum ContourStepOrigin {
    /// It is the vertex `current_index` of the mesh.
    Mesh { current_index: usize },
    /// It is the crossing of the tentative segment towards `last_left_index`
    /// with the mesh segment between `left_index` and `right_index`.
    Intersection { last_left_index: usize, right_index: usize, left_index: usize },
}

/// The state of the tracer between two steps.
pub struct ContourStep<V: Vector> {
    /// index of the anchor that the tracer left last
    pub last_right_index: usize,
    /// the contour point before the current one
    pub last_vertex: V,
    /// the current contour point
    pub current_vertex: V,
    pub origin: ContourStepOrigin,
}

impl ContourStepOrigin {
    /// Every index that the origin names is below `n`.
    pub open spec fn in_range(&self, n: nat) -> bool {
        match *self {
            ContourStepOrigin::Mesh { current_index } => current_index < n,
            ContourStepOrigin::Intersection { last_left_index, right_index, left_index } => {
                last_left_index < n && right_index < n && left_index < n
            },
        }
    }

    /// The index of the anchor that a step leaves behind: the vertex itself,
    /// or the right end of the crossed segment.
    pub open spec fn departed(&self) -> usize {
        match *self {
            ContourStepOrigin::Mesh { current_index } => current_index,
            ContourStepOrigin::Intersection { right_index, .. } => right_index,
        }
    }

    /// The segment is left out of the crossing check: it touches the target,
    /// or the current anchor, or it is the segment just crossed.
    pub open spec fn skips(&self, last_right_index: usize, target: usize, seg: IndSeg) -> bool {
        seg.touches(target) || match *self {
            ContourStepOrigin::Mesh { current_index } => seg.touches(current_index),
            ContourStepOrigin::Intersection { last_left_index, right_index, .. } => {
                seg.touches(right_index) || seg.touches(last_right_index) && seg.touches(
                    last_left_index,
                )
            },
        }
    }
}

/// Every neighbour of the vertex `index` is the vertex `from`: a tracer that
/// stands there and has just left `from` finds no turn.
pub open spec fn dead_end(segs: Seq<IndSeg>, index: usize, from: usize) -> bool {
    forall|k: int|
        0 <= k < adjacent_of(segs, index).len() ==> #[trigger] adjacent_of(segs, index)[k] == from
}

/// The tracer finds no turn at `step`: it stands at a mesh vertex whose
/// neighbours all are the anchor just left.
pub open spec fn stuck<V: Vector>(segs: Seq<IndSeg>, step: ContourStep<V>) -> bool {
    match step.origin {
        ContourStepOrigin::Mesh { current_index } => dead_end(
            segs,
            current_index,
            step.last_right_index,
        ),
        ContourStepOrigin::Intersection { .. } => false,
    }
}

/// The length of a candidate's vector: the stored one, else the computed one.
pub open spec fn adjacent_length<A: Float>(r: ContourAdjacentResult<Vect<A>>) -> A {
    match r.length {
        Some(length) => length,
        None => len_of(r.vector),
    }
}

/// The first candidate wins with the smaller angle, and with an equal angle
/// and the shorter vector; else the second.
pub open spec fn first_adjacent_wins<A: Float + PartialOrd>(
    a: ContourAdjacentResult<Vect<A>>,
    b: ContourAdjacentResult<Vect<A>>,
) -> bool {
    below(a.angle, b.angle) || same(a.angle, b.angle) && below(
        adjacent_length(a),
        adjacent_length(b),
    )
}

/// The first crossing wins with the smaller distance; at equal distance with
/// the smaller left angle from `direction` to its segment taken from left to
/// right; at equal angle where its left end is not further from the crossing.
pub open spec fn first_crossing_wins<A: Float + PartialOrd>(
    a: ContourIntersectionResult<Vect<A>>,
    b: ContourIntersectionResult<Vect<A>>,
    direction: Vect<A>,
) -> bool {
    let angle_a = angle_l_of(direction, v_diff(a.right_vertex, a.left_vertex));
    let angle_b = angle_l_of(direction, v_diff(b.right_vertex, b.left_vertex));
    let distance_a = len_of(v_diff(a.intersection, a.left_vertex));
    let distance_b = len_of(v_diff(b.intersection, b.left_vertex));
    below(a.distance, b.distance) || same(a.distance, b.distance) && (below(angle_a, angle_b)
        || same(angle_a, angle_b) && at_most(distance_a, distance_b))
}

/// The neighbour `index` as a candidate for the turn at `step`.
pub open spec fn adjacent_candidate<A: Float + PartialOrd>(
    points: Seq<Vect<A>>,
    step: ContourStep<Vect<A>>,
    index: usize,
) -> ContourAdjacentResult<Vect<A>> {
    let back = v_diff(step.last_vertex, step.current_vertex);
    let vector = v_diff(points[index as int], step.current_vertex);
    ContourAdjacentResult { index: index, vector: vector, angle: angle_l_of(back, vector), length: None }
}

/// The best turn among the neighbours `adjacent`, none where all of them are
/// the anchor just left.
pub open spec fn best_adjacent<A: Float + PartialOrd>(
    points: Seq<Vect<A>>,
    step: ContourStep<Vect<A>>,
    adjacent: Seq<usize>,
) -> Option<ContourAdjacentResult<Vect<A>>>
    decreases adjacent.len(),
{
    if adjacent.len() == 0 {
        None
    } else {
        let best = best_adjacent(points, step, adjacent.drop_last());
        let index = adjacent.last();
        if step.last_right_index == index {
            best
        } else {
            let result = adjacent_candidate(points, step, index);
            match best {
                None => Some(result),
                Some(best) => if first_adjacent_wins(result, best) {
                    Some(result)
                } else {
                    Some(best)
                },
            }
        }
    }
}

/// The vertex that the tracer heads for from `step`: at a mesh vertex the
/// best turn, at a crossing the left end of the crossed segment.
pub open spec fn target_of<A: Float + PartialOrd>(
    points: Seq<Vect<A>>,
    segs: Seq<IndSeg>,
    step: ContourStep<Vect<A>>,
) -> Option<usize> {
    match step.origin {
        ContourStepOrigin::Mesh { current_index } => match best_adjacent(
            points,
            step,
            adjacent_of(segs, current_index),
        ) {
            Some(result) => Some(result.index),
            None => None,
        },
        ContourStepOrigin::Intersection { left_index, .. } => Some(left_index),
    }
}

/// The crossing of the tentative segment towards `target` with `seg`, where
/// the segment is looked at, crosses, and bends the path outward.
pub open spec fn crossing_candidate<A: Float + PartialOrd>(
    points: Seq<Vect<A>>,
    step: ContourStep<Vect<A>>,
    target: usize,
    seg: IndSeg,
) -> Option<ContourIntersectionResult<Vect<A>>> {
    let current = step.current_vertex;
    let adjacent = points[target as int];
    let a = points[seg.a as int];
    let b = points[seg.b as int];
    if step.origin.skips(step.last_right_index, target, seg) {
        None
    } else {
        match intsec_of(current, v_diff(adjacent, current), a, v_diff(b, a)) {
            None => None,
            Some(intersection) => {
                let back = v_diff(step.last_vertex, current);
                let adjacent_current = v_diff(current, adjacent);
                let a_is_left = at_most(
                    angle_l_of(adjacent_current, v_diff(a, adjacent)),
                    angle_l_of(adjacent_current, v_diff(b, adjacent)),
                );
                let left = if a_is_left {
                    a
                } else {
                    b
                };
                let adjacent_angle = angle_l_of(back, v_diff(adjacent, intersection));
                let left_angle = angle_l_of(back, v_diff(left, intersection));
                if at_most(adjacent_angle, left_angle) {
                    None
                } else {
                    Some(
                        ContourIntersectionResult {
                            intersection: intersection,
                            distance: len_of(v_diff(intersection, current)),
                            left_vertex: left,
                            left_index: if a_is_left {
                                seg.a
                            } else {
                                seg.b
                            },
                            right_vertex: if a_is_left {
                                b
                            } else {
                                a
                            },
                            right_index: if a_is_left {
                                seg.b
                            } else {
                                seg.a
                            },
                        },
                    )
                }
            },
        }
    }
}

/// The crossing that the tracer selects among the segments `segs`, none
/// where none of them gives a candidate.
pub open spec fn best_crossing<A: Float + PartialOrd>(
    points: Seq<Vect<A>>,
    step: ContourStep<Vect<A>>,
    target: usize,
    segs: Seq<IndSeg>,
) -> Option<ContourIntersectionResult<Vect<A>>>
    decreases segs.len(),
{
    if segs.len() == 0 {
        None
    } else {
        let best = best_crossing(points, step, target, segs.drop_last());
        match crossing_candidate(points, step, target, segs.last()) {
            None => best,
            Some(result) => match best {
                None => Some(result),
                Some(best) => if first_crossing_wins(
                    result,
                    best,
                    v_diff(points[target as int], step.current_vertex),
                ) {
                    Some(result)
                } else {
                    Some(best)
                },
            },
        }
    }
}

/// The state after the step towards `target`: at the selected crossing, or
/// at the target where no crossing was selected.
pub open spec fn advance_of<A>(
    points: Seq<Vect<A>>,
    step: ContourStep<Vect<A>>,
    target: usize,
    crossing: Option<ContourIntersectionResult<Vect<A>>>,
) -> ContourStep<Vect<A>> where A: Copy {
    match crossing {
        Some(result) => ContourStep {
            last_right_index: step.origin.departed(),
            last_vertex: step.current_vertex,
            current_vertex: result.intersection,
            origin: ContourStepOrigin::Intersection {
                last_left_index: target,
                right_index: result.right_index,
                left_index: result.left_index,
            },
        },
        None => ContourStep {
            last_right_index: step.origin.departed(),
            last_vertex: step.current_vertex,
            current_vertex: points[target as int],
            origin: ContourStepOrigin::Mesh { current_index: target },
        },
    }
}

/// One step of the tracer; none where the current vertex offers no turn.
pub open spec fn step_of<A: Float + PartialOrd>(
    points: Seq<Vect<A>>,
    segs: Seq<IndSeg>,
    step: ContourStep<Vect<A>>,
) -> Option<ContourStep<Vect<A>>> {
    match target_of(points, segs, step) {
        None => None,
        Some(target) => Some(
            advance_of(points, step, target, best_crossing(points, step, target, segs)),
        ),
    }
}

/// The state before the first step: at the vertex `first`, as if the tracer
/// had come from up and to the left of it.
pub open spec fn first_step_of<A: Float>(points: Seq<Vect<A>>, first: usize) -> ContourStep<
    Vect<A>,
> {
    ContourStep {
        last_right_index: first,
        last_vertex: v_sum(points[first as int], (negated(A::one_spec()), A::one_spec())),
        current_vertex: points[first as int],
        origin: ContourStepOrigin::Mesh { current_index: first },
    }
}

/// The contour that grows from `contour` by stepping on from `step`.
///
/// Each round takes one step, stops with what it has where `max` points are
/// reached, appends the new point, and ends where that point equals the first.
pub open spec fn trace_of<A: Float + PartialOrd>(
    points: Seq<Vect<A>>,
    segs: Seq<IndSeg>,
    step: ContourStep<Vect<A>>,
    contour: Seq<Vect<A>>,
    max: nat,
) -> Option<Seq<Vect<A>>>
    decreases max - contour.len(),
{
    match step_of(points, segs, step) {
        None => None,
        Some(next) => if contour.len() >= max {
            Some(contour)
        } else {
            let grown = contour.push(next.current_vertex);
            if v_same(contour[0], next.current_vertex) {
                Some(grown)
            } else {
                trace_of(points, segs, next, grown, max)
            }
        },
    }
}

/// The outer contour of the mesh with the vertices `points` and the segments
/// `segs`, of at most `max` points: none for a mesh without vertices, and
/// none where the tracer reaches a vertex that offers no turn.
pub open spec fn contour_of<A: Float + PartialOrd>(
    points: Seq<Vect<A>>,
    segs: Seq<IndSeg>,
    max: nat,
) -> Option<Seq<Vect<A>>> {
    if points.len() == 0 {
        None
    } else {
        let first = leftmost_of(points, points.len()) as usize;
        trace_of(points, segs, first_step_of(points, first), seq![points[first as int]], max)
    }
}

/// What holds of every contour that grows from `contour`: it starts as
/// `contour` starts, it is no longer than `max` unless `contour` was, and
/// where it is shorter than `max` its last point equals its first.
pub proof fn lemma_trace_laws<A: Float + PartialOrd>(
    points: Seq<Vect<A>>,
    segs: Seq<IndSeg>,
    step: ContourStep<Vect<A>>,
    contour: Seq<Vect<A>>,
    max: nat,
)
    requires
        contour.len() >= 1,
    ensures
        trace_of(points, segs, step, contour, max) matches Some(traced) ==> {
            &&& traced.len() >= contour.len()
            &&& traced[0] == contour[0]
            &&& traced.len() <= max || traced == contour
            &&& traced.len() < max ==> traced.len() >= 2 && v_same(
                traced[0],
                traced[traced.len() - 1],
            )
        },
    decreases max - contour.len(),
{
    match step_of(points, segs, step) {
        None => {},
        Some(next) => {
            if contour.len() < max {
                let grown = contour.push(next.current_vertex);
                if !v_same(contour[0], next.current_vertex) {
                    lemma_trace_laws(points, segs, next, grown, max);
                }
            }
        },
    }
}

/// The laws of the contour: it starts at the leftmost vertex of the mesh; it
/// has at most `max` points, or the start point alone; and where it has
/// fewer than `max` points it is closed, its last point equal to its first.
pub proof fn lemma_contour_laws<A: Float + PartialOrd>(
    points: Seq<Vect<A>>,
    segs: Seq<IndSeg>,
    max: nat,
)
    requires
        points.len() <= usize::MAX,
    ensures
        points.len() == 0 ==> contour_of(points, segs, max) is None,
        contour_of(points, segs, max) matches Some(contour) ==> {
            &&& contour.len() >= 1
            &&& contour[0] == points[leftmost_of(points, points.len()) as int]
            &&& contour.len() <= max || contour.len() == 1
            &&& contour.len() < max ==> contour.len() >= 2 && v_same(
                contour[0],
                contour[contour.len() - 1],
            )
        },
{
    if points.len() > 0 {
        let first = leftmost_of(points, points.len()) as usize;
        lemma_leftmost_in_range(points, points.len());
        lemma_trace_laws(
            points,
            segs,
            first_step_of(points, first),
            seq![points[first as int]],
            max,
        );
    }
}

/// A crossing lies on both segments: it is the point of the tentative segment
/// at a ratio within `[0, 1]`, and the ratio at which the crossed segment
/// reaches that crossing lies within `[0, 1]` too. The crossed segment does
/// not touch the target.
pub proof fn lemma_crossing_on_both_segments<A: Float + PartialOrd>(
    points: Seq<Vect<A>>,
    step: ContourStep<Vect<A>>,
    target: usize,
    seg: IndSeg,
)
    ensures
        crossing_candidate(points, step, target, seg) matches Some(crossing) ==> {
            let current = step.current_vertex;
            let direction = v_diff(points[target as int], current);
            let a = points[seg.a as int];
            let ab = v_diff(points[seg.b as int], a);
            &&& within(intsec_ratio(current, direction, a, ab), A::zero_spec(), A::one_spec())
            &&& within(intsec_ratio(a, ab, current, direction), A::zero_spec(), A::one_spec())
            &&& crossing.intersection == point_at(
                current,
                direction,
                intsec_ratio(current, direction, a, ab),
            )
            &&& !seg.touches(target)
            &&& crossing.left_index == seg.a && crossing.right_index == seg.b
                || crossing.left_index == seg.b && crossing.right_index == seg.a
        },
{
}

/// The tracer finds a turn unless it is stuck.
pub proof fn lemma_stuck_means_no_turn<A: Float + PartialOrd>(
    points: Seq<Vect<A>>,
    segs: Seq<IndSeg>,
    step: ContourStep<Vect<A>>,
)
    ensures
        target_of(points, segs, step) is None <==> stuck(segs, step),
        step_of(points, segs, step) is None <==> stuck(segs, step),
{
    match step.origin {
        ContourStepOrigin::Mesh { current_index } => {
            lemma_no_turn(points, step, adjacent_of(segs, current_index));
        },
        ContourStepOrigin::Intersection { .. } => {},
    }
}

/// No turn is selected exactly where every neighbour is the anchor just left.
proof fn lemma_no_turn<A: Float + PartialOrd>(
    points: Seq<Vect<A>>,
    step: ContourStep<Vect<A>>,
    adjacent: Seq<usize>,
)
    ensures
        best_adjacent(points, step, adjacent) is None <==> forall|k: int|
            0 <= k < adjacent.len() ==> #[trigger] adjacent[k] == step.last_right_index,
    decreases adjacent.len(),
{
    if adjacent.len() > 0 {
        let front = adjacent.drop_last();
        lemma_no_turn(points, step, front);
        assert(adjacent.last() == adjacent[adjacent.len() - 1]);
        assert forall|k: int| 0 <= k < front.len() implies #[trigger] front[k] == adjacent[k] by {}
        if forall|k: int| 0 <= k < adjacent.len() ==> #[trigger] adjacent[k] == step.last_right_index {
            assert forall|k: int| 0 <= k < front.len() implies #[trigger] front[k]
                == step.last_right_index by {
                assert(front[k] == adjacent[k]);
            }
        }
        if best_adjacent(points, step, adjacent) is None {
            assert forall|k: int| 0 <= k < adjacent.len() implies #[trigger] adjacent[k]
                == step.last_right_index by {
                if k < front.len() {
                    assert(front[k] == adjacent[k]);
                }
            }
        }
    }
}

/// `p` is the position of a vertex.
pub open spec fn is_vertex<A>(points: Seq<Vect<A>>, p: Vect<A>) -> bool {
    exists|i: int| 0 <= i < points.len() && #[trigger] points[i] == p
}

/// `p` is a crossing: the point where the tentative segment of some step
/// towards a vertex crosses a segment of the mesh.
pub open spec fn is_crossing<A: Float + PartialOrd>(
    points: Seq<Vect<A>>,
    segs: Seq<IndSeg>,
    p: Vect<A>,
) -> bool {
    exists|step: ContourStep<Vect<A>>, target: usize, k: int|
        0 <= k < segs.len() && target < points.len() && (#[trigger] crossing_candidate(
            points,
            step,
            target,
            segs[k],
        )) is Some && crossing_candidate(points, step, target, segs[k])->0.intersection == p
}

/// The selected crossing is the candidate of one of the segments.
pub proof fn lemma_crossing_is_candidate<A: Float + PartialOrd>(
    points: Seq<Vect<A>>,
    step: ContourStep<Vect<A>>,
    target: usize,
    segs: Seq<IndSeg>,
)
    ensures
        best_crossing(points, step, target, segs) is Some ==> exists|k: int|
            0 <= k < segs.len() && crossing_candidate(points, step, target, #[trigger] segs[k])
                == best_crossing(points, step, target, segs),
    decreases segs.len(),
{
    if segs.len() > 0 {
        let front = segs.drop_last();
        let last = segs[segs.len() - 1];
        assert(segs.last() == last);
        lemma_crossing_is_candidate(points, step, target, front);
        let before = best_crossing(points, step, target, front);
        let here = crossing_candidate(points, step, target, last);
        let best = best_crossing(points, step, target, segs);
        if best is Some {
            if best == here {
                assert(crossing_candidate(points, step, target, segs[segs.len() - 1]) == best);
            } else {
                let w = choose|w: int|
                    0 <= w < front.len() && crossing_candidate(
                        points,
                        step,
                        target,
                        #[trigger] front[w],
                    ) == before;
                assert(front[w] == segs[w]);
                assert(crossing_candidate(points, step, target, segs[w]) == best);
            }
        }
    }
}

/// The selected turn leads to one of the neighbours.
proof fn lemma_turn_is_neighbour<A: Float + PartialOrd>(
    points: Seq<Vect<A>>,
    step: ContourStep<Vect<A>>,
    adjacent: Seq<usize>,
)
    ensures
        best_adjacent(points, step, adjacent) matches Some(turn) ==> exists|w: int|
            0 <= w < adjacent.len() && #[trigger] adjacent[w] == turn.index,
    decreases adjacent.len(),
{
    if adjacent.len() > 0 {
        let front = adjacent.drop_last();
        lemma_turn_is_neighbour(points, step, front);
        assert(adjacent.last() == adjacent[adjacent.len() - 1]);
        match best_adjacent(points, step, adjacent) {
            Some(turn) => {
                if turn.index != adjacent[adjacent.len() - 1] {
                    let w = choose|w: int| 0 <= w < front.len() && #[trigger] front[w] == turn.index;
                    assert(adjacent[w] == front[w]);
                }
            },
            None => {},
        }
    }
}

/// A step leads to a vertex or to a crossing, and to a state whose indices
/// are those of vertices.
pub proof fn lemma_step_reaches_vertex_or_crossing<A: Float + PartialOrd>(
    points: Seq<Vect<A>>,
    segs: Seq<IndSeg>,
    step: ContourStep<Vect<A>>,
)
    requires
        in_range(segs, points.len()),
        step.origin.in_range(points.len()),
    ensures
        step_of(points, segs, step) matches Some(next) ==> {
            &&& next.origin.in_range(points.len())
            &&& is_vertex(points, next.current_vertex) || is_crossing(
                points,
                segs,
                next.current_vertex,
            )
        },
{
    match step.origin {
        ContourStepOrigin::Mesh { current_index } => {
            lemma_turn_is_neighbour(points, step, adjacent_of(segs, current_index));
            lemma_adjacent_in_range(segs, current_index, points.len());
        },
        ContourStepOrigin::Intersection { .. } => {},
    }
    match target_of(points, segs, step) {
        None => {},
        Some(target) => {
            assert(target < points.len());
            let crossing = best_crossing(points, step, target, segs);
            let next = advance_of(points, step, target, crossing);
            lemma_crossing_is_candidate(points, step, target, segs);
            match crossing {
                Some(selected) => {
                    let k = choose|k: int|
                        0 <= k < segs.len() && crossing_candidate(
                            points,
                            step,
                            target,
                            #[trigger] segs[k],
                        ) == crossing;
                    lemma_crossing_on_both_segments(points, step, target, segs[k]);
                    assert(segs[k].a < points.len() && segs[k].b < points.len());
                    assert(crossing_candidate(points, step, target, segs[k]) == Some(selected));
                    assert(is_crossing(points, segs, next.current_vertex));
                },
                None => {
                    assert(points[target as int] == next.current_vertex);
                },
            }
        },
    }
}

/// Every point that the tracer appends is a vertex or a crossing.
pub proof fn lemma_trace_points<A: Float + PartialOrd>(
    points: Seq<Vect<A>>,
    segs: Seq<IndSeg>,
    step: ContourStep<Vect<A>>,
    contour: Seq<Vect<A>>,
    max: nat,
)
    requires
        in_range(segs, points.len()),
        step.origin.in_range(points.len()),
        forall|i: int|
            0 <= i < contour.len() ==> is_vertex(points, #[trigger] contour[i]) || is_crossing(
                points,
                segs,
                contour[i],
            ),
    ensures
        trace_of(points, segs, step, contour, max) matches Some(traced) ==> forall|i: int|
            0 <= i < traced.len() ==> is_vertex(points, #[trigger] traced[i]) || is_crossing(
                points,
                segs,
                traced[i],
            ),
    decreases max - contour.len(),
{
    lemma_step_reaches_vertex_or_crossing(points, segs, step);
    match step_of(points, segs, step) {
        None => {},
        Some(next) => {
            if contour.len() < max {
                let grown = contour.push(next.current_vertex);
                assert forall|i: int| 0 <= i < grown.len() implies is_vertex(
                    points,
                    #[trigger] grown[i],
                ) || is_crossing(points, segs, grown[i]) by {
                    if i < contour.len() {
                        assert(grown[i] == contour[i]);
                    }
                }
                if !v_same(contour[0], next.current_vertex) {
                    lemma_trace_points(points, segs, next, grown, max);
                }
            }
        },
    }
}

/// Every point of the contour is the position of a vertex of the mesh or a
/// crossing of a tentative segment with a segment of the mesh; by
/// `lemma_crossing_on_both_segments` a crossing lies within both.
pub proof fn lemma_contour_points<A: Float + PartialOrd>(
    points: Seq<Vect<A>>,
    segs: Seq<IndSeg>,
    max: nat,
)
    requires
        points.len() <= usize::MAX,
        in_range(segs, points.len()),
    ensures
        contour_of(points, segs, max) matches Some(contour) ==> forall|i: int|
            0 <= i < contour.len() ==> is_vertex(points, #[trigger] contour[i]) || is_crossing(
                points,
                segs,
                contour[i],
            ),
{
    if points.len() > 0 {
        let first = leftmost_of(points, points.len()) as usize;
        lemma_leftmost_in_range(points, points.len());
        let start = seq![points[first as int]];
        assert(is_vertex(points, start[0]));
        lemma_trace_points(points, segs, first_step_of(points, first), start, max);
    }
}

/// The selected turn is the one of smallest angle.
///
/// Where no turn is selected, every neighbour is the anchor just left. Where
/// one is selected, it is the candidate of a neighbour that is not that
/// anchor, and no such neighbour gives a candidate of a smaller angle. The
/// second part holds where `<` on the scalar type is a strict order that
/// agrees with `==`.
pub proof fn lemma_turn_has_least_angle<A: Float + PartialOrd>(
    points: Seq<Vect<A>>,
    step: ContourStep<Vect<A>>,
    adjacent: Seq<usize>,
)
    requires
        forall|a: A| !#[trigger] below(a, a),
        forall|a: A, b: A, c: A| #[trigger] below(a, b) && #[trigger] below(b, c) ==> below(a, c),
        forall|a: A, b: A, c: A| #[trigger] below(a, b) && #[trigger] same(b, c) ==> below(a, c),
    ensures
        best_adjacent(points, step, adjacent) is None ==> forall|k: int|
            0 <= k < adjacent.len() ==> #[trigger] adjacent[k] == step.last_right_index,
        best_adjacent(points, step, adjacent) is Some ==> exists|k: int|
            0 <= k < adjacent.len() && #[trigger] adjacent[k] != step.last_right_index
                && best_adjacent(points, step, adjacent) == Some(
                adjacent_candidate(points, step, adjacent[k]),
            ),
        best_adjacent(points, step, adjacent) is Some ==> forall|k: int|
            0 <= k < adjacent.len() && #[trigger] adjacent[k] != step.last_right_index ==> !below(
                adjacent_candidate(points, step, adjacent[k]).angle,
                best_adjacent(points, step, adjacent)->0.angle,
            ),
    decreases adjacent.len(),
{
    if adjacent.len() > 0 {
        let front = adjacent.drop_last();
        let last = adjacent[adjacent.len() - 1];
        assert(adjacent.last() == last);
        lemma_turn_has_least_angle(points, step, front);
        let before = best_adjacent(points, step, front);
        let best = best_adjacent(points, step, adjacent);
        assert forall|k: int| 0 <= k < front.len() implies #[trigger] front[k] == adjacent[k] by {}
        if best is None {
            assert forall|k: int| 0 <= k < adjacent.len() implies #[trigger] adjacent[k]
                == step.last_right_index by {
                if k < front.len() {
                    assert(front[k] == adjacent[k]);
                }
            }
        } else {
            if last != step.last_right_index && best == Some(
                adjacent_candidate(points, step, last),
            ) {
                assert(adjacent[adjacent.len() - 1] != step.last_right_index);
            } else {
                let w = choose|w: int|
                    0 <= w < front.len() && #[trigger] front[w] != step.last_right_index && before
                        == Some(adjacent_candidate(points, step, front[w]));
                assert(front[w] == adjacent[w]);
                assert(adjacent[w] != step.last_right_index);
            }
            assert forall|k: int|
                0 <= k < adjacent.len() && #[trigger] adjacent[k]
                    != step.last_right_index implies !below(
                adjacent_candidate(points, step, adjacent[k]).angle,
                best->0.angle,
            ) by {
                if k < front.len() {
                    assert(front[k] == adjacent[k]);
                }
            }
        }
    }
}

/// The selected crossing is the nearest one.
///
/// Where no crossing is selected, no segment gives a candidate: the step
/// crosses nothing that counts. Where one is selected, it is the candidate of
/// one of the segments, and no segment gives a candidate at a smaller
/// distance from the current point. The second part holds where `<` on the
/// scalar type is a strict order that agrees with `==`.
pub proof fn lemma_crossing_is_nearest<A: Float + PartialOrd>(
    points: Seq<Vect<A>>,
    step: ContourStep<Vect<A>>,
    target: usize,
    segs: Seq<IndSeg>,
)
    requires
        forall|a: A| !#[trigger] below(a, a),
        forall|a: A, b: A, c: A| #[trigger] below(a, b) && #[trigger] below(b, c) ==> below(a, c),
        forall|a: A, b: A, c: A| #[trigger] below(a, b) && #[trigger] same(b, c) ==> below(a, c),
    ensures
        best_crossing(points, step, target, segs) is None ==> forall|k: int|
            0 <= k < segs.len() ==> crossing_candidate(points, step, target, #[trigger] segs[k])
                is None,
        best_crossing(points, step, target, segs) is Some ==> exists|k: int|
            0 <= k < segs.len() && crossing_candidate(points, step, target, #[trigger] segs[k])
                == best_crossing(points, step, target, segs),
        best_crossing(points, step, target, segs) is Some ==> forall|k: int|
            0 <= k < segs.len() && crossing_candidate(points, step, target, #[trigger] segs[k])
                is Some ==> !below(
                crossing_candidate(points, step, target, segs[k])->0.distance,
                best_crossing(points, step, target, segs)->0.distance,
            ),
    decreases segs.len(),
{
    if segs.len() > 0 {
        let front = segs.drop_last();
        let last = segs[segs.len() - 1];
        assert(segs.last() == last);
        lemma_crossing_is_nearest(points, step, target, front);
        let before = best_crossing(points, step, target, front);
        let here = crossing_candidate(points, step, target, last);
        let best = best_crossing(points, step, target, segs);
        assert forall|k: int| 0 <= k < front.len() implies #[trigger] front[k] == segs[k] by {}
        if best is None {
            assert forall|k: int| 0 <= k < segs.len() implies crossing_candidate(
                points,
                step,
                target,
                #[trigger] segs[k],
            ) is None by {
                if k < front.len() {
                    assert(front[k] == segs[k]);
                }
            }
        } else {
            if best == here {
                assert(crossing_candidate(points, step, target, segs[segs.len() - 1]) == best);
            } else {
                let w = choose|w: int|
                    0 <= w < front.len() && crossing_candidate(
                        points,
                        step,
                        target,
                        #[trigger] front[w],
                    ) == before;
                assert(front[w] == segs[w]);
                assert(crossing_candidate(points, step, target, segs[w]) == best);
            }
            assert forall|k: int|
                0 <= k < segs.len() && crossing_candidate(
                    points,
                    step,
                    target,
                    #[trigger] segs[k],
                ) is Some implies !below(
                crossing_candidate(points, step, target, segs[k])->0.distance,
                best->0.distance,
            ) by {
                if k < front.len() {
                    assert(front[k] == segs[k]);
                }
            }
        }
    }
}

impl<V: Vector> ContourAdjacentResult<V> {
    /// Returns the result with the smaller angle. If both angles are equal returns result with smaller vector length
    pub fn pick(result_a: ContourAdjacentResult<V>, result_b: ContourAdjacentResult<V>) -> (r:
        ContourAdjacentResult<V>) where V::Val: Float + HPOrd
        requires
            total::<V::Val>(),
        ensures
            r == result_a || r == result_b,
            exact::<V::Val>() ==> r == if first_adjacent_wins(result_a.owned(), result_b.owned()) {
                result_a
            } else {
                result_b
            },
    {
        if result_a.angle < result_b.angle {
            result_a
        } else if result_a.angle == result_b.angle {
            let length_a = match result_a.length {
                None => result_a.vector.len(),
                Some(length) => length,
            };

            let length_b = match result_b.length {
                None => result_b.vector.len(),
                Some(length) => length,
            };

            if length_a < length_b {
                result_a
            } else {
                result_b
            }
        } else {
            result_b
        }
    }

    /// the same result over an owned vector
    pub open spec fn owned(&self) -> ContourAdjacentResult<Vect<V::Val>> {
        ContourAdjacentResult {
            index: self.index,
            vector: self.vector.xy(),
            angle: self.angle,
            length: self.length,
        }
    }
}

impl<V: Vector> ContourIntersectionResult<V> {
    /// Returns the result of smaller distance; at equal distance the one whose
    /// segment turns less to the left of `direction`; at equal angle the one
    /// whose left end is nearer to its crossing, the first where both are as near.
    pub fn pick(
        result_a: ContourIntersectionResult<V>,
        result_b: ContourIntersectionResult<V>,
        direction: V,
    ) -> (r: ContourIntersectionResult<V>) where V::Val: Float + HPOrd
        requires
            total::<V::Val>(),
        ensures
            r == result_a || r == result_b,
            exact::<V::Val>() ==> r == if first_crossing_wins(
                result_a.owned(),
                result_b.owned(),
                direction.xy(),
            ) {
                result_a
            } else {
                result_b
            },
    {
        if result_a.distance < result_b.distance {
            result_a
        } else if result_a.distance == result_b.distance {
            let vector_a = result_a.right_vertex.sub(&result_a.left_vertex);
            let vector_b = result_b.right_vertex.sub(&result_b.left_vertex);

            let angle_a = direction.angle_l(vector_a);
            let angle_b = direction.angle_l(vector_b);

            if angle_a < angle_b {
                result_a
            } else if angle_a == angle_b {
                let distance_a = result_a.intersection.sub(&result_a.left_vertex).len();
                let distance_b = result_b.intersection.sub(&result_b.left_vertex).len();

                if distance_a <= distance_b {
                    result_a
                } else {
                    result_b
                }
            } else {
                result_b
            }
        } else {
            result_b
        }
    }

    /// the same result over owned vectors
    pub open spec fn owned(&self) -> ContourIntersectionResult<Vect<V::Val>> {
        ContourIntersectionResult {
            intersection: self.intersection.xy(),
            distance: self.distance,
            left_vertex: self.left_vertex.xy(),
            left_index: self.left_index,
            right_vertex: self.right_vertex.xy(),
            right_index: self.right_index,
        }
    }
}

impl<V: Vector> IndSegMesh<V> {
    /// The state before the first step, at the vertex `first_index`.
    ///
    /// The way that led there is made up: it comes from up and to the left,
    /// where no vertex of the mesh can lie if the vertex is the leftmost.
    pub fn first_step(&self, first_index: usize) -> (step: ContourStep<Vect<V::Val>>) where
        V::Val: Float + HPOrd,

        requires
            first_index < self.vertices.len(),
            total::<V::Val>(),
        ensures
            step.origin == (ContourStepOrigin::Mesh { current_index: first_index }),
            step.current_vertex == self.points()[first_index as int],
            exact::<V::Val>() ==> step == first_step_of(self.points(), first_index),
    {
        let first_vertex = self.vertex(first_index);

        ContourStep {
            last_right_index: first_index,
            last_vertex: first_vertex.add((V::Val::one().neg(), V::Val::one())),
            current_vertex: V::of(first_vertex),
            origin: ContourStepOrigin::Mesh { current_index: first_index },
        }
    }

    /// The vertex to head for from `step`: at a mesh vertex the neighbour of
    /// smallest left angle to the way back, the nearer one of two with equal
    /// angles, the anchor just left not counted; at a crossing the left end of
    /// the crossed segment. None where a mesh vertex has no such neighbour.
    pub fn adjacent_target(&self, step: &ContourStep<Vect<V::Val>>) -> (r: Option<usize>) where
        V::Val: Float + HPOrd,

        requires
            self.wf(),
            step.origin.in_range(self.vertices@.len()),
            total::<V::Val>(),
        ensures
            r is Some ==> r->0 < self.vertices.len(),
            r is None <==> stuck(self.segments@, *step),
            exact::<V::Val>() ==> r == target_of(self.points(), self.segments@, *step),
    {
        match step.origin {
            ContourStepOrigin::Mesh { current_index } => {
                // vector from current vertex to last vertex
                let current_last_vector = step.last_vertex.sub(&step.current_vertex);
                let adjacent = self.adjacent_vertex_indecis(current_index);

                // result from adjacent vertex loop
                let mut adjacent_result_option: Option<ContourAdjacentResult<Vect<V::Val>>> = None;

                let mut k: usize = 0;
                while k < adjacent.len()
                    invariant
                        k <= adjacent.len(),
                        total::<V::Val>(),
                        forall|w: int|
                            0 <= w < adjacent.len() ==> #[trigger] adjacent[w]
                                < self.vertices.len(),
                        adjacent_result_option is Some ==> adjacent_result_option->0.index
                            < self.vertices.len(),
                        adjacent_result_option is None <==> forall|w: int|
                            0 <= w < k ==> #[trigger] adjacent[w] == step.last_right_index,
                        exact::<V::Val>() ==> current_last_vector == v_diff(
                            step.last_vertex,
                            step.current_vertex,
                        ),
                        exact::<V::Val>() ==> adjacent_result_option == best_adjacent(
                            self.points(),
                            *step,
                            adjacent@.take(k as int),
                        ),
                    decreases adjacent.len() - k,
                {
                    let adjacent_vertex_index = adjacent[k];
                    assert(adjacent@.take(k + 1).drop_last() == adjacent@.take(k as int));
                    k += 1;

                    // ignore last found adjacent vertex
                    if step.last_right_index == adjacent_vertex_index {
                        continue ;
                    }
                    // vertex adjacent to current vertex

                    let adjacent_vertex = self.vertex(adjacent_vertex_index);

                    // vector from current vertex to adjacent vertex
                    let current_adjacent_vector = adjacent_vertex.sub(&step.current_vertex);

                    // left angle between vector from current vertex to last vertex and current vertex to adjacent vertex
                    let left_adjacent_angle = current_last_vector.angle_l(&current_adjacent_vector);

                    let result = ContourAdjacentResult {
                        index: adjacent_vertex_index,
                        vector: current_adjacent_vector,
                        angle: left_adjacent_angle,
                        length: None,
                    };
                    assert(result.owned() == result);

                    // update result option with result with smaller angle / smaller vector length if angles are equal
                    adjacent_result_option =
                    match adjacent_result_option {
                        None => Some(result),
                        Some(best_result) => {
                            assert(best_result.owned() == best_result);
                            Some(ContourAdjacentResult::pick(result, best_result))
                        },
                    }
                }
                assert(adjacent@.take(k as int) == adjacent@);

                match adjacent_result_option {
                    Some(result) => Some(result.index),
                    None => None,
                }
            },
            ContourStepOrigin::Intersection { left_index, .. } => Some(left_index),
        }
    }

    /// The crossing of the tentative segment from `step` towards `target`
    /// with the one segment `seg`. None where the segment touches the target
    /// or the anchor or was crossed just before, where it does not cross, and
    /// where turning at the crossing would not lead outward.
    pub fn crossing_with(
        &self,
        step: &ContourStep<Vect<V::Val>>,
        target: usize,
        seg: &IndSeg,
    ) -> (r: Option<ContourIntersectionResult<Vect<V::Val>>>) where V::Val: Float + HPOrd
        requires
            target < self.vertices.len(),
            seg.a < self.vertices.len(),
            seg.b < self.vertices.len(),
            total::<V::Val>(),
        ensures
            r is Some ==> r->0.left_index == seg.a && r->0.right_index == seg.b || r->0.left_index
                == seg.b && r->0.right_index == seg.a,
            exact::<V::Val>() ==> r == crossing_candidate(self.points(), *step, target, *seg),
    {
        // skip segment if one of it's indecis is the target
        if seg.contains_index(target) {
            return None;
        }
        let skip = match step.origin {
            // skip segment if origin is mesh and one of it's indecis is current_index
            ContourStepOrigin::Mesh { current_index } => seg.contains_index(current_index),
            // skip segment if origin is intersection and it's equivalent to last segment that intersected step.current_vertex or if one of it's indecis is right_index
            ContourStepOrigin::Intersection { last_left_index, right_index, .. } => {
                seg.contains_index(right_index) || seg.contains_index(step.last_right_index)
                    && seg.contains_index(last_left_index)
            },
        };

        if skip {
            return None;
        }
        let current_vertex = &step.current_vertex;
        let adjacent_vertex = self.vertex(target);

        // vector from current vertex to last vertex
        let current_last_vector = step.last_vertex.sub(current_vertex);

        // vector from adjacent_vertex to current_vertex
        let adjacent_current_vector = current_vertex.sub(adjacent_vertex);

        // line segment from current vertex to adjacent result vertex
        let current_adjacent_segment = PSeg::new(V::of(current_vertex), V::of(adjacent_vertex));

        // point segment defined by indexed segment
        let point_segment = self.point_segment(seg);

        // check if segment between current vertex and adjacent result vertex intersects the segment
        match current_adjacent_segment.intsec(&point_segment) {
            None => None,
            Some(intersection) => {
                // distance from current vertex to intersection vertex
                let current_intersection_length = intersection.sub(current_vertex).len();

                // vectors from adjacent vertex to the ends of the point segment
                let adjacent_a_vector = point_segment.a.sub(adjacent_vertex);
                let adjacent_b_vector = point_segment.b.sub(adjacent_vertex);

                // left angles between vector from adjacent vertex to current vertex and adjacent vertex to the ends
                let left_a_angle = adjacent_current_vector.angle_l(&adjacent_a_vector);
                let left_b_angle = adjacent_current_vector.angle_l(&adjacent_b_vector);

                // sort vertices by left / right of current_adjacent_segment
                let (left_index, left_vertex, right_index, right_vertex) = match left_a_angle
                    <= left_b_angle {
                    false => (seg.b(), point_segment.b, seg.a(), point_segment.a),
                    true => (seg.a(), point_segment.a, seg.b(), point_segment.b),
                };

                let intersection_adjacent_vector = adjacent_vertex.sub(&intersection);
                let intersection_left_vector = left_vertex.sub(&intersection);
                let adjacent_angle = current_last_vector.angle_l(intersection_adjacent_vector);
                let left_angle = current_last_vector.angle_l(intersection_left_vector);
                if adjacent_angle <= left_angle {
                    return None;
                }
                Some(
                    ContourIntersectionResult {
                        intersection: intersection,
                        distance: current_intersection_length,
                        left_vertex: left_vertex,
                        left_index: left_index,
                        right_vertex: right_vertex,
                        right_index: right_index,
                    },
                )
            },
        }
    }

    /// The crossing that the step from `step` towards `target` stops at: of
    /// the crossings with the segments of the mesh the nearest to the current
    /// point. None where the tentative segment is free.
    pub fn crossing(&self, step: &ContourStep<Vect<V::Val>>, target: usize) -> (r: Option<
        ContourIntersectionResult<Vect<V::Val>>,
    >) where V::Val: Float + HPOrd
        requires
            self.wf(),
            target < self.vertices.len(),
            total::<V::Val>(),
        ensures
            r is Some ==> r->0.left_index < self.vertices.len() && r->0.right_index
                < self.vertices.len(),
            exact::<V::Val>() ==> r == best_crossing(self.points(), *step, target, self.segments@),
    {
        let adjacent_vertex = self.vertex(target);
        let direction = adjacent_vertex.sub(&step.current_vertex);

        // result from intersection segment loop
        let mut intersection_result_option: Option<ContourIntersectionResult<Vect<V::Val>>> = None;

        let mut k: usize = 0;
        while k < self.segments.len()
            invariant
                k <= self.segments.len(),
                self.wf(),
                target < self.vertices.len(),
                total::<V::Val>(),
                intersection_result_option is Some ==> intersection_result_option->0.left_index
                    < self.vertices.len() && intersection_result_option->0.right_index
                    < self.vertices.len(),
                exact::<V::Val>() ==> direction == v_diff(
                    self.points()[target as int],
                    step.current_vertex,
                ),
                exact::<V::Val>() ==> intersection_result_option == best_crossing(
                    self.points(),
                    *step,
                    target,
                    self.segments@.take(k as int),
                ),
            decreases self.segments.len() - k,
        {
            let indexed_segment = &self.segments[k];
            assert(self.segments@.take(k + 1).drop_last() == self.segments@.take(k as int));
            k += 1;

            match self.crossing_with(step, target, indexed_segment) {
                None => {},
                Some(result) => {
                    assert(result.owned() == result);
                    intersection_result_option =
                    match intersection_result_option {
                        None => Some(result),
                        Some(best_result) => {
                            assert(best_result.owned() == best_result);
                            Some(ContourIntersectionResult::pick(result, best_result, direction))
                        },
                    };
                },
            }
        }
        assert(self.segments@.take(k as int) == self.segments@);

        intersection_result_option
    }

    /// The state after the step from `step` towards `target`, which stops at
    /// `crossing` where there is one and else reaches the target.
    pub fn advance(
        &self,
        step: &ContourStep<Vect<V::Val>>,
        target: usize,
        crossing: Option<ContourIntersectionResult<Vect<V::Val>>>,
    ) -> (next: ContourStep<Vect<V::Val>>)
        requires
            target < self.vertices.len(),
        ensures
            next == advance_of(self.points(), *step, target, crossing),
    {
        let last_right_index = match step.origin {
            ContourStepOrigin::Mesh { current_index } => current_index,
            ContourStepOrigin::Intersection { right_index, .. } => right_index,
        };

        match crossing {
            Some(intersection_result) => ContourStep {
                last_right_index: last_right_index,
                last_vertex: step.current_vertex,
                current_vertex: intersection_result.intersection,
                origin: ContourStepOrigin::Intersection {
                    last_left_index: target,
                    right_index: intersection_result.right_index,
                    left_index: intersection_result.left_index,
                },
            },
            None => ContourStep {
                last_right_index: last_right_index,
                last_vertex: step.current_vertex,
                current_vertex: V::of(self.vertex(target)),
                origin: ContourStepOrigin::Mesh { current_index: target },
            },
        }
    }

    /// One step of the tracer: select the turn, look for the nearest crossing
    /// on the way, and advance to it or to the target. None where the current
    /// vertex has no neighbour to turn to.
    pub fn next_step(&self, step: &ContourStep<Vect<V::Val>>) -> (r: Option<
        ContourStep<Vect<V::Val>>,
    >) where V::Val: Float + HPOrd
        requires
            self.wf(),
            step.origin.in_range(self.vertices@.len()),
            total::<V::Val>(),
        ensures
            r is Some ==> r->0.origin.in_range(self.vertices@.len()),
            r is Some ==> r->0.last_vertex == step.current_vertex,
            r is None <==> stuck(self.segments@, *step),
            exact::<V::Val>() ==> r == step_of(self.points(), self.segments@, *step),
    {
        let adjacent_index = self.adjacent_target(step)?;
        let crossing = self.crossing(step, adjacent_index);

        Some(self.advance(step, adjacent_index, crossing))
    }

    /// The outer contour of the mesh, of at most `max` points.
    ///
    /// The contour starts at the leftmost vertex and follows the boundary,
    /// cutting over to a crossing segment wherever one runs outside of the
    /// segment that the tracer is on. It ends with the point that equals the
    /// first one; where `max` points are reached before, it ends there. None
    /// for a mesh without vertices and where the tracer reaches a vertex
    /// without a neighbour to go on to.
    pub fn rrcontour(&self, max: usize) -> (r: Option<Vec<Vect<V::Val>>>) where
        V::Val: Float + HPOrd,

        requires
            self.wf(),
            total::<V::Val>(),
        ensures
            self.vertices.len() == 0 ==> r is None,
            r is None ==> self.vertices.len() == 0 || exists|index: usize, from: usize|
                index < self.vertices.len() && #[trigger] dead_end(self.segments@, index, from),
            r is Some ==> 1 <= r->0.len() && (r->0.len() <= max || r->0.len() == 1),
            r is Some && r->0.len() < max ==> r->0.len() >= 2,
            r is Some ==> exists|i: int|
                0 <= i < self.vertices.len() && r->0[0] == #[trigger] self.points()[i],
            ord_exact::<V::Val>() && r is Some ==> r->0[0] == self.points()[leftmost_of(
                self.points(),
                self.vertices@.len(),
            ) as int],
            eq_exact::<V::Val>() && r is Some && r->0.len() < max ==> v_same(
                r->0[0],
                r->0[r->0.len() - 1],
            ),
            exact::<V::Val>() ==> match r {
                Some(contour) => contour_of(self.points(), self.segments@, max as nat) == Some(
                    contour@,
                ),
                None => contour_of(self.points(), self.segments@, max as nat) is None,
            },
    {
        // return None if mesh contains no vertices
        let first_index = self.leftmost()?;

        let mut step = self.first_step(first_index);

        // contour that is returned at end
        let mut contour = Vec::new();
        contour.push(V::of(self.vertex(first_index)));
        assert(contour@ == seq![self.points()[first_index as int]]);

        // loop until last found vertix is first vertex
        loop
            invariant
                self.wf(),
                total::<V::Val>(),
                first_index < self.vertices.len(),
                step.origin.in_range(self.vertices@.len()),
                contour.len() >= 1,
                contour.len() <= max || contour.len() == 1,
                contour[0] == self.points()[first_index as int],
                ord_exact::<V::Val>() ==> first_index == leftmost_of(
                    self.points(),
                    self.vertices@.len(),
                ),
                exact::<V::Val>() ==> contour_of(self.points(), self.segments@, max as nat)
                    == trace_of(self.points(), self.segments@, step, contour@, max as nat),
            decreases max - contour.len(),
        {
            let next = match self.next_step(&step) {
                Some(next) => next,
                None => {
                    return None;
                },
            };

            if contour.len() >= max {
                return Some(contour);
            }
            contour.push(next.current_vertex);
            let closed = contour[0].equal(&next.current_vertex);
            step = next;

            if closed {
                return Some(contour);
            }
        }
    }
}

} // verus!
