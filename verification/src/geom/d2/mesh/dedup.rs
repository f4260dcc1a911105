use vstd::prelude::*;
use crate::geom::d2::mesh::ind::{in_range, IndSegMesh};
use crate::geom::d2::prim::vect::{v_same, Coords, Vect, Vector};
use crate::geom::mesh::ind::IndSeg;
use crate::rel::{eq_exact, same, HPEq};

verus! {

/// The index of the first vertex of `vertices` that `vertex` equals.
pub open spec fn find_same<A: PartialEq>(vertices: Seq<Vect<A>>, vertex: Vect<A>) -> Option<int>
    decreases vertices.len(),
{
    if vertices.len() == 0 {
        None
    } else {
        match find_same(vertices.drop_last(), vertex) {
            Some(index) => Some(index),
            None => if v_same(vertex, vertices.last()) {
                Some(vertices.len() - 1)
            } else {
                None
            },
        }
    }
}

/// The vertex list that holds `vertex`, and the index that it has there: the
/// first vertex that it equals, else a new last one.
pub open spec fn with_vertex<A: PartialEq>(vertices: Seq<Vect<A>>, vertex: Vect<A>) -> (
    Seq<Vect<A>>,
    usize,
) {
    match find_same(vertices, vertex) {
        Some(index) => (vertices, index as usize),
        None => (vertices.push(vertex), vertices.len() as usize),
    }
}

/// Some segment of `segments` joins the same two vertices as `segment`.
pub open spec fn has_equivalent(segments: Seq<IndSeg>, segment: IndSeg) -> bool {
    exists|k: int| #![trigger segments[k]] 0 <= k < segments.len() && segment.equiv_spec(&segments[k])
}

/// The segment list that holds `segment` or an equivalent of it.
pub open spec fn with_segment(segments: Seq<IndSeg>, segment: IndSeg) -> Seq<IndSeg> {
    if has_equivalent(segments, segment) {
        segments
    } else {
        segments.push(segment)
    }
}

/// The vertices and segments of the deduplicated mesh.
///
/// The segments are taken in their order. Each one gets for its two ends
/// the indices of the first equal vertices met so far, a new vertex where
/// there is none, and is kept unless an equivalent segment was kept before.
pub open spec fn dedup_of<A: PartialEq>(points: Seq<Vect<A>>, segs: Seq<IndSeg>) -> (
    Seq<Vect<A>>,
    Seq<IndSeg>,
)
    decreases segs.len(),
{
    if segs.len() == 0 {
        (Seq::empty(), Seq::empty())
    } else {
        let (vertices, segments) = dedup_of(points, segs.drop_last());
        let seg = segs.last();
        let (with_a, index_a) = with_vertex(vertices, points[seg.a as int]);
        let (with_b, index_b) = with_vertex(with_a, points[seg.b as int]);
        (with_b, with_segment(segments, IndSeg { a: index_a, b: index_b }))
    }
}

/// No vertex equals an earlier one.
pub open spec fn distinct<A: PartialEq>(vertices: Seq<Vect<A>>) -> bool {
    forall|i: int, j: int|
        0 <= i < j < vertices.len() ==> !v_same(#[trigger] vertices[j], #[trigger] vertices[i])
}

/// No segment joins the same two vertices as an earlier one.
pub open spec fn no_equivalent(segments: Seq<IndSeg>) -> bool {
    forall|i: int, j: int|
        #![trigger segments[j], segments[i]]
        0 <= i < j < segments.len() ==> !segments[j].equiv_spec(&segments[i])
}

/// The number of vertices that the segments name, where they name them in
/// the order 0, 1, 2, ... of their first use.
pub open spec fn used(segments: Seq<IndSeg>) -> nat
    decreases segments.len(),
{
    if segments.len() == 0 {
        0
    } else {
        let before = used(segments.drop_last());
        let seg = segments.last();
        let after_a = if seg.a == before {
            before + 1
        } else {
            before
        };
        if seg.b == after_a {
            after_a + 1
        } else {
            after_a
        }
    }
}

/// Each segment names vertices that were named before, or the next new one.
pub open spec fn first_use_order(segments: Seq<IndSeg>) -> bool
    decreases segments.len(),
{
    if segments.len() == 0 {
        true
    } else {
        let before = used(segments.drop_last());
        let seg = segments.last();
        &&& first_use_order(segments.drop_last())
        &&& seg.a <= before
        &&& seg.b <= if seg.a == before {
            before + 1
        } else {
            before
        }
    }
}

/// The mesh is one that deduplication leaves: its vertices are distinct, its
/// segments join distinct pairs, every vertex is used, and the vertices stand
/// in the order in which the segments use them first.
pub open spec fn deduplicated<A: PartialEq>(vertices: Seq<Vect<A>>, segments: Seq<IndSeg>) -> bool {
    &&& distinct(vertices)
    &&& no_equivalent(segments)
    &&& first_use_order(segments)
    &&& used(segments) == vertices.len()
    &&& in_range(segments, vertices.len())
    &&& vertices.len() <= usize::MAX
}

/// What `find_same` finds is the first vertex that `vertex` equals.
pub proof fn lemma_find_same<A: PartialEq>(vertices: Seq<Vect<A>>, vertex: Vect<A>)
    ensures
        find_same(vertices, vertex) is None ==> forall|i: int|
            0 <= i < vertices.len() ==> !v_same(vertex, #[trigger] vertices[i]),
        find_same(vertices, vertex) is Some ==> {
            let index = find_same(vertices, vertex)->0;
            &&& 0 <= index < vertices.len()
            &&& v_same(vertex, vertices[index])
            &&& forall|i: int| 0 <= i < index ==> !v_same(vertex, #[trigger] vertices[i])
        },
    decreases vertices.len(),
{
    if vertices.len() > 0 {
        let front = vertices.drop_last();
        lemma_find_same(front, vertex);
        assert forall|i: int| 0 <= i < front.len() implies #[trigger] front[i] == vertices[i] by {}
        match find_same(front, vertex) {
            Some(index) => {
                assert(front[index] == vertices[index]);
                assert forall|i: int| 0 <= i < index implies !v_same(
                    vertex,
                    #[trigger] vertices[i],
                ) by {
                    assert(front[i] == vertices[i]);
                }
            },
            None => {
                assert forall|i: int| 0 <= i < vertices.len() - 1 implies !v_same(
                    vertex,
                    #[trigger] vertices[i],
                ) by {
                    assert(front[i] == vertices[i]);
                }
            },
        }
    }
}

/// Taking a vertex in keeps the list distinct and as long as it can be, and
/// hands out an index into it.
proof fn lemma_with_vertex<A: PartialEq>(vertices: Seq<Vect<A>>, vertex: Vect<A>)
    requires
        distinct(vertices),
        vertices.len() < usize::MAX,
    ensures
        distinct(with_vertex(vertices, vertex).0),
        with_vertex(vertices, vertex).1 < with_vertex(vertices, vertex).0.len(),
        with_vertex(vertices, vertex).1 < vertices.len() ==> with_vertex(vertices, vertex).0
            == vertices,
        with_vertex(vertices, vertex).1 >= vertices.len() ==> with_vertex(vertices, vertex).1
            == vertices.len() && with_vertex(vertices, vertex).0 == vertices.push(vertex),
{
    lemma_find_same(vertices, vertex);
    if find_same(vertices, vertex) is None {
        let grown = vertices.push(vertex);
        assert forall|i: int, j: int| 0 <= i < j < grown.len() implies !v_same(
            #[trigger] grown[j],
            #[trigger] grown[i],
        ) by {
            if j < vertices.len() {
                assert(grown[j] == vertices[j]);
                assert(grown[i] == vertices[i]);
            } else {
                assert(grown[i] == vertices[i]);
            }
        }
    }
}

/// The prefixes of segments in the order of first use are in that order
/// too, and use no more vertices.
proof fn lemma_prefix_order(segments: Seq<IndSeg>, k: int)
    requires
        first_use_order(segments),
        0 <= k <= segments.len(),
    ensures
        first_use_order(segments.take(k)),
        used(segments.take(k)) <= used(segments),
    decreases segments.len(),
{
    if k == segments.len() {
        assert(segments.take(k) == segments);
    } else {
        let front = segments.drop_last();
        lemma_prefix_order(front, k);
        assert(front.take(k) == segments.take(k));
    }
}

/// What deduplication returns is deduplicated: no two of its vertices are
/// equal, no two of its segments are equivalent, and every vertex is an end
/// of a segment.
pub proof fn lemma_deduplicate_is_deduplicated<A: PartialEq>(
    points: Seq<Vect<A>>,
    segs: Seq<IndSeg>,
)
    requires
        2 * segs.len() <= usize::MAX,
    ensures
        deduplicated(dedup_of(points, segs).0, dedup_of(points, segs).1),
        dedup_of(points, segs).0.len() <= 2 * segs.len(),
        dedup_of(points, segs).1.len() <= segs.len(),
    decreases segs.len(),
{
    if segs.len() > 0 {
        let front = segs.drop_last();
        let seg = segs.last();
        lemma_deduplicate_is_deduplicated(points, front);
        let (vertices, segments) = dedup_of(points, front);
        let (with_a, index_a) = with_vertex(vertices, points[seg.a as int]);
        lemma_with_vertex(vertices, points[seg.a as int]);
        let (with_b, index_b) = with_vertex(with_a, points[seg.b as int]);
        lemma_with_vertex(with_a, points[seg.b as int]);
        let new = IndSeg { a: index_a, b: index_b };
        let kept = with_segment(segments, new);
        assert(dedup_of(points, segs) == (with_b, kept));
        if has_equivalent(segments, new) {
            let k = choose|k: int|
                #![trigger segments[k]]
                0 <= k < segments.len() && new.equiv_spec(&segments[k]);
            assert(segments[k].a < vertices.len() && segments[k].b < vertices.len());
            assert(index_a < vertices.len());
            assert(with_a == vertices);
            assert(index_b < vertices.len());
            assert(with_b == vertices);
        } else {
            assert(kept.drop_last() == segments);
            assert(kept.last() == new);
            assert forall|i: int, j: int|
                #![trigger kept[j], kept[i]]
                0 <= i < j < kept.len() implies !kept[j].equiv_spec(&kept[i]) by {
                if j < segments.len() {
                    assert(kept[j] == segments[j]);
                    assert(kept[i] == segments[i]);
                } else {
                    assert(kept[i] == segments[i]);
                }
            }
            assert forall|k: int| 0 <= k < kept.len() implies (#[trigger] kept[k]).a
                < with_b.len() && kept[k].b < with_b.len() by {
                if k < segments.len() {
                    assert(kept[k] == segments[k]);
                }
            }
        }
    }
}

/// In a list of distinct vertices, each vertex is the first that it equals,
/// where every value equals itself.
proof fn lemma_find_in_distinct<A: PartialEq>(vertices: Seq<Vect<A>>, k: int, index: int)
    requires
        distinct(vertices),
        forall|a: A| #[trigger] same(a, a),
        0 <= k <= vertices.len(),
        0 <= index <= k,
        index < vertices.len(),
    ensures
        index < k ==> find_same(vertices.take(k), vertices[index]) == Some(index),
        index == k ==> find_same(vertices.take(k), vertices[index]) is None,
{
    let front = vertices.take(k);
    let vertex = vertices[index];
    lemma_find_same(front, vertex);
    assert(v_same(vertex, vertex));
    match find_same(front, vertex) {
        Some(found) => {
            assert(front[found] == vertices[found]);
            if index < k {
                assert(front[index] == vertices[index]);
                if found < index {
                    assert(!v_same(vertices[index], vertices[found]));
                }
            } else {
                assert(!v_same(vertices[index], vertices[found]));
            }
        },
        None => {
            if index < k {
                assert(front[index] == vertices[index]);
            }
        },
    }
}

/// Deduplicating the first `k` segments of a deduplicated mesh returns them
/// as they are, with the vertices that they use.
proof fn lemma_refold<A: PartialEq>(vertices: Seq<Vect<A>>, segments: Seq<IndSeg>, k: int)
    requires
        deduplicated(vertices, segments),
        forall|a: A| #[trigger] same(a, a),
        0 <= k <= segments.len(),
    ensures
        used(segments.take(k)) <= vertices.len(),
        dedup_of(vertices, segments.take(k)) == (
            vertices.take(used(segments.take(k)) as int),
            segments.take(k),
        ),
    decreases k,
{
    lemma_prefix_order(segments, k);
    if k == 0 {
        assert(segments.take(0) =~= Seq::empty());
        assert(vertices.take(0) =~= Seq::empty());
    } else {
        lemma_refold(vertices, segments, k - 1);
        lemma_prefix_order(segments, k - 1);
        let prefix = segments.take(k);
        let front = segments.take(k - 1);
        assert(prefix.drop_last() == front);
        let seg = segments[k - 1];
        assert(prefix.last() == seg);
        let before = used(front);
        let after_a = if seg.a == before {
            before + 1
        } else {
            before
        };
        let after_b = used(prefix);
        assert(seg.a <= before && seg.b <= after_a);
        assert(after_b <= vertices.len());

        let held = vertices.take(before as int);
        lemma_find_in_distinct(vertices, before as int, seg.a as int);
        let (with_a, index_a) = with_vertex(held, vertices[seg.a as int]);
        assert(index_a == seg.a);
        assert(with_a =~= vertices.take(after_a as int));

        lemma_find_in_distinct(vertices, after_a as int, seg.b as int);
        let (with_b, index_b) = with_vertex(with_a, vertices[seg.b as int]);
        assert(index_b == seg.b);
        assert(with_b =~= vertices.take(after_b as int));

        let new = IndSeg { a: index_a, b: index_b };
        assert(new == seg);
        assert(!has_equivalent(front, new)) by {
            if has_equivalent(front, new) {
                let w = choose|w: int|
                    #![trigger front[w]]
                    0 <= w < front.len() && new.equiv_spec(&front[w]);
                assert(front[w] == segments[w]);
                assert(!segments[k - 1].equiv_spec(&segments[w]));
            }
        }
        assert(front.push(new) =~= prefix);
    }
}

/// Deduplication leaves a deduplicated mesh as it is, where every value
/// equals itself.
pub proof fn lemma_deduplicate_fixed<A: PartialEq>(vertices: Seq<Vect<A>>, segments: Seq<IndSeg>)
    requires
        deduplicated(vertices, segments),
        forall|a: A| #[trigger] same(a, a),
    ensures
        dedup_of(vertices, segments) == (vertices, segments),
{
    lemma_refold(vertices, segments, segments.len() as int);
    assert(segments.take(segments.len() as int) == segments);
    assert(vertices.take(vertices.len() as int) == vertices);
}

/// Deduplicating twice gives what deduplicating once gives: the same
/// vertices and the same segments, in the same order. This holds of scalar
/// types on which every value equals itself.
pub proof fn lemma_deduplicate_idempotent<A: PartialEq>(points: Seq<Vect<A>>, segs: Seq<IndSeg>)
    requires
        2 * segs.len() <= usize::MAX,
        forall|a: A| #[trigger] same(a, a),
    ensures
        dedup_of(dedup_of(points, segs).0, dedup_of(points, segs).1) == dedup_of(points, segs),
{
    lemma_deduplicate_is_deduplicated(points, segs);
    lemma_deduplicate_fixed(dedup_of(points, segs).0, dedup_of(points, segs).1);
}

/// The segment `t` of the mesh with the vertices `vertices` joins the two
/// positions that the segment `s` joins in the mesh with the vertices
/// `points`, in one order or the other, positions counted as the same where
/// their coordinates are equal.
pub open spec fn joins_same<A: PartialEq>(
    points: Seq<Vect<A>>,
    s: IndSeg,
    vertices: Seq<Vect<A>>,
    t: IndSeg,
) -> bool {
    let a = points[s.a as int];
    let b = points[s.b as int];
    let c = vertices[t.a as int];
    let d = vertices[t.b as int];
    v_same(a, c) && v_same(b, d) || v_same(a, d) && v_same(b, c)
}

/// Some segment of `segments` joins the two positions that `s` joins.
pub open spec fn has_image<A: PartialEq>(
    points: Seq<Vect<A>>,
    s: IndSeg,
    vertices: Seq<Vect<A>>,
    segments: Seq<IndSeg>,
) -> bool {
    exists|j: int|
        0 <= j < segments.len() && #[trigger] joins_same(points, s, vertices, segments[j])
}

/// The segment `t` joins the two positions that some segment of `segs` joins.
pub open spec fn has_source<A: PartialEq>(
    points: Seq<Vect<A>>,
    segs: Seq<IndSeg>,
    vertices: Seq<Vect<A>>,
    t: IndSeg,
) -> bool {
    exists|i: int| 0 <= i < segs.len() && #[trigger] joins_same(points, segs[i], vertices, t)
}

/// The index that a vertex gets is that of a vertex that it equals, where
/// every value equals itself.
proof fn lemma_with_vertex_same<A: PartialEq>(vertices: Seq<Vect<A>>, vertex: Vect<A>)
    requires
        vertices.len() < usize::MAX,
        forall|a: A| #[trigger] same(a, a),
    ensures
        ({
            let (held, index) = with_vertex(vertices, vertex);
            &&& index < held.len()
            &&& v_same(vertex, held[index as int])
            &&& held.len() >= vertices.len()
            &&& forall|k: int| 0 <= k < vertices.len() ==> #[trigger] held[k] == vertices[k]
        }),
{
    lemma_find_same(vertices, vertex);
    assert(v_same(vertex, vertex));
}

/// Deduplication keeps every segment and makes up none: each segment of the
/// mesh has a segment of the result that joins the same two positions, and
/// each segment of the result joins the two positions of a segment of the
/// mesh. This holds where every value equals itself.
pub proof fn lemma_deduplicate_keeps_segments<A: PartialEq>(points: Seq<Vect<A>>, segs: Seq<IndSeg>)
    requires
        2 * segs.len() <= usize::MAX,
        forall|a: A| #[trigger] same(a, a),
    ensures
        forall|i: int|
            0 <= i < segs.len() ==> has_image(
                points,
                #[trigger] segs[i],
                dedup_of(points, segs).0,
                dedup_of(points, segs).1,
            ),
        forall|j: int|
            0 <= j < dedup_of(points, segs).1.len() ==> has_source(
                points,
                segs,
                dedup_of(points, segs).0,
                #[trigger] dedup_of(points, segs).1[j],
            ),
    decreases segs.len(),
{
    if segs.len() > 0 {
        let front = segs.drop_last();
        let seg = segs[segs.len() - 1];
        assert(segs.last() == seg);
        lemma_deduplicate_keeps_segments(points, front);
        lemma_deduplicate_is_deduplicated(points, front);
        let (vertices, segments) = dedup_of(points, front);
        let a = points[seg.a as int];
        let b = points[seg.b as int];
        let (with_a, index_a) = with_vertex(vertices, a);
        lemma_with_vertex_same(vertices, a);
        let (with_b, index_b) = with_vertex(with_a, b);
        lemma_with_vertex_same(with_a, b);
        let new = IndSeg { a: index_a, b: index_b };
        let kept = with_segment(segments, new);
        assert(dedup_of(points, segs) == (with_b, kept));
        assert(with_b[index_a as int] == with_a[index_a as int]);
        assert(joins_same(points, seg, with_b, new));

        // what joined the same positions before still does
        assert forall|s: IndSeg, k: int|
            0 <= k < segments.len() && joins_same(
                points,
                s,
                vertices,
                segments[k],
            ) implies #[trigger] joins_same(points, s, with_b, kept[k]) by {
            assert(segments[k].a < vertices.len() && segments[k].b < vertices.len());
            assert(kept[k] == segments[k]);
            assert(with_b[segments[k].a as int] == vertices[segments[k].a as int]);
            assert(with_b[segments[k].b as int] == vertices[segments[k].b as int]);
        }

        // the place of the last segment in the result
        let place = if has_equivalent(segments, new) {
            choose|k: int|
                #![trigger segments[k]]
                0 <= k < segments.len() && new.equiv_spec(&segments[k])
        } else {
            segments.len() as int
        };
        assert(0 <= place < kept.len());
        assert(joins_same(points, seg, with_b, kept[place])) by {
            if has_equivalent(segments, new) {
                assert(kept[place] == segments[place]);
            } else {
                assert(kept[place] == new);
            }
        }

        assert forall|i: int| 0 <= i < segs.len() implies has_image(
            points,
            #[trigger] segs[i],
            with_b,
            kept,
        ) by {
            if i < front.len() {
                assert(front[i] == segs[i]);
                assert(has_image(points, front[i], vertices, segments));
                let j = choose|j: int|
                    0 <= j < segments.len() && #[trigger] joins_same(
                        points,
                        front[i],
                        vertices,
                        segments[j],
                    );
                assert(joins_same(points, segs[i], with_b, kept[j]));
            } else {
                assert(joins_same(points, segs[i], with_b, kept[place]));
            }
        }
        assert forall|j: int| 0 <= j < kept.len() implies has_source(
            points,
            segs,
            with_b,
            #[trigger] kept[j],
        ) by {
            if j < segments.len() {
                assert(has_source(points, front, vertices, segments[j]));
                let i = choose|i: int|
                    0 <= i < front.len() && #[trigger] joins_same(
                        points,
                        front[i],
                        vertices,
                        segments[j],
                    );
                assert(front[i] == segs[i]);
                assert(joins_same(points, segs[i], with_b, kept[j]));
            } else {
                assert(kept[j] == new);
                assert(joins_same(points, segs[segs.len() - 1], with_b, kept[j]));
            }
        }
    }
}

/// The index of the first of `vertices` that `vertex` equals; where there is
/// none, `vertex` is appended and its index returned.
pub fn push_vertex<A: Copy + HPEq>(vertices: &mut Vec<Vect<A>>, vertex: Vect<A>) -> (index: usize)
    ensures
        index < final(vertices).len(),
        final(vertices)@ == old(vertices)@ || final(vertices)@ == old(vertices)@.push(vertex),
        eq_exact::<A>() ==> (final(vertices)@, index) == with_vertex(old(vertices)@, vertex),
{
    let mut k: usize = 0;
    while k < vertices.len()
        invariant
            k <= vertices.len(),
            vertices@ == old(vertices)@,
            eq_exact::<A>() ==> find_same(vertices@.take(k as int), vertex) is None,
        decreases vertices.len() - k,
    {
        assert(vertices@.take(k + 1).drop_last() == vertices@.take(k as int));
        if vertex.equal(&vertices[k]) {
            proof {
                if eq_exact::<A>() {
                    lemma_found_first(vertices@, vertex, k as int);
                }
            }
            return k;
        }
        k += 1;
    }
    assert(vertices@.take(k as int) == vertices@);
    let index = vertices.len();
    vertices.push(vertex);
    index
}

/// Where `vertex` equals none of the first `k` vertices and equals the next
/// one, `k` is what `find_same` finds.
proof fn lemma_found_first<A: PartialEq>(vertices: Seq<Vect<A>>, vertex: Vect<A>, k: int)
    requires
        0 <= k < vertices.len(),
        find_same(vertices.take(k), vertex) is None,
        v_same(vertex, vertices[k]),
    ensures
        find_same(vertices, vertex) == Some(k),
    decreases vertices.len(),
{
    if k == vertices.len() - 1 {
        assert(vertices.drop_last() == vertices.take(k));
    } else {
        let front = vertices.drop_last();
        assert(front.take(k) == vertices.take(k));
        lemma_found_first(front, vertex, k);
    }
}

/// Appends `segment` unless a segment that joins the same two vertices is
/// there already.
pub fn push_segment(segments: &mut Vec<IndSeg>, segment: IndSeg)
    ensures
        final(segments)@ == with_segment(old(segments)@, segment),
{
    let mut k: usize = 0;
    while k < segments.len()
        invariant
            k <= segments.len(),
            segments@ == old(segments)@,
            forall|w: int| #![trigger segments@[w]] 0 <= w < k ==> !segment.equiv_spec(&segments@[w]),
        decreases segments.len() - k,
    {
        if segment.equiv(&segments[k]) {
            return ;
        }
        k += 1;
    }
    segments.push(segment);
}

impl<V: Vector> IndSegMesh<V> {
    /// A new mesh without equal vertices and without equivalent segments.
    ///
    /// Vertices whose coordinates are equal become one vertex, the first of
    /// them; segments that join the same two vertices become one. A vertex
    /// that no segment names is left out.
    pub fn deduplicate(&self) -> (mesh: IndSegMesh<Vect<V::Val>>) where V::Val: HPEq
        requires
            self.wf(),
        ensures
            mesh.wf(),
            eq_exact::<V::Val>() ==> (mesh.vertices@, mesh.segments@) == dedup_of(
                self.points(),
                self.segments@,
            ),
    {
        let mut vertices: Vec<Vect<V::Val>> = Vec::new();
        let mut segments: Vec<IndSeg> = Vec::new();

        let mut k: usize = 0;
        while k < self.segments.len()
            invariant
                k <= self.segments.len(),
                self.wf(),
                in_range(segments@, vertices@.len()),
                eq_exact::<V::Val>() ==> (vertices@, segments@) == dedup_of(
                    self.points(),
                    self.segments@.take(k as int),
                ),
            decreases self.segments.len() - k,
        {
            let indexed_segment = &self.segments[k];
            assert(self.segments@.take(k + 1).drop_last() == self.segments@.take(k as int));
            let a = V::of(self.vertex(indexed_segment.a()));
            let b = V::of(self.vertex(indexed_segment.b()));

            let index_a = push_vertex(&mut vertices, a);
            let index_b = push_vertex(&mut vertices, b);

            let segment = IndSeg::new(index_a, index_b);
            let ghost before = segments@;

            push_segment(&mut segments, segment);
            assert forall|w: int| 0 <= w < segments@.len() implies (#[trigger] segments@[w]).a
                < vertices@.len() && segments@[w].b < vertices@.len() by {
                if w < before.len() {
                    assert(segments@[w] == before[w]);
                }
            }
            k += 1;
        }
        assert(self.segments@.take(k as int) == self.segments@);

        IndSegMesh::new_unchecked(vertices, segments)
    }
}

} // verus!
