use vstd::prelude::*;
use crate::file::stl::{Stl, Tri};
use crate::geom::d2;
use crate::geom::d2::mesh::contour::contour_of;
use crate::geom::d2::mesh::dedup::{push_segment, with_segment};
use crate::geom::d2::mesh::ind::in_range;
use crate::geom::d3::prim::vect::{rot_y_of, rot_z_of, v_same, Coords, Vect, Vector};
use crate::geom::mesh::ind::IndSeg;
use crate::num::{exact, float_exact, total, Float};
use crate::ops::neg_exact;
use crate::rel::{eq_exact, HPEq, HPOrd};

verus! {

/// A wireframe in space: vertices, and segments that join two of them by index.
pub struct IndSegMesh<V: Vector> {
    pub vertices: Vec<V>,
    pub segments: Vec<IndSeg>,
}

/// The index of the first vertex of `vertices` that `vertex` equals.
pub open spec fn find_same<A: PartialEq>(vertices: Seq<Vect<A>>, vertex: Vect<A>) -> Option<int>
    decreases vertices.len(),
{
    if vertices.len() == 0 {
        None
    } else {
        match find_same(vertices.drop_last(), vertex) {
            Some(index) => Some(index),
            None => if v_same(vertex, vertices.last()) {
                Some(vertices.len() - 1)
            } else {
                None
            },
        }
    }
}

/// The vertex list that holds `vertex`, and the index that it has there: the
/// first vertex that it equals, else a new last one.
pub open spec fn with_vertex<A: PartialEq>(vertices: Seq<Vect<A>>, vertex: Vect<A>) -> (
    Seq<Vect<A>>,
    usize,
) {
    match find_same(vertices, vertex) {
        Some(index) => (vertices, index as usize),
        None => (vertices.push(vertex), vertices.len() as usize),
    }
}

/// The vertices and segments of the wireframe of the facets `triangles`.
///
/// The facets are taken in their order. The corners of each get the indices
/// of the first equal vertices met so far, new vertices where there are none;
/// its three edges are kept unless an equivalent segment was kept before.
pub open spec fn wireframe_of<A: PartialEq>(triangles: Seq<Tri<A>>) -> (Seq<Vect<A>>, Seq<IndSeg>)
    decreases triangles.len(),
{
    if triangles.len() == 0 {
        (Seq::empty(), Seq::empty())
    } else {
        let (vertices, segments) = wireframe_of(triangles.drop_last());
        let (a, b, c) = triangles.last().vertices;
        let (with_a, index_a) = with_vertex(vertices, a);
        let (with_b, index_b) = with_vertex(with_a, b);
        let (with_c, index_c) = with_vertex(with_b, c);
        let ab = IndSeg { a: index_a, b: index_b };
        let bc = IndSeg { a: index_b, b: index_c };
        let ca = IndSeg { a: index_c, b: index_a };
        (with_c, with_segment(with_segment(with_segment(segments, ab), bc), ca))
    }
}

/// Where `vertex` equals none of the first `k` vertices and equals the next
/// one, `k` is what `find_same` finds.
proof fn lemma_found_first<A: PartialEq>(vertices: Seq<Vect<A>>, vertex: Vect<A>, k: int)
    requires
        0 <= k < vertices.len(),
        find_same(vertices.take(k), vertex) is None,
        v_same(vertex, vertices[k]),
    ensures
        find_same(vertices, vertex) == Some(k),
    decreases vertices.len(),
{
    if k == vertices.len() - 1 {
        assert(vertices.drop_last() == vertices.take(k));
    } else {
        let front = vertices.drop_last();
        assert(front.take(k) == vertices.take(k));
        lemma_found_first(front, vertex, k);
    }
}

/// The index of the first of `vertices` that `vertex` equals; where there is
/// none, `vertex` is appended and its index returned.
pub fn push_vertex<A: Copy + HPEq>(vertices: &mut Vec<Vect<A>>, vertex: Vect<A>) -> (index: usize)
    ensures
        index < final(vertices).len(),
        final(vertices)@ == old(vertices)@ || final(vertices)@ == old(vertices)@.push(vertex),
        eq_exact::<A>() ==> (final(vertices)@, index) == with_vertex(old(vertices)@, vertex),
{
    let mut k: usize = 0;
    while k < vertices.len()
        invariant
            k <= vertices.len(),
            vertices@ == old(vertices)@,
            eq_exact::<A>() ==> find_same(vertices@.take(k as int), vertex) is None,
        decreases vertices.len() - k,
    {
        assert(vertices@.take(k + 1).drop_last() == vertices@.take(k as int));
        if vertex.equal(&vertices[k]) {
            proof {
                if eq_exact::<A>() {
                    lemma_found_first(vertices@, vertex, k as int);
                }
            }
            return k;
        }
        k += 1;
    }
    assert(vertices@.take(k as int) == vertices@);
    let index = vertices.len();
    vertices.push(vertex);
    index
}

/// What `push_segment` leaves in range stays in range: the new segment's ends
/// are indices of the vertex list.
proof fn lemma_with_segment_in_range(segments: Seq<IndSeg>, segment: IndSeg, n: nat)
    requires
        in_range(segments, n),
        segment.a < n,
        segment.b < n,
    ensures
        in_range(with_segment(segments, segment), n),
{
    let kept = with_segment(segments, segment);
    assert forall|k: int| 0 <= k < kept.len() implies (#[trigger] kept[k]).a < n && kept[k].b
        < n by {
        if k < segments.len() {
            assert(kept[k] == segments[k]);
        }
    }
}

impl<V: Vector> IndSegMesh<V> {
    /// the positions of the vertices
    pub open spec fn points(&self) -> Seq<Vect<V::Val>> {
        Seq::new(self.vertices@.len(), |i: int| self.vertices@[i].xyz())
    }

    /// Every index in a segment is the index of a vertex.
    pub open spec fn wf(&self) -> bool {
        in_range(self.segments@, self.vertices@.len())
    }

    pub fn new_unchecked(vertices: Vec<V>, segments: Vec<IndSeg>) -> (mesh: IndSegMesh<V>)
        ensures
            mesh.vertices == vertices,
            mesh.segments == segments,
    {
        IndSegMesh { vertices: vertices, segments: segments }
    }

    /// true if every index in a segment is the index of a vertex
    pub fn valid(&self) -> (r: bool)
        ensures
            r == self.wf(),
    {
        let n = self.vertices.len();
        let mut k: usize = 0;
        while k < self.segments.len()
            invariant
                k <= self.segments.len(),
                n == self.vertices.len(),
                in_range(self.segments@.take(k as int), n as nat),
            decreases self.segments.len() - k,
        {
            let seg = &self.segments[k];
            if seg.a() >= n || seg.b() >= n {
                return false;
            }
            assert forall|j: int| 0 <= j < k + 1 implies (#[trigger] self.segments@.take(
                k + 1,
            )[j]).a < n && self.segments@.take(k + 1)[j].b < n by {
                if j < k {
                    assert(self.segments@.take(k as int)[j] == self.segments@[j]);
                }
            }
            k += 1;
        }
        assert(self.segments@.take(k as int) == self.segments@);
        true
    }

    pub fn vertices(&self) -> (r: &Vec<V>)
        ensures
            r == &self.vertices,
    {
        &self.vertices
    }

    pub fn segments(&self) -> (r: &Vec<IndSeg>)
        ensures
            r == &self.segments,
    {
        &self.segments
    }

    /// The planar mesh with the image under `proj` of every vertex and with
    /// the same segments.
    pub fn proj_2d<W: d2::prim::Vector, Func: Fn(&V) -> W>(&self, proj: Func) -> (r:
        d2::mesh::ind::IndSegMesh<W>)
        requires
            forall|i: int|
                0 <= i < self.vertices.len() ==> proj.requires((&#[trigger] self.vertices[i],)),
        ensures
            r.segments@ == self.segments@,
            r.vertices.len() == self.vertices.len(),
            forall|i: int|
                0 <= i < self.vertices.len() ==> proj.ensures(
                    (&self.vertices[i],),
                    #[trigger] r.vertices[i],
                ),
    {
        let mut vertices: Vec<W> = Vec::new();
        let mut k: usize = 0;
        while k < self.vertices.len()
            invariant
                k <= self.vertices.len(),
                vertices.len() == k,
                forall|i: int|
                    0 <= i < self.vertices.len() ==> proj.requires(
                        (&#[trigger] self.vertices[i],),
                    ),
                forall|i: int|
                    0 <= i < k ==> proj.ensures((&self.vertices[i],), #[trigger] vertices[i]),
            decreases self.vertices.len() - k,
        {
            vertices.push(proj(&self.vertices[k]));
            k += 1;
        }
        let segments = self.copy_segments();

        d2::mesh::ind::IndSegMesh::new_unchecked(vertices, segments)
    }

    /// a copy of the segments
    fn copy_segments(&self) -> (r: Vec<IndSeg>)
        ensures
            r@ == self.segments@,
    {
        let mut segments: Vec<IndSeg> = Vec::new();
        let mut k: usize = 0;
        while k < self.segments.len()
            invariant
                k <= self.segments.len(),
                segments@ == self.segments@.take(k as int),
            decreases self.segments.len() - k,
        {
            segments.push(self.segments[k]);
            assert(self.segments@.take(k as int).push(self.segments@[k as int])
                == self.segments@.take(k + 1));
            k += 1;
        }
        assert(self.segments@.take(k as int) == self.segments@);
        segments
    }

    /// The mesh turned about the y axis by `angle`.
    pub fn rotate_y(&self, angle: V::Val) -> (r: IndSegMesh<Vect<V::Val>>) where V::Val: Float
        requires
            total::<V::Val>(),
        ensures
            r.segments@ == self.segments@,
            r.vertices.len() == self.vertices.len(),
            float_exact::<V::Val>() && neg_exact::<V::Val>() ==> forall|i: int|
                0 <= i < self.vertices.len() ==> #[trigger] r.vertices[i] == rot_y_of(
                    self.vertices[i].xyz(),
                    angle,
                ),
    {
        let mut vertices: Vec<Vect<V::Val>> = Vec::new();
        let mut k: usize = 0;
        while k < self.vertices.len()
            invariant
                k <= self.vertices.len(),
                vertices.len() == k,
                total::<V::Val>(),
                float_exact::<V::Val>() && neg_exact::<V::Val>() ==> forall|i: int|
                    0 <= i < k ==> #[trigger] vertices[i] == rot_y_of(
                        self.vertices[i].xyz(),
                        angle,
                    ),
            decreases self.vertices.len() - k,
        {
            vertices.push(self.vertices[k].rotate_y(angle));
            k += 1;
        }
        let segments = self.copy_segments();

        IndSegMesh::new_unchecked(vertices, segments)
    }

    /// The mesh turned about the z axis by `angle`.
    pub fn rotate_z(&self, angle: V::Val) -> (r: IndSegMesh<Vect<V::Val>>) where V::Val: Float
        requires
            total::<V::Val>(),
        ensures
            r.segments@ == self.segments@,
            r.vertices.len() == self.vertices.len(),
            float_exact::<V::Val>() ==> forall|i: int|
                0 <= i < self.vertices.len() ==> #[trigger] r.vertices[i] == rot_z_of(
                    self.vertices[i].xyz(),
                    angle,
                ),
    {
        let mut vertices: Vec<Vect<V::Val>> = Vec::new();
        let mut k: usize = 0;
        while k < self.vertices.len()
            invariant
                k <= self.vertices.len(),
                vertices.len() == k,
                total::<V::Val>(),
                float_exact::<V::Val>() ==> forall|i: int|
                    0 <= i < k ==> #[trigger] vertices[i] == rot_z_of(
                        self.vertices[i].xyz(),
                        angle,
                    ),
            decreases self.vertices.len() - k,
        {
            vertices.push(self.vertices[k].rotate_z(angle));
            k += 1;
        }
        let segments = self.copy_segments();

        IndSegMesh::new_unchecked(vertices, segments)
    }
}

impl<A: Copy> IndSegMesh<Vect<A>> {
    /// The wireframe of the facets of an STL file: every corner once, every
    /// edge once.
    pub fn from_stl(stl: &Stl<A>) -> (mesh: IndSegMesh<Vect<A>>) where A: HPEq
        ensures
            mesh.wf(),
            eq_exact::<A>() ==> (mesh.vertices@, mesh.segments@) == wireframe_of(stl.triangles@),
    {
        let mut vertices: Vec<Vect<A>> = Vec::new();
        let mut segments: Vec<IndSeg> = Vec::new();

        let mut k: usize = 0;
        while k < stl.triangles.len()
            invariant
                k <= stl.triangles.len(),
                in_range(segments@, vertices@.len()),
                eq_exact::<A>() ==> (vertices@, segments@) == wireframe_of(
                    stl.triangles@.take(k as int),
                ),
            decreases stl.triangles.len() - k,
        {
            let triangle = &stl.triangles[k];
            assert(stl.triangles@.take(k + 1).drop_last() == stl.triangles@.take(k as int));
            let (a, b, c) = triangle.vertices();

            let a = push_vertex(&mut vertices, a);
            let b = push_vertex(&mut vertices, b);
            let c = push_vertex(&mut vertices, c);

            let ab = IndSeg::new(a, b);
            let bc = IndSeg::new(b, c);
            let ca = IndSeg::new(c, a);

            proof {
                let n = vertices@.len();
                lemma_with_segment_in_range(segments@, ab, n);
                lemma_with_segment_in_range(with_segment(segments@, ab), bc, n);
                lemma_with_segment_in_range(with_segment(with_segment(segments@, ab), bc), ca, n);
            }
            push_segment(&mut segments, ab);
            push_segment(&mut segments, bc);
            push_segment(&mut segments, ca);
            k += 1;
        }
        assert(stl.triangles@.take(k as int) == stl.triangles@);

        IndSegMesh::new_unchecked(vertices, segments)
    }
}

/// The number of contour points that `stem_contour` asks for at most.
pub const STEM_CONTOUR_MAX: usize = 10_000;

/// The mesh that flat lists of values describe: three values for each vertex,
/// two indices for each segment. None where a list has a length that does not
/// fit.
pub fn mesh_of_values<A: Copy>(vertex_values: &[A], segment_values: &[usize]) -> (r: Option<
    IndSegMesh<Vect<A>>,
>)
    ensures
        r is Some <==> vertex_values@.len() % 3 == 0 && segment_values@.len() % 2 == 0,
        r is Some ==> {
            let mesh = r->0;
            &&& mesh.vertices@.len() == vertex_values@.len() / 3
            &&& mesh.segments@.len() == segment_values@.len() / 2
            &&& forall|i: int|
                0 <= i < mesh.vertices@.len() ==> #[trigger] mesh.vertices@[i] == (
                    vertex_values@[3 * i],
                    vertex_values@[3 * i + 1],
                    vertex_values@[3 * i + 2],
                )
            &&& forall|i: int|
                0 <= i < mesh.segments@.len() ==> #[trigger] mesh.segments@[i] == (IndSeg {
                    a: segment_values@[2 * i],
                    b: segment_values@[2 * i + 1],
                })
        },
{
    if vertex_values.len() % 3 != 0 || segment_values.len() % 2 != 0 {
        return None;
    }
    let vertices_len = vertex_values.len() / 3;
    let segments_len = segment_values.len() / 2;

    let mut vertices: Vec<Vect<A>> = Vec::new();
    let mut segments: Vec<IndSeg> = Vec::new();

    let mut i: usize = 0;
    while i < vertices_len
        invariant
            i <= vertices_len,
            vertices_len == vertex_values@.len() / 3,
            vertex_values@.len() % 3 == 0,
            vertex_values@.len() <= usize::MAX,
            vertices@.len() == i,
            forall|j: int|
                0 <= j < i ==> #[trigger] vertices@[j] == (
                    vertex_values@[3 * j],
                    vertex_values@[3 * j + 1],
                    vertex_values@[3 * j + 2],
                ),
        decreases vertices_len - i,
    {
        let offset = i * 3;

        let x = vertex_values[offset];
        let y = vertex_values[offset + 1];
        let z = vertex_values[offset + 2];

        vertices.push((x, y, z));
        i += 1;
    }

    let mut i: usize = 0;
    while i < segments_len
        invariant
            i <= segments_len,
            segments_len == segment_values@.len() / 2,
            segment_values@.len() % 2 == 0,
            segment_values@.len() <= usize::MAX,
            segments@.len() == i,
            forall|j: int|
                0 <= j < i ==> #[trigger] segments@[j] == (IndSeg {
                    a: segment_values@[2 * j],
                    b: segment_values@[2 * j + 1],
                }),
        decreases segments_len - i,
    {
        let offset = i * 2;

        let a = segment_values[offset];
        let b = segment_values[offset + 1];

        segments.push(IndSeg::new(a, b));
        i += 1;
    }

    Some(IndSegMesh::new_unchecked(vertices, segments))
}

/// The vertices of a mesh in space as the contour of its stem sees them:
/// turned about the y axis by `inclination`, then about the z axis by
/// `anteversion`, then projected along the y axis.
pub open spec fn stem_points<A: Float>(points: Seq<Vect<A>>, inclination: A, anteversion: A) -> Seq<
    d2::prim::Vect<A>,
> {
    Seq::new(
        points.len(),
        |i: int|
            {
                let turned = rot_z_of(rot_y_of(points[i], inclination), anteversion);
                (turned.0, turned.2)
            },
    )
}

/// The projection of a point in space along the y axis.
pub fn along_y<A: Copy>(vertex: &Vect<A>) -> (r: d2::prim::Vect<A>)
    ensures
        r == (vertex.0, vertex.2),
{
    (vertex.x(), vertex.z())
}

/// The outer contour of a mesh in space, seen along the y axis after the mesh
/// was turned about the y axis by `inclination` and about the z axis by
/// `anteversion`; of at most `STEM_CONTOUR_MAX` points.
pub fn stem_contour<A: Float + HPOrd>(
    mesh: &IndSegMesh<Vect<A>>,
    inclination: A,
    anteversion: A,
) -> (r: Option<Vec<d2::prim::Vect<A>>>)
    requires
        mesh.wf(),
        total::<A>(),
    ensures
        mesh.vertices.len() == 0 ==> r is None,
        r is Some ==> 1 <= r->0.len() <= STEM_CONTOUR_MAX,
        exact::<A>() ==> match r {
            Some(contour) => contour_of(
                stem_points(mesh.vertices@, inclination, anteversion),
                mesh.segments@,
                STEM_CONTOUR_MAX as nat,
            ) == Some(contour@),
            None => contour_of(
                stem_points(mesh.vertices@, inclination, anteversion),
                mesh.segments@,
                STEM_CONTOUR_MAX as nat,
            ) is None,
        },
{
    let turned = mesh.rotate_y(inclination).rotate_z(anteversion);
    let flat = turned.proj_2d(along_y);
    assert(exact::<A>() ==> flat.points() =~= stem_points(
        mesh.vertices@,
        inclination,
        anteversion,
    ));

    flat.rrcontour(STEM_CONTOUR_MAX)
}

} // verus!
