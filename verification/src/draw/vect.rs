use vstd::prelude::*;
use crate::geom::d2::prim::seg::{Ends, Segment};
use crate::geom::d2::prim::vect::Vect;

verus! {

/// One step of a vector path.
pub enum PathStep<A> {
    /// go to the point without drawing
    MoveTo(Vect<A>),
    /// draw a line to the point
    LineTo(Vect<A>),
}

/// The two steps that draw a segment from `a` to `b`.
pub open spec fn segment_steps<A>(a: Vect<A>, b: Vect<A>) -> Seq<PathStep<A>> {
    seq![PathStep::MoveTo(a), PathStep::LineTo(b)]
}

/// The steps that draw the first `k` segments one after the other.
pub open spec fn segments_steps<Seg: Segment>(segments: Seq<Seg>, k: nat) -> Seq<
    PathStep<Seg::Val>,
>
    decreases k,
{
    if k == 0 {
        Seq::empty()
    } else {
        segments_steps(segments, (k - 1) as nat) + segment_steps(
            segments[k - 1].a_spec(),
            segments[k - 1].b_spec(),
        )
    }
}

/// The path that draws one segment.
pub fn draw_segment_to_path<Seg: Segment>(segment: Seg) -> (path: Vec<PathStep<Seg::Val>>)
    requires
        segment.wf(),
    ensures
        path.len() == 2,
        Seg::exact() ==> path@ == segment_steps(segment.a_spec(), segment.b_spec()),
{
    let a = segment.a();
    let b = segment.b();

    let mut data = Vec::new();
    data.push(PathStep::MoveTo(a));
    data.push(PathStep::LineTo(b));
    data
}

/// The one path that draws all segments, each with a move and a line.
pub fn draw_segments_to_path<Seg: Segment>(segments: &Vec<Seg>) -> (path: Vec<
    PathStep<Seg::Val>,
>)
    requires
        forall|i: int| 0 <= i < segments.len() ==> (#[trigger] segments[i]).wf(),
    ensures
        path.len() == 2 * segments.len(),
        Seg::exact() ==> path@ == segments_steps(segments@, segments@.len()),
{
    let mut data: Vec<PathStep<Seg::Val>> = Vec::new();

    let mut k: usize = 0;
    while k < segments.len()
        invariant
            k <= segments.len(),
            forall|i: int| 0 <= i < segments.len() ==> (#[trigger] segments[i]).wf(),
            data.len() == 2 * k,
            Seg::exact() ==> data@ == segments_steps(segments@, k as nat),
        decreases segments.len() - k,
    {
        let a = segments[k].a();
        let b = segments[k].b();

        let ghost before = data@;
        data.push(PathStep::MoveTo(a));
        data.push(PathStep::LineTo(b));
        assert(data@ == before + segment_steps(a, b));
        k += 1;
    }
    data
}

/// One path for each segment.
pub fn draw_segments_to_paths<Seg: Segment>(segments: &Vec<Seg>) -> (paths: Vec<
    Vec<PathStep<Seg::Val>>,
>)
    requires
        forall|i: int| 0 <= i < segments.len() ==> (#[trigger] segments[i]).wf(),
    ensures
        paths.len() == segments.len(),
        Seg::exact() ==> forall|i: int|
            0 <= i < segments.len() ==> (#[trigger] paths[i])@ == segment_steps(
                segments[i].a_spec(),
                segments[i].b_spec(),
            ),
{
    let mut paths: Vec<Vec<PathStep<Seg::Val>>> = Vec::new();

    let mut k: usize = 0;
    while k < segments.len()
        invariant
            k <= segments.len(),
            forall|i: int| 0 <= i < segments.len() ==> (#[trigger] segments[i]).wf(),
            paths.len() == k,
            Seg::exact() ==> forall|i: int|
                0 <= i < k ==> (#[trigger] paths[i])@ == segment_steps(
                    segments[i].a_spec(),
                    segments[i].b_spec(),
                ),
        decreases segments.len() - k,
    {
        let a = segments[k].a();
        let b = segments[k].b();

        let mut data = Vec::new();
        data.push(PathStep::MoveTo(a));
        data.push(PathStep::LineTo(b));
        assert(data@ == segment_steps(a, b));

        paths.push(data);
        k += 1;
    }
    paths
}

} // verus!
