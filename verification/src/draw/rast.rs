use vstd::prelude::*;
use image::{Rgb, RgbImage};
use crate::conv::Cast;
use crate::geom::d2::prim::rect::PRect;
use crate::geom::d2::prim::seg::Segment;
use crate::geom::d2::prim::vect::{
    len_of, orth_l_of, orth_r_of, splat, v_max, v_min, v_prod, v_sum, Coords, Vect, Vector,
};
use crate::geom::d2::shape::d2::{Bounds, Shape};
use crate::num::{exact, float_exact, total, Float, One, Two, Zero};
use crate::ops::{add_exact, arith_total, div_exact, neg_exact, quot, HAdd, HDiv};
use crate::rel::HPOrd;

verus! {

/// A pixel image of red, green and blue bytes: an `image::RgbImage`.
///
/// The verifier does not look into the image. What it holds goes by the
/// names `raster_size` and `raster_pixels`, and the three functions that
/// read and write it say in those terms what the methods of
/// `image::ImageBuffer` do.
#[verifier::external_body]
pub struct Raster {
    pub image: RgbImage,
}

/// A colour: red, green, blue.
pub type Color = (u8, u8, u8);

/// The width and the height of a raster, as `ImageBuffer::dimensions` gives
/// them.
pub uninterp spec fn raster_size(raster: Raster) -> (u32, u32);

/// The colour of every pixel of a raster, by column and row, as
/// `ImageBuffer::get_pixel` gives it.
pub uninterp spec fn raster_pixels(raster: Raster) -> Map<(u32, u32), Color>;

/// Reads with `ImageBuffer::dimensions`: the width and the height.
#[verifier::external_body]
fn dimensions(raster: &Raster) -> (r: (u32, u32))
    ensures
        r == raster_size(*raster),
{
    raster.image.dimensions()
}

/// Reads with `ImageBuffer::get_pixel`: the red, green and blue of the pixel
/// in column `x` and row `y`. The call panics outside of the image.
#[verifier::external_body]
fn get_pixel(raster: &Raster, x: u32, y: u32) -> (r: Color)
    requires
        x < raster_size(*raster).0,
        y < raster_size(*raster).1,
    ensures
        r == raster_pixels(*raster)[(x, y)],
{
    let pixel = raster.image.get_pixel(x, y);
    (pixel.0[0], pixel.0[1], pixel.0[2])
}

/// Writes with `ImageBuffer::put_pixel`: the pixel in column `x` and row `y`
/// gets the colour, every other pixel and the size stay as they are. The call
/// panics outside of the image.
#[verifier::external_body]
fn put_pixel(raster: &mut Raster, x: u32, y: u32, color: Color)
    requires
        x < raster_size(*old(raster)).0,
        y < raster_size(*old(raster)).1,
    ensures
        raster_size(*final(raster)) == raster_size(*old(raster)),
        raster_pixels(*final(raster)) == raster_pixels(*old(raster)).insert((x, y), color),
{
    raster.image.put_pixel(x, y, Rgb([color.0, color.1, color.2]))
}

/// Mirrors the image top to bottom: every row changes place with the row
/// that is as far from the other end.
pub fn horizontal_flip(image: &mut Raster)
    ensures
        raster_size(*final(image)) == raster_size(*old(image)),
        forall|x: u32, y: u32|
            x < raster_size(*old(image)).0 && y < raster_size(*old(image)).1
                ==> #[trigger] raster_pixels(*final(image))[(x, y)] == raster_pixels(
                *old(image),
            )[(x, (raster_size(*old(image)).1 - 1 - y) as u32)],
{
    let (width, height) = dimensions(image);

    let mut y: u32 = 0;
    while y < height / 2
        invariant
            y <= height / 2,
            (width, height) == raster_size(*image),
            raster_size(*image) == raster_size(*old(image)),
            forall|i: u32, j: u32|
                i < width && j < height ==> #[trigger] raster_pixels(*image)[(i, j)] == if j < y
                    || j >= height - y {
                    raster_pixels(*old(image))[(i, (height - 1 - j) as u32)]
                } else {
                    raster_pixels(*old(image))[(i, j)]
                },
        decreases height / 2 - y,
    {
        let mut x: u32 = 0;
        while x < width
            invariant
                x <= width,
                y < height / 2,
                (width, height) == raster_size(*image),
                raster_size(*image) == raster_size(*old(image)),
                forall|i: u32, j: u32|
                    i < width && j < height ==> #[trigger] raster_pixels(*image)[(i, j)] == if j
                        < y || j >= height - y || (i < x && (j == y || j == height - y - 1)) {
                        raster_pixels(*old(image))[(i, (height - 1 - j) as u32)]
                    } else {
                        raster_pixels(*old(image))[(i, j)]
                    },
            decreases width - x,
        {
            let a = get_pixel(image, x, y);
            let b = get_pixel(image, x, height - y - 1);

            put_pixel(image, x, y, b);
            put_pixel(image, x, height - y - 1, a);
            x += 1;
        }
        y += 1;
    }
}

/// The middle of the pixel in column `x` and row `y`, as a point of the plane.
pub open spec fn pixel_center<A: One + Two + HAdd + HDiv>(x: u32, y: u32) -> Vect<A> where
    u32: Cast<A>,
 {
    v_sum(
        (Cast::<A>::cast_spec(x), Cast::<A>::cast_spec(y)),
        splat(quot(A::one_spec(), A::two_spec())),
    )
}

/// The pixels that can lie in a shape with the given bounds, in an image of
/// the given size: from the first to before the second corner returned.
pub open spec fn fill_range<A: Cast<u32>>(corners: (Vect<A>, Vect<A>), size: (u32, u32)) -> (
    Vect<u32>,
    Vect<u32>,
) {
    let (start, end) = corners;
    let a = (Cast::<u32>::cast_spec(start.0), Cast::<u32>::cast_spec(start.1));
    let b = (Cast::<u32>::cast_spec(end.0), Cast::<u32>::cast_spec(end.1));
    (v_max((0u32, 0u32), v_min(a, b)), v_min(size, v_max(a, b)))
}

/// The pixel in column `x` and row `y` lies in the range.
pub open spec fn in_fill_range(range: (Vect<u32>, Vect<u32>), x: u32, y: u32) -> bool {
    let (start, end) = range;
    start.0 <= x < end.0 && start.1 <= y < end.1
}

/// The pixel comes before the pixel in column `at_x` and row `at_y`, where
/// the range is gone through column after column.
pub open spec fn filled_before(
    range: (Vect<u32>, Vect<u32>),
    x: u32,
    y: u32,
    at_x: u32,
    at_y: u32,
) -> bool {
    in_fill_range(range, x, y) && (x < at_x || x == at_x && y < at_y)
}

/// Paints every pixel whose middle the shape contains with the colour that
/// `color` gives for that middle.
pub fn fill_shape_float<Sh: Shape, Func: Fn(Vect<Sh::Val>) -> Color>(
    image: &mut Raster,
    shape: Sh,
    color: Func,
) where Sh::Val: One + Two + Float + Cast<u32>, u32: Cast<Sh::Val>
    requires
        shape.wf(),
        forall|point: Vect<Sh::Val>| shape.can_contain(point),
        arith_total::<Sh::Val>(),
        forall|point: Vect<Sh::Val>| color.requires((point,)),
    ensures
        raster_size(*final(image)) == raster_size(*old(image)),
        forall|x: u32, y: u32|
            #![trigger raster_pixels(*final(image))[(x, y)]]
            raster_pixels(*final(image))[(x, y)] == raster_pixels(*old(image))[(x, y)]
                || exists|point: Vect<Sh::Val>|
                color.ensures((point,), raster_pixels(*final(image))[(x, y)]),
        Sh::exact() && add_exact::<Sh::Val>() && div_exact::<Sh::Val>() ==> forall|x: u32, y: u32|
            #![trigger raster_pixels(*final(image))[(x, y)]]
            if in_fill_range(fill_range(shape.bounds_spec(), raster_size(*old(image))), x, y)
                && shape.contains_spec(pixel_center(x, y)) {
                color.ensures((pixel_center(x, y),), raster_pixels(*final(image))[(x, y)])
            } else {
                raster_pixels(*final(image))[(x, y)] == raster_pixels(*old(image))[(x, y)]
            },
{
    let half = Sh::Val::one() / Sh::Val::two();

    let size = dimensions(image);
    let im_bounds = Bounds::with_zero_unchecked(size);
    let corners = shape.bounds();
    let sh_start = (
        <Sh::Val as Cast<u32>>::cast(corners.start.x()),
        <Sh::Val as Cast<u32>>::cast(corners.start.y()),
    );
    let sh_end = (
        <Sh::Val as Cast<u32>>::cast(corners.end.x()),
        <Sh::Val as Cast<u32>>::cast(corners.end.y()),
    );
    let sh_bounds = Bounds::new(sh_start, sh_end);

    let bounds = im_bounds.clamp(sh_bounds);
    let start = bounds.start();
    let end = bounds.end();
    let ghost range = (start, end);
    let ghost known = Sh::exact() && add_exact::<Sh::Val>() && div_exact::<Sh::Val>();
    assert(end.0 <= size.0 && end.1 <= size.1);
    assert(known ==> range == fill_range(shape.bounds_spec(), size));

    let mut x = start.x();
    while x < end.x()
        invariant
            shape.wf(),
            forall|point: Vect<Sh::Val>| shape.can_contain(point),
            arith_total::<Sh::Val>(),
            forall|point: Vect<Sh::Val>| color.requires((point,)),
            size == raster_size(*image),
            raster_size(*image) == raster_size(*old(image)),
            range == (start, end),
            end.0 <= size.0 && end.1 <= size.1,
            start.0 <= x,
            known == (Sh::exact() && add_exact::<Sh::Val>() && div_exact::<Sh::Val>()),
            known ==> half == quot(Sh::Val::one_spec(), Sh::Val::two_spec()),
            forall|i: u32, j: u32|
                #![trigger raster_pixels(*image)[(i, j)]]
                raster_pixels(*image)[(i, j)] == raster_pixels(*old(image))[(i, j)]
                    || exists|point: Vect<Sh::Val>|
                    color.ensures((point,), raster_pixels(*image)[(i, j)]),
            known ==> forall|i: u32, j: u32|
                #![trigger raster_pixels(*image)[(i, j)]]
                if filled_before(range, i, j, x, 0) && shape.contains_spec(pixel_center(i, j)) {
                    color.ensures((pixel_center(i, j),), raster_pixels(*image)[(i, j)])
                } else {
                    raster_pixels(*image)[(i, j)] == raster_pixels(*old(image))[(i, j)]
                },
        decreases end.0 - x,
    {
        let mut y = start.y();
        while y < end.y()
            invariant
                shape.wf(),
                forall|point: Vect<Sh::Val>| shape.can_contain(point),
                arith_total::<Sh::Val>(),
                forall|point: Vect<Sh::Val>| color.requires((point,)),
                size == raster_size(*image),
                raster_size(*image) == raster_size(*old(image)),
                range == (start, end),
                end.0 <= size.0 && end.1 <= size.1,
                start.0 <= x < end.0,
                start.1 <= y,
                known == (Sh::exact() && add_exact::<Sh::Val>() && div_exact::<Sh::Val>()),
                known ==> half == quot(Sh::Val::one_spec(), Sh::Val::two_spec()),
                forall|i: u32, j: u32|
                    #![trigger raster_pixels(*image)[(i, j)]]
                    raster_pixels(*image)[(i, j)] == raster_pixels(*old(image))[(i, j)]
                        || exists|point: Vect<Sh::Val>|
                        color.ensures((point,), raster_pixels(*image)[(i, j)]),
                known ==> forall|i: u32, j: u32|
                    #![trigger raster_pixels(*image)[(i, j)]]
                    if filled_before(range, i, j, x, y) && shape.contains_spec(
                        pixel_center(i, j),
                    ) {
                        color.ensures((pixel_center(i, j),), raster_pixels(*image)[(i, j)])
                    } else {
                        raster_pixels(*image)[(i, j)] == raster_pixels(*old(image))[(i, j)]
                    },
            decreases end.1 - y,
        {
            let point = (<u32 as Cast<Sh::Val>>::cast(x), <u32 as Cast<Sh::Val>>::cast(y)).vadd(
                half,
            );

            if shape.contains(&point) {
                let pixel = color(point);
                put_pixel(image, x, y, pixel);
            }
            y += 1;
        }
        x += 1;
    }
}

/// The rectangle of the given width around the segment from `a` along `ab`:
/// its corners lie half the width to the left and to the right of the two
/// ends.
pub open spec fn seg_rect_of<A: Float>(a: Vect<A>, b: Vect<A>, ab: Vect<A>, width: A) -> PRect<
    Vect<A>,
> {
    let scalar = quot(quot(width, A::two_spec()), len_of(ab));
    let offset_l = v_prod(orth_l_of(ab), splat(scalar));
    let offset_r = v_prod(orth_r_of(ab), splat(scalar));
    PRect {
        a: v_sum(a, offset_l),
        b: v_sum(b, offset_l),
        c: v_sum(b, offset_r),
        d: v_sum(a, offset_r),
    }
}

/// The rectangle that a line of the given width covers along the segment.
pub fn seg_rect<Seg: Segment>(seg: Seg, width: Seg::Val) -> (r: PRect<Vect<Seg::Val>>) where
    Seg::Val: Float,

    requires
        seg.wf(),
        total::<Seg::Val>(),
    ensures
        Seg::exact() && float_exact::<Seg::Val>() && neg_exact::<Seg::Val>() ==> r == seg_rect_of(
            seg.a_spec(),
            seg.b_spec(),
            seg.ab_spec(),
            width,
        ),
{
    let half_width = width / Seg::Val::two();

    let seg_ab = seg.ab();
    let scalar = half_width / seg_ab.len();

    let offset_l = seg_ab.orth_l().vmul(scalar);
    let offset_r = seg_ab.orth_r().vmul(scalar);

    let seg_a = seg.a();
    let seg_b = seg.b();

    let a = seg_a.add(&offset_l);
    let b = seg_b.add(&offset_l);
    let c = seg_b.add(&offset_r);
    let d = seg_a.add(&offset_r);

    PRect::new_unchecked(a, b, c, d)
}

/// Draws the segment as a line of the given width: paints every pixel whose
/// middle lies in the rectangle around the segment.
pub fn draw_seg_float<Seg: Segment, Func: Fn(Vect<Seg::Val>) -> Color>(
    image: &mut Raster,
    seg: Seg,
    color: Func,
    width: Seg::Val,
) where Seg::Val: Zero + One + Two + Float + Cast<u32> + HPOrd, u32: Cast<Seg::Val>
    requires
        seg.wf(),
        total::<Seg::Val>(),
        forall|point: Vect<Seg::Val>| color.requires((point,)),
    ensures
        raster_size(*final(image)) == raster_size(*old(image)),
        forall|x: u32, y: u32|
            #![trigger raster_pixels(*final(image))[(x, y)]]
            raster_pixels(*final(image))[(x, y)] == raster_pixels(*old(image))[(x, y)]
                || exists|point: Vect<Seg::Val>|
                color.ensures((point,), raster_pixels(*final(image))[(x, y)]),
        Seg::exact() && exact::<Seg::Val>() ==> forall|x: u32, y: u32|
            #![trigger raster_pixels(*final(image))[(x, y)]]
            {
                let rect = seg_rect_of(seg.a_spec(), seg.b_spec(), seg.ab_spec(), width);
                if in_fill_range(fill_range(rect.bounds_spec(), raster_size(*old(image))), x, y)
                    && rect.contains_spec(pixel_center(x, y)) {
                    color.ensures((pixel_center(x, y),), raster_pixels(*final(image))[(x, y)])
                } else {
                    raster_pixels(*final(image))[(x, y)] == raster_pixels(*old(image))[(x, y)]
                }
            },
{
    let rect = seg_rect(seg, width);
    fill_shape_float(image, rect, color);
}

} // verus!
