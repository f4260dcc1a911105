use image::{Rgb, RgbImage};
use std::ops::{Add, Div, Mul, Neg, Rem, Sub};
use tg::conv::Cast;
use tg::draw::rast::{draw_seg_float, fill_shape_float, horizontal_flip, seg_rect, Raster};
use tg::geom::d2::prim::rect::PRect;
use tg::geom::d2::prim::seg::PSeg;
use tg::geom::d2::prim::tri::PTri;
use tg::num::{Float, One, Two, Zero};

/// A double precision number as the scalar of the values under test.
#[derive(Clone, Copy, Debug, PartialEq, PartialOrd)]
struct F(f64);

impl Add for F {
    type Output = F;

    fn add(self, other: F) -> F {
        F(self.0 + other.0)
    }
}

impl Sub for F {
    type Output = F;

    fn sub(self, other: F) -> F {
        F(self.0 - other.0)
    }
}

impl Mul for F {
    type Output = F;

    fn mul(self, other: F) -> F {
        F(self.0 * other.0)
    }
}

impl Div for F {
    type Output = F;

    fn div(self, other: F) -> F {
        F(self.0 / other.0)
    }
}

impl Rem for F {
    type Output = F;

    fn rem(self, other: F) -> F {
        F(self.0 % other.0)
    }
}

impl Neg for F {
    type Output = F;

    fn neg(self) -> F {
        F(-self.0)
    }
}

impl Zero for F {
    fn zero() -> F {
        F(0.0)
    }
}

impl One for F {
    fn one() -> F {
        F(1.0)
    }
}

impl Two for F {
    fn two() -> F {
        F(2.0)
    }
}

impl Float for F {
    fn sqrt(self) -> F {
        F(self.0.sqrt())
    }

    fn sin(self) -> F {
        F(self.0.sin())
    }

    fn cos(self) -> F {
        F(self.0.cos())
    }

    fn acos(self) -> F {
        F(self.0.acos())
    }

    fn pi() -> F {
        F(std::f64::consts::PI)
    }
}

fn v(x: f64, y: f64) -> (F, F) {
    (F(x), F(y))
}

impl Cast<u32> for F {
    fn cast(self) -> u32 {
        self.0 as u32
    }
}

impl Cast<F> for u32 {
    fn cast(self) -> F {
        F(self as f64)
    }
}

fn painted(raster: &Raster, color: [u8; 3]) -> Vec<(u32, u32)> {
    let mut found = Vec::new();
    for x in 0..raster.image.width() {
        for y in 0..raster.image.height() {
            if raster.image.get_pixel(x, y).0 == color {
                found.push((x, y));
            }
        }
    }
    found
}

#[test]
fn flip_exchanges_the_rows() {
    let mut raster = Raster { image: RgbImage::new(2, 3) };
    for x in 0..2u32 {
        for y in 0..3u32 {
            raster.image.put_pixel(x, y, Rgb([x as u8, y as u8, 9]));
        }
    }
    horizontal_flip(&mut raster);
    assert_eq!(raster.image.dimensions(), (2, 3));
    for x in 0..2u32 {
        for y in 0..3u32 {
            assert_eq!(raster.image.get_pixel(x, y).0, [x as u8, 2 - y as u8, 9]);
        }
    }
    let mut empty = Raster { image: RgbImage::new(0, 0) };
    horizontal_flip(&mut empty);
    assert_eq!(empty.image.dimensions(), (0, 0));
}

#[test]
fn rectangle_fills_the_pixels_whose_middle_it_contains() {
    let mut raster = Raster { image: RgbImage::new(6, 6) };
    let rect = PRect::new_unchecked(v(1.0, 1.0), v(4.0, 1.0), v(4.0, 3.0), v(1.0, 3.0));
    fill_shape_float(&mut raster, rect, |_point: (F, F)| (255u8, 0u8, 7u8));
    assert_eq!(
        painted(&raster, [255, 0, 7]),
        vec![(1, 1), (1, 2), (2, 1), (2, 2), (3, 1), (3, 2)]
    );
    assert_eq!(painted(&raster, [0, 0, 0]).len(), 30);
}

#[test]
fn triangle_fill_takes_the_colour_from_the_point() {
    let mut raster = Raster { image: RgbImage::new(4, 4) };
    let tri = PTri::new(v(0.0, 0.0), v(4.0, 0.0), v(0.0, 4.0));
    fill_shape_float(&mut raster, tri, |point: (F, F)| {
        ((point.0 .0 * 10.0) as u8, (point.1 .0 * 10.0) as u8, 1u8)
    });
    // the middles with x + y <= 4
    let mut expected = Vec::new();
    for x in 0..4u32 {
        for y in 0..4u32 {
            if x + y + 1 <= 4 {
                expected.push((x, y));
                assert_eq!(raster.image.get_pixel(x, y).0, [(x * 10 + 5) as u8, (y * 10 + 5) as u8, 1]);
            } else {
                assert_eq!(raster.image.get_pixel(x, y).0, [0, 0, 0]);
            }
        }
    }
    assert_eq!(expected.len(), 10);
}

#[test]
fn shapes_beyond_the_image_are_cut_off() {
    let mut raster = Raster { image: RgbImage::new(3, 2) };
    let rect = PRect::new_unchecked(v(-5.0, -5.0), v(50.0, -5.0), v(50.0, 50.0), v(-5.0, 50.0));
    fill_shape_float(&mut raster, rect, |_point: (F, F)| (1u8, 2u8, 3u8));
    assert_eq!(painted(&raster, [1, 2, 3]).len(), 6);
    let mut raster = Raster { image: RgbImage::new(3, 2) };
    let rect = PRect::new_unchecked(v(10.0, 10.0), v(20.0, 10.0), v(20.0, 20.0), v(10.0, 20.0));
    fill_shape_float(&mut raster, rect, |_point: (F, F)| (1u8, 2u8, 3u8));
    assert!(painted(&raster, [1, 2, 3]).is_empty());
}

#[test]
fn segment_is_drawn_as_a_rectangle_of_its_width() {
    let rect = seg_rect(PSeg::new(v(1.0, 2.0), v(5.0, 2.0)), F(2.0));
    assert_eq!((rect.a, rect.b, rect.c, rect.d), (v(1.0, 3.0), v(5.0, 3.0), v(5.0, 1.0), v(1.0, 1.0)));
    let mut raster = Raster { image: RgbImage::new(7, 5) };
    draw_seg_float(&mut raster, PSeg::new(v(1.0, 2.0), v(5.0, 2.0)), |_point: (F, F)| (9u8, 9u8, 9u8), F(2.0));
    assert_eq!(
        painted(&raster, [9, 9, 9]),
        vec![(1, 1), (1, 2), (2, 1), (2, 2), (3, 1), (3, 2), (4, 1), (4, 2)]
    );
}
