use vstd::prelude::*;
use crate::map::{WorldMap, ELEVATION_SCALE};

verus! {

#[verifier::external_type_specification]
#[verifier::external_body]
pub struct ExImage(bmp::Image);

/// The pixels of a bitmap, keyed by `(x, y)` with `(0, 0)` the upper left corner,
/// as `(r, g, b)`; the keys are exactly the points of the image.
pub uninterp spec fn image_pixels(img: bmp::Image) -> Map<(u32, u32), (u8, u8, u8)>;

/// Largest side length, in pixels, for which the bitmap's size fields cannot overflow.
pub const MAX_IMAGE_SIDE: u32 = 16384;

/// Relies on `bmp::Image::new`: an all-black image of the given size. Its size
/// arithmetic is done in `u32`, which the bound on each side keeps from overflowing.
#[verifier::external_body]
fn new_image(width: u32, height: u32) -> (r: bmp::Image)
    requires
        width <= MAX_IMAGE_SIDE,
        height <= MAX_IMAGE_SIDE,
    ensures
        image_pixels(r) == Map::new(
            |k: (u32, u32)| k.0 < width && k.1 < height,
            |k: (u32, u32)| (0u8, 0u8, 0u8),
        ),
{
    bmp::Image::new(width, height)
}

/// Relies on `bmp::Image::set_pixel`: overwrites the one pixel at `(x, y)`, which must
/// lie inside the image; the pixel is built with `bmp::Pixel::new`.
#[verifier::external_body]
fn set_gray(img: &mut bmp::Image, x: u32, y: u32, level: u8)
    requires
        image_pixels(*old(img)).dom().contains((x, y)),
    ensures
        image_pixels(*final(img)) == image_pixels(*old(img)).insert((x, y), (level, level, level)),
{
    img.set_pixel(x, y, bmp::Pixel::new(level, level, level))
}

/// The grey level of an elevation: `256 * e / ELEVATION_SCALE`, capped at 255.
pub open spec fn gray_of(e: int) -> u8 {
    let g = e * 256 / (ELEVATION_SCALE as int);
    if g > 255 {
        255u8
    } else {
        g as u8
    }
}

/// The grey pixel drawn for cell `(x, y)` of a row-major heightmap of width `width`.
pub open spec fn gray_pixel(noise: Seq<u16>, width: int, x: int, y: int) -> (u8, u8, u8) {
    let g = gray_of(noise[y * width + x] as int);
    (g, g, g)
}

fn gray_level(e: u16) -> (r: u8)
    requires
        e <= ELEVATION_SCALE,
    ensures
        r == gray_of(e as int),
{
    let g: u32 = (e as u32) * 256 / (ELEVATION_SCALE as u32);
    if g > 255 {
        255
    } else {
        g as u8
    }
}

impl WorldMap {
    /// The heightmap as a greyscale bitmap, one pixel per cell; `None` when a side
    /// of the map exceeds `MAX_IMAGE_SIDE`.
    pub fn heightmap_image(&self) -> (r: Option<bmp::Image>)
        requires
            self.wf(),
        ensures
            r is Some <==> self.spec_width() <= MAX_IMAGE_SIDE && self.spec_height()
                <= MAX_IMAGE_SIDE,
            r is Some ==> image_pixels(r->Some_0) == Map::new(
                |k: (u32, u32)| k.0 < self.spec_width() && k.1 < self.spec_height(),
                |k: (u32, u32)| gray_pixel(self.spec_noise(), self.spec_width() as int, k.0 as int, k.1 as int),
            ),
    {
        let width = self.map_width();
        let height = self.map_height();
        if width > MAX_IMAGE_SIDE as usize || height > MAX_IMAGE_SIDE as usize {
            return None;
        }
        let w = width as u32;
        let h = height as u32;
        let ghost noise = self.spec_noise();
        let mut img = new_image(w, h);
        let mut y: u32 = 0;
        while y < h
            invariant
                self.wf(),
                w == self.spec_width(),
                h == self.spec_height(),
                w <= MAX_IMAGE_SIDE,
                h <= MAX_IMAGE_SIDE,
                noise == self.spec_noise(),
                0 <= y <= h,
                image_pixels(img) == Map::new(
                    |k: (u32, u32)| k.0 < w && k.1 < h,
                    |k: (u32, u32)|
                        if k.1 < y {
                            gray_pixel(noise, w as int, k.0 as int, k.1 as int)
                        } else {
                            (0u8, 0u8, 0u8)
                        },
                ),
            decreases h - y,
        {
            let mut x: u32 = 0;
            while x < w
                invariant
                    self.wf(),
                    w == self.spec_width(),
                    h == self.spec_height(),
                    w <= MAX_IMAGE_SIDE,
                    h <= MAX_IMAGE_SIDE,
                    noise == self.spec_noise(),
                    0 <= y < h,
                    0 <= x <= w,
                    image_pixels(img) == Map::new(
                        |k: (u32, u32)| k.0 < w && k.1 < h,
                        |k: (u32, u32)|
                            if k.1 < y || (k.1 == y && k.0 < x) {
                                gray_pixel(noise, w as int, k.0 as int, k.1 as int)
                            } else {
                                (0u8, 0u8, 0u8)
                            },
                    ),
                decreases w - x,
            {
                let e = self.noise_at(x as usize, y as usize);
                let level = gray_level(e);
                let ghost before = image_pixels(img);
                set_gray(&mut img, x, y, level);
                proof {
                    assert(image_pixels(img) =~= Map::new(
                        |k: (u32, u32)| k.0 < w && k.1 < h,
                        |k: (u32, u32)|
                            if k.1 < y || (k.1 == y && k.0 < x + 1) {
                                gray_pixel(noise, w as int, k.0 as int, k.1 as int)
                            } else {
                                (0u8, 0u8, 0u8)
                            },
                    ));
                }
                x = x + 1;
            }
            proof {
                assert(image_pixels(img) =~= Map::new(
                    |k: (u32, u32)| k.0 < w && k.1 < h,
                    |k: (u32, u32)|
                        if k.1 < y + 1 {
                            gray_pixel(noise, w as int, k.0 as int, k.1 as int)
                        } else {
                            (0u8, 0u8, 0u8)
                        },
                ));
            }
            y = y + 1;
        }
        proof {
            assert(image_pixels(img) =~= Map::new(
                |k: (u32, u32)| k.0 < w && k.1 < h,
                |k: (u32, u32)| gray_pixel(noise, w as int, k.0 as int, k.1 as int),
            ));
        }
        Some(img)
    }
}

} // verus!
