//! Pixel textures: images held as a plain vector of colors. Loading goes
//! through the ril imaging crate, which shapes and resamples the pixels.

use vstd::prelude::*;
use crate::data::Color;

verus! {

/// A ril image of RGBA pixels. Verus refuses a declaration of the image
/// type itself (its generics carry ril's `Pixel` trait bound), so the value
/// is held opaquely here; everything known about it is said through
/// `image_width`, `image_height` and `image_data`.
#[verifier::external_body]
pub struct RilImage {
    img: ril::Image<ril::Rgba>,
}

/// The pixels of a ril image, row-major, one `(r, g, b, a)` tuple each.
pub uninterp spec fn image_data(img: RilImage) -> Seq<(u8, u8, u8, u8)>;

/// The stored width of a ril image, in pixels.
pub uninterp spec fn image_width(img: RilImage) -> u32;

/// The stored height of a ril image, in pixels.
pub uninterp spec fn image_height(img: RilImage) -> u32;

/// What ril's nearest-neighbour resampling returns: the pixels of the
/// scaled image, row-major, as a function of the source pixels, the source
/// dimensions and the target dimensions alone.
pub uninterp spec fn nearest_scaled(
    data: Seq<(u8, u8, u8, u8)>,
    src_width: u32,
    src_height: u32,
    dst_width: u32,
    dst_height: u32,
) -> Seq<(u8, u8, u8, u8)>;

/// Relies on ril's `Image::from_pixels`: it stores the given width and the
/// given pixels row-major, and derives the height as `pixels.len() / width`.
/// A zero width or a pixel count that is no multiple of the width would
/// panic, and a pixel count of zero or above `u32::MAX` would corrupt the
/// derived height, so all of those are ruled out here.
#[verifier::external_body]
fn image_from_pixels(width: u32, pixels: &Vec<(u8, u8, u8, u8)>) -> (r: RilImage)
    requires
        1 <= width,
        1 <= pixels@.len() <= u32::MAX as int,
        pixels@.len() as int % (width as int) == 0,
    ensures
        image_width(r) == width,
        image_height(r) == pixels@.len() as int / (width as int),
        image_data(r) == pixels@,
{
    RilImage {
        img: ril::Image::from_pixels(
            width,
            pixels
                .iter()
                .map(|p| ril::Rgba { r: p.0, g: p.1, b: p.2, a: p.3 })
                .collect::<Vec<ril::Rgba>>(),
        ),
    }
}

/// Relies on ril's `Image::resize` with `ResizeAlgorithm::Nearest`: it
/// replaces the pixel vector by the nearest-neighbour resampling of the old
/// one and stores the new dimensions, so the new vector has exactly
/// `width * height` pixels. A zero target dimension would panic, and a
/// pixel vector whose length disagrees with the stored dimensions would
/// panic inside the resampler, so both are ruled out here.
#[verifier::external_body]
fn resize_nearest(img: &mut RilImage, width: u32, height: u32)
    requires
        1 <= width,
        1 <= height,
        width as int * height as int <= u32::MAX as int,
        1 <= image_width(*old(img)),
        1 <= image_height(*old(img)),
        image_data(*old(img)).len()
            == image_width(*old(img)) as int * image_height(*old(img)) as int,
    ensures
        image_width(*final(img)) == width,
        image_height(*final(img)) == height,
        image_data(*final(img)) == nearest_scaled(
            image_data(*old(img)),
            image_width(*old(img)),
            image_height(*old(img)),
            width,
            height,
        ),
        image_data(*final(img)).len() == width as int * height as int,
{
    img.img.resize(width, height, ril::ResizeAlgorithm::Nearest);
}

/// Relies on ril's `Image::get_pixel`: it returns the pixel at index
/// `y * width + x` of the pixel vector when `(x, y)` lies inside the
/// dimensions, and `None` otherwise. The index arithmetic is done in
/// 32 bits, so images with more than `u32::MAX` pixels, or whose pixel
/// vector disagrees with the stored dimensions, are ruled out here.
#[verifier::external_body]
fn pixel_at(img: &RilImage, x: u32, y: u32) -> (r: Option<(u8, u8, u8, u8)>)
    requires
        image_data(*img).len() == image_width(*img) as int * image_height(*img) as int,
        image_width(*img) as int * image_height(*img) as int <= u32::MAX as int,
    ensures
        r == (if x < image_width(*img) && y < image_height(*img) {
            Some(image_data(*img)[y as int * image_width(*img) as int + x as int])
        } else {
            None::<(u8, u8, u8, u8)>
        }),
{
    img.img.get_pixel(x, y).map(|p| (p.r, p.g, p.b, p.a))
}

/// The color that a raw `(r, g, b, a)` pixel tuple stands for.
pub open spec fn color_of(p: (u8, u8, u8, u8)) -> Color {
    Color { r: p.0, g: p.1, b: p.2, a: p.3 }
}

/// Whether a row-major pixel vector of width `src_width` is one that a
/// decoded image can have: a whole, positive number of full rows, counted
/// in 32 bits.
pub open spec fn valid_source(src_width: u32, len: int) -> bool {
    &&& 1 <= src_width
    &&& 1 <= len <= u32::MAX as int
    &&& len % (src_width as int) == 0
}

/// `Texture` is a component for storing an image as plain pixels.
///
/// The image is held as a row-major vector of `Color`s: the pixel at
/// `(x, y)` sits at index `y * width + x`.
#[derive(Clone)]
pub struct Texture {
    /// The width of the image, in pixels.
    pub width: usize,

    /// The height of the image, in pixels.
    pub height: usize,

    /// The pixels, row-major: `width * height` of them when well-formed.
    pub pixels: Vec<Color>,
}

impl Texture {
    /// Whether the pixel vector matches the stored dimensions.
    pub open spec fn wf(self) -> bool {
        self.pixels@.len() == self.width as int * self.height as int
    }

    /// Build a `Texture` from decoded image pixels, resampled to `width`
    /// by `height` pixels with ril's nearest-neighbour algorithm.
    ///
    /// `src_pixels` holds the source image row-major, `src_width` pixels
    /// per row. Returns `None` exactly when that shape is malformed: no
    /// full positive number of rows, or more pixels than fit in 32 bits.
    pub fn load_pixels(
        src_width: u32,
        src_pixels: &Vec<(u8, u8, u8, u8)>,
        width: u32,
        height: u32,
    ) -> (t: Option<Texture>)
        requires
            1 <= width,
            1 <= height,
            width as int * height as int <= u32::MAX as int,
        ensures
            t is Some <==> valid_source(src_width, src_pixels@.len() as int),
            t matches Some(texture) ==> ({
                &&& texture.width == width as usize
                &&& texture.height == height as usize
                &&& texture.wf()
                &&& forall|i: int| 0 <= i < texture.pixels@.len()
                    ==> texture.pixels@[i] == color_of(nearest_scaled(
                        src_pixels@,
                        src_width,
                        (src_pixels@.len() as int / (src_width as int)) as u32,
                        width,
                        height,
                    )[i])
            }),
    {
        if src_width < 1 {
            return None;
        }
        let src_len: usize = src_pixels.len();
        if src_len < 1 {
            return None;
        }
        if !(src_len as u64 <= u32::MAX as u64) {
            return None;
        }
        if src_len % (src_width as usize) != 0 {
            return None;
        }
        let mut img = image_from_pixels(src_width, src_pixels);
        proof {
            vstd::arithmetic::div_mod::lemma_fundamental_div_mod(
                src_pixels@.len() as int,
                src_width as int,
            );
        }
        resize_nearest(&mut img, width, height);

        let ghost scaled = image_data(img);
        let mut pixels: Vec<Color> = Vec::new();
        let mut y: u32 = 0;
        while y < height
            invariant
                y <= height,
                1 <= width,
                1 <= height,
                width as int * height as int <= u32::MAX as int,
                image_width(img) == width,
                image_height(img) == height,
                image_data(img) == scaled,
                image_data(img).len() == width as int * height as int,
                pixels@.len() == y as int * width as int,
                forall|i: int| 0 <= i < pixels@.len()
                    ==> pixels@[i] == color_of(image_data(img)[i]),
            decreases height - y,
        {
            let mut x: u32 = 0;
            while x < width
                invariant
                    x <= width,
                    y < height,
                    1 <= width,
                    1 <= height,
                    width as int * height as int <= u32::MAX as int,
                    image_width(img) == width,
                    image_height(img) == height,
                    image_data(img) == scaled,
                    image_data(img).len() == width as int * height as int,
                    pixels@.len() == y as int * width as int + x as int,
                    forall|i: int| 0 <= i < pixels@.len()
                        ==> pixels@[i] == color_of(image_data(img)[i]),
                decreases width - x,
            {
                match pixel_at(&img, x, y) {
                    Some(p) => {
                        pixels.push(Color::rgba(p.0, p.1, p.2, p.3));
                    },
                    None => {
                        // never reached: (x, y) lies inside the resized
                        // dimensions, so pixel_at returns a pixel
                        return None;
                    },
                }
                x = x + 1;
            }
            proof {
                assert((y as int + 1) * width as int == y as int * width as int + width as int)
                    by (nonlinear_arith);
            }
            y = y + 1;
        }

        proof {
            assert(height as int * width as int == width as int * height as int)
                by (nonlinear_arith);
        }
        Some(Texture {
            width: width as usize,
            height: height as usize,
            pixels,
        })
    }

    /// On a well-formed texture, a coordinate inside the dimensions
    /// indexes inside the pixel vector, so `get` accepts it.
    pub proof fn lemma_coordinate_in_bounds(self, x: usize, y: usize)
        requires
            self.wf(),
            x < self.width,
            y < self.height,
        ensures
            y as int * self.width as int + (x as int) < self.pixels@.len(),
    {
        assert(y as int * self.width as int + (x as int)
            < self.width as int * self.height as int) by (nonlinear_arith)
            requires
                (x as int) < self.width as int,
                (y as int) < self.height as int,
                0 <= x as int,
                0 <= y as int;
    }

    /// Returns a reference to the `Color` of the pixel at location
    /// `(x, y)` on the `Texture`: the entry at index `y * width + x` of
    /// the pixel vector, which the caller must keep in bounds.
    pub fn get(&self, x: usize, y: usize) -> (c: &Color)
        requires
            y as int * self.width as int + (x as int) < self.pixels@.len(),
        ensures
            *c == self.pixels@[y as int * self.width as int + x as int],
    {
        // pins the pixel count within usize, for the index arithmetic below
        let _len: usize = self.pixels.len();
        &self.pixels[y * self.width + x]
    }
}

} // verus!
