//! Rendering a two-dimensional grid to a PNG image: nearest-neighbor
//! sampling with half-pixel-center rounding, a colorizer for the pixel
//! values, and an external encoder for the byte format.

use vstd::prelude::*;

use crate::colorizer::{Colorizer, spec_color_at};
use crate::dense_grid::Grid2D;
use crate::error::Error;
use crate::grid::GridSpace;

verus! {

/// The PNG encoding of a `width` by `height` RGBA image; it is a
/// function of the image alone.
pub uninterp spec fn png_encoding(width: u32, height: u32, rgba: Seq<u8>) -> Seq<u8>;

/// Relies on the image library's `RgbaImage::from_raw`, which builds the
/// image exactly from a buffer of four bytes per pixel, and on
/// `DynamicImage::write_to` with the PNG format, whose output depends on
/// the image alone. Writing an RGBA image of non-zero dimensions into an
/// in-memory buffer cannot fail: the encoder rejects only zero
/// dimensions and mismatched buffer lengths, both excluded here.
#[verifier::external_body]
fn encode_rgba_png(width: u32, height: u32, rgba: Vec<u8>) -> (r: Option<Vec<u8>>)
    requires
        width >= 1,
        height >= 1,
        rgba@.len() == 4 * (width as int) * (height as int),
    ensures
        r is Some,
        r matches Some(b) ==> b@ == png_encoding(width, height, rgba@),
{
    let buffer = image::RgbaImage::from_raw(width, height, rgba)?;
    let mut bytes: Vec<u8> = Vec::new();
    image::DynamicImage::ImageRgba8(buffer)
        .write_to(&mut std::io::Cursor::new(&mut bytes), image::ImageFormat::Png)
        .ok()?;
    Some(bytes)
}

/// A pixel value as a fixed-point micro-unit quantity, for the
/// colorizer.
pub trait FixedPixel: Copy {
    spec fn spec_fixed(self) -> int;

    /// Every pixel's micro-unit value fits the fixed-point range.
    proof fn lemma_fixed_in_range(self)
        ensures
            i64::MIN <= self.spec_fixed() <= i64::MAX,
    ;

    fn to_fixed(self) -> (r: i64)
        ensures
            r == self.spec_fixed(),
    ;
}

impl FixedPixel for u8 {
    open spec fn spec_fixed(self) -> int {
        self * 1_000_000
    }

    proof fn lemma_fixed_in_range(self) {
    }

    fn to_fixed(self) -> i64 {
        (self as i64) * 1_000_000
    }
}

impl FixedPixel for u16 {
    open spec fn spec_fixed(self) -> int {
        self * 1_000_000
    }

    proof fn lemma_fixed_in_range(self) {
    }

    fn to_fixed(self) -> i64 {
        (self as i64) * 1_000_000
    }
}

impl FixedPixel for u32 {
    open spec fn spec_fixed(self) -> int {
        self * 1_000_000
    }

    proof fn lemma_fixed_in_range(self) {
    }

    fn to_fixed(self) -> i64 {
        (self as i64) * 1_000_000
    }
}

impl FixedPixel for i8 {
    open spec fn spec_fixed(self) -> int {
        self * 1_000_000
    }

    proof fn lemma_fixed_in_range(self) {
    }

    fn to_fixed(self) -> i64 {
        (self as i64) * 1_000_000
    }
}

impl FixedPixel for i16 {
    open spec fn spec_fixed(self) -> int {
        self * 1_000_000
    }

    proof fn lemma_fixed_in_range(self) {
    }

    fn to_fixed(self) -> i64 {
        (self as i64) * 1_000_000
    }
}

impl FixedPixel for i32 {
    open spec fn spec_fixed(self) -> int {
        self * 1_000_000
    }

    proof fn lemma_fixed_in_range(self) {
    }

    fn to_fixed(self) -> i64 {
        (self as i64) * 1_000_000
    }
}

/// The grid cell an output pixel samples: the pixel's center scaled into
/// the grid, rounded to the nearest cell center (half-pixel-center
/// rounding).
pub open spec fn spec_raster_cell(p: int, dim: int, out: int) -> int {
    ((2 * p + 1) * dim) / (2 * out)
}

/// The sampled cell always lies inside the grid axis.
proof fn lemma_raster_cell_in_range(p: int, dim: int, out: int)
    requires
        0 <= p < out,
        1 <= dim,
        1 <= out,
    ensures
        0 <= spec_raster_cell(p, dim, out) < dim,
{
    assert((2 * p + 1) * dim >= 0) by (nonlinear_arith)
        requires
            p >= 0,
            dim >= 1,
    ;
    vstd::arithmetic::div_mod::lemma_div_pos_is_pos((2 * p + 1) * dim, 2 * out);
    assert((2 * p + 1) * dim < (2 * out) * dim) by (nonlinear_arith)
        requires
            0 <= p < out,
            dim >= 1,
    ;
    vstd::arithmetic::div_mod::lemma_multiply_divide_lt((2 * p + 1) * dim, 2 * out, dim);
}

/// Maps an output pixel coordinate to the grid cell it samples.
pub fn image_pixel_to_raster_pixel(p: u32, dim: usize, out: u32) -> (r: usize)
    requires
        p < out,
        1 <= dim,
        (2 * (out as int)) * dim <= usize::MAX,
    ensures
        r == spec_raster_cell(p as int, dim as int, out as int),
        r < dim,
{
    proof {
        lemma_raster_cell_in_range(p as int, dim as int, out as int);
        assert((2 * (p as int) + 1) * dim <= (2 * (out as int)) * dim) by (nonlinear_arith)
            requires
                0 <= p < out,
                dim >= 1,
        ;
        assert((2 * (out as int)) * dim >= 2 * (out as int)) by (nonlinear_arith)
            requires
                dim >= 1,
                out >= 1,
        ;
    }
    ((2 * (p as usize) + 1) * dim) / (2 * (out as usize))
}

/// The RGBA rendering of a grid through a colorizer: four bytes per
/// output pixel, rows top to bottom.
pub open spec fn spec_rendered_rgba<T: FixedPixel>(
    grid: Grid2D<T>,
    width: u32,
    height: u32,
    colorizer: Colorizer,
) -> Seq<u8> {
    Seq::new(
        (4 * width * height) as nat,
        |i: int|
            {
                let p = i / 4;
                let ch = i % 4;
                let px = p % (width as int);
                let py = p / (width as int);
                let cy = spec_raster_cell(py, grid.shape.shape_array@[0] as int, height as int);
                let cx = spec_raster_cell(px, grid.shape.shape_array@[1] as int, width as int);
                let color = spec_color_at(
                    colorizer,
                    grid.value_at(seq![cy as isize, cx as isize]).spec_fixed() as i64,
                );
                if ch == 0 {
                    color.r
                } else if ch == 1 {
                    color.g
                } else if ch == 2 {
                    color.b
                } else {
                    color.a
                }
            },
    )
}

/// Produces PNG bytes of an image of size `width` by `height`.
pub trait ToPng {
    /// What rendering needs of the receiver and the arguments.
    spec fn png_ready(&self, width: u32, height: u32, colorizer: &Colorizer) -> bool;

    /// The PNG bytes a successful rendering yields.
    spec fn png_spec(&self, width: u32, height: u32, colorizer: &Colorizer) -> Seq<u8>;

    /// Renders the receiver to PNG bytes; rendering an acceptable
    /// receiver always succeeds.
    fn to_png(&self, width: u32, height: u32, colorizer: &Colorizer) -> (r: Result<Vec<u8>, Error>)
        requires
            self.png_ready(width, height, colorizer),
        ensures
            r is Ok,
            r matches Ok(b) ==> b@ == self.png_spec(width, height, colorizer),
    ;
}

impl<T: FixedPixel> ToPng for Grid2D<T> {
    /// The grid is well-formed and non-empty, the output has at least one
    /// pixel per axis, the colorizer is valid, and the sampled buffer
    /// fits the machine.
    open spec fn png_ready(&self, width: u32, height: u32, colorizer: &Colorizer) -> bool {
        &&& self.wf()
        &&& self.shape.shape_array@[0] >= 1
        &&& self.shape.shape_array@[1] >= 1
        &&& width >= 1
        &&& height >= 1
        &&& colorizer.wf()
        &&& 4 * (width as int) * (height as int) <= usize::MAX
        &&& (2 * (height as int)) * self.shape.shape_array@[0] <= usize::MAX
        &&& (2 * (width as int)) * self.shape.shape_array@[1] <= usize::MAX
    }

    open spec fn png_spec(&self, width: u32, height: u32, colorizer: &Colorizer) -> Seq<u8> {
        png_encoding(width, height, spec_rendered_rgba(*self, width, height, *colorizer))
    }

    /// Renders every output pixel by sampling its grid cell and mapping
    /// the sampled value through the colorizer, then encodes the RGBA
    /// buffer as PNG.
    #[verifier::loop_isolation(false)]
    fn to_png(&self, width: u32, height: u32, colorizer: &Colorizer) -> (r: Result<Vec<u8>, Error>)
    {
        let ghost rendered = spec_rendered_rgba(*self, width, height, *colorizer);
        let w = width as usize;
        let h = height as usize;
        proof {
            assert(4 * (w * h) == 4 * (width as int) * (height as int)) by (nonlinear_arith)
                requires
                    w == width as int,
                    h == height as int,
            ;
            assert(rendered.len() == 4 * (width as int) * (height as int));
        }
        let total: usize = w * h;
        let mut rgba: Vec<u8> = Vec::new();
        let mut i: usize = 0;
        while i < total
            invariant
                0 <= i <= total,
                rgba@.len() == 4 * i,
                rgba@ =~= rendered.take(4 * i),
            decreases total - i,
        {
            let px: u32 = (i % w) as u32;
            let py: u32 = (i / w) as u32;
            proof {
                assert(i / w < h) by (nonlinear_arith)
                    requires
                        0 <= i < w * h,
                        w >= 1,
                ;
            }
            let cy = image_pixel_to_raster_pixel(py, self.shape.shape_array[0], height);
            let cx = image_pixel_to_raster_pixel(px, self.shape.shape_array[1], width);
            let value = self.get_at_grid_index_unchecked([cy as isize, cx as isize]);
            proof {
                value.lemma_fixed_in_range();
            }
            let color = colorizer.color_at(value.to_fixed());
            rgba.push(color.r);
            rgba.push(color.g);
            rgba.push(color.b);
            rgba.push(color.a);
            proof {
                assert forall|ch: int| 0 <= ch < 4 implies #[trigger] rendered[4 * i + ch]
                    == rgba@[4 * i + ch] by {
                    vstd::arithmetic::div_mod::lemma_fundamental_div_mod_converse(
                        4 * i + ch,
                        4,
                        i as int,
                        ch,
                    );
                }
                assert(rgba@ =~= rendered.take(4 * (i + 1)));
            }
            i = i + 1;
        }
        proof {
            assert(rendered.take(4 * total as int) =~= rendered);
        }
        Ok(encode_rgba_png(width, height, rgba).unwrap())
    }
}

} // verus!
