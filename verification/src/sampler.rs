//! Magnification of a captured neighbourhood and extraction of the colour
//! under the crosshair.

use crate::color::SampledColor;
use vstd::prelude::*;

verus! {

/// Width of every preview, in pixels.
pub const PREVIEW_WIDTH: u32 = 90;

/// Height of every preview, in pixels.
pub const PREVIEW_HEIGHT: u32 = 90;

/// A captured pixel grid: rows from top to bottom, four bytes per pixel in the
/// order red, green, blue, alpha.
#[derive(Clone, Debug)]
pub struct RgbaBuffer {
    pub width: u32,
    pub height: u32,
    pub pixels: Vec<u8>,
}

/// A magnified pixel grid of the fixed preview size, laid out as an
/// [`RgbaBuffer`].
#[derive(Clone, Debug)]
pub struct PreviewBuffer {
    pub width: u32,
    pub height: u32,
    pub pixels: Vec<u8>,
}

/// Why a capture produced no preview.
#[derive(Clone, Copy, Debug, PartialEq, Eq, Structural)]
pub enum CaptureError {
    /// The captured buffer has no pixels: its width or its height is zero.
    EmptyRegion,
    /// The capturer delivered nothing, or not the bytes its dimensions call for.
    CaptureUnavailable,
}

/// The number of bytes in a grid of the given dimensions.
pub open spec fn grid_len(width: u32, height: u32) -> int {
    4 * (width as int * height as int)
}

/// The pixel at column `x` of row `y` in a grid of the given width.
pub open spec fn pixel_of(pixels: Seq<u8>, width: int, x: int, y: int) -> SampledColor {
    let at = 4 * (y * width + x);
    SampledColor {
        red: pixels[at],
        green: pixels[at + 1],
        blue: pixels[at + 2],
        alpha: pixels[at + 3],
    }
}

/// Whether a grid of this width can be magnified to the preview height in
/// memory: the intermediate grid of four 32-bit channels per pixel must be
/// addressable.
pub open spec fn magnifiable(width: u32) -> bool {
    16 * width * PREVIEW_HEIGHT <= isize::MAX
}

/// The pixels that `image::imageops::resize` with the nearest-neighbour filter
/// yields for a grid of `width` by `height` pixels scaled to `new_width` by
/// `new_height`.
pub uninterp spec fn nearest_resized(
    pixels: Seq<u8>,
    width: u32,
    height: u32,
    new_width: u32,
    new_height: u32,
) -> Seq<u8>;

/// Calls `image::imageops::resize` with `FilterType::Nearest` on an RGBA
/// image built over `pixels`.
///
/// Trusted: the result is a function of the arguments alone and holds four
/// bytes for each pixel of the new size. Empty sources and targets, and sizes
/// whose buffers the crate could not allocate, are left out.
#[verifier::external_body]
fn resize_nearest(
    pixels: &Vec<u8>,
    width: u32,
    height: u32,
    new_width: u32,
    new_height: u32,
) -> (out: Vec<u8>)
    requires
        width > 0,
        height > 0,
        new_width > 0,
        new_height > 0,
        pixels@.len() == grid_len(width, height),
        16 * width * new_height <= isize::MAX,
        4 * new_width * new_height <= isize::MAX,
    ensures
        out@ == nearest_resized(pixels@, width, height, new_width, new_height),
        out@.len() == grid_len(new_width, new_height),
{
    let source = image::ImageBuffer::<image::Rgba<u8>, &[u8]>::from_raw(
        width,
        height,
        pixels.as_slice(),
    ).unwrap();
    image::imageops::resize(
        &source,
        new_width,
        new_height,
        image::imageops::FilterType::Nearest,
    ).into_raw()
}

impl RgbaBuffer {
    /// No pixels at all.
    pub open spec fn is_empty(&self) -> bool {
        self.width == 0 || self.height == 0
    }

    /// The byte count matches the dimensions.
    pub open spec fn is_complete(&self) -> bool {
        self.pixels@.len() == grid_len(self.width, self.height)
    }

    /// The pixel at column `x`, row `y`.
    pub open spec fn pixel_at(&self, x: int, y: int) -> SampledColor {
        pixel_of(self.pixels@, self.width as int, x, y)
    }

    /// Reads the pixel at column `x`, row `y`; `None` outside the grid or
    /// where the bytes do not match the dimensions.
    pub fn pixel(&self, x: u32, y: u32) -> (out: Option<SampledColor>)
        ensures
            out == if self.is_complete() && x < self.width && y < self.height {
                Some(self.pixel_at(x as int, y as int))
            } else {
                None
            },
    {
        if x >= self.width || y >= self.height {
            return None;
        }
        if self.pixels.len() as u128 != byte_count(self.width, self.height) {
            return None;
        }
        Some(read_pixel(&self.pixels, self.width, self.height, x, y))
    }
}

/// The number of bytes that a grid of the given dimensions holds.
fn byte_count(width: u32, height: u32) -> (count: u128)
    ensures
        count == grid_len(width, height),
{
    assert(0 <= width * height <= 0xFFFF_FFFF * 0xFFFF_FFFF) by (nonlinear_arith)
        requires
            0 <= width <= 0xFFFF_FFFF,
            0 <= height <= 0xFFFF_FFFF,
    ;
    let cells: u128 = (width as u128) * (height as u128);
    4 * cells
}

/// Reads one pixel of a complete grid.
fn read_pixel(pixels: &Vec<u8>, width: u32, height: u32, x: u32, y: u32) -> (out: SampledColor)
    requires
        pixels@.len() == grid_len(width, height),
        x < width,
        y < height,
    ensures
        out == pixel_of(pixels@, width as int, x as int, y as int),
{
    assert(0 <= y * width && y * width + x < width * height) by (nonlinear_arith)
        requires
            0 <= x < width,
            0 <= y < height,
    ;
    assert(pixels@.len() == pixels.len() <= usize::MAX);
    let at: usize = 4 * (y as usize * width as usize + x as usize);
    SampledColor {
        red: pixels[at],
        green: pixels[at + 1],
        blue: pixels[at + 2],
        alpha: pixels[at + 3],
    }
}

impl PreviewBuffer {
    /// A preview has the fixed preview size and the bytes for it.
    pub open spec fn well_formed(&self) -> bool {
        &&& self.width == PREVIEW_WIDTH
        &&& self.height == PREVIEW_HEIGHT
        &&& self.pixels@.len() == grid_len(PREVIEW_WIDTH, PREVIEW_HEIGHT)
    }

    /// The pixel at the exact centre of the preview.
    pub open spec fn center_pixel(&self) -> SampledColor {
        pixel_of(
            self.pixels@,
            self.width as int,
            self.width as int / 2,
            self.height as int / 2,
        )
    }

    /// Reads the pixel at the centre of the preview, the one under the
    /// crosshair.
    pub fn center(&self) -> (out: SampledColor)
        requires
            self.well_formed(),
        ensures
            out == self.center_pixel(),
    {
        read_pixel(&self.pixels, self.width, self.height, self.width / 2, self.height / 2)
    }
}

/// What `sample` returns for a capture outcome.
pub open spec fn sample_outcome(raw: Option<RgbaBuffer>) -> Result<
    (Seq<u8>, SampledColor),
    CaptureError,
> {
    match raw {
        None => Err(CaptureError::CaptureUnavailable),
        Some(buffer) => if buffer.is_empty() {
            Err(CaptureError::EmptyRegion)
        } else if !buffer.is_complete() || !magnifiable(buffer.width) {
            Err(CaptureError::CaptureUnavailable)
        } else {
            let magnified = nearest_resized(
                buffer.pixels@,
                buffer.width,
                buffer.height,
                PREVIEW_WIDTH,
                PREVIEW_HEIGHT,
            );
            Ok(
                (
                    magnified,
                    pixel_of(
                        magnified,
                        PREVIEW_WIDTH as int,
                        PREVIEW_WIDTH as int / 2,
                        PREVIEW_HEIGHT as int / 2,
                    ),
                ),
            )
        },
    }
}

/// Magnifies a captured buffer to the preview size with nearest-neighbour
/// sampling, which shows source pixels enlarged instead of smoothing them,
/// and reads the colour at the centre of the preview.
///
/// `None` stands for a capture that delivered nothing; a buffer whose bytes do
/// not match its dimensions, or whose rows are too wide to be magnified in
/// memory, counts as unavailable too. The sampled colour is read from the
/// magnified grid, not from the source.
pub fn sample(raw: Option<RgbaBuffer>) -> (out: Result<(PreviewBuffer, SampledColor), CaptureError>)
    ensures
        match (out, sample_outcome(raw)) {
            (Ok((preview, color)), Ok((pixels, center))) => {
                &&& preview.well_formed()
                &&& preview.pixels@ == pixels
                &&& color == center
                &&& color == preview.center_pixel()
            },
            (Err(found), Err(expected)) => found == expected,
            _ => false,
        },
{
    let buffer = match raw {
        None => {
            return Err(CaptureError::CaptureUnavailable);
        },
        Some(buffer) => buffer,
    };
    if buffer.width == 0 || buffer.height == 0 {
        return Err(CaptureError::EmptyRegion);
    }
    let intermediate: u128 = 16 * (buffer.width as u128) * (PREVIEW_HEIGHT as u128);
    if buffer.pixels.len() as u128 != byte_count(buffer.width, buffer.height) || intermediate
        > isize::MAX as u128 {
        return Err(CaptureError::CaptureUnavailable);
    }
    let pixels = resize_nearest(
        &buffer.pixels,
        buffer.width,
        buffer.height,
        PREVIEW_WIDTH,
        PREVIEW_HEIGHT,
    );
    let preview = PreviewBuffer { width: PREVIEW_WIDTH, height: PREVIEW_HEIGHT, pixels };
    let color = preview.center();
    Ok((preview, color))
}

} // verus!
