//! Packed RGB rasters, filled from a converter's strided rows and encoded as
//! JPEG.

use vstd::prelude::*;
use vstd::arithmetic::div_mod::{lemma_fundamental_div_mod_converse};
use crate::error::FrameError;

verus! {

/// A raster of 24-bit RGB pixels, held in an `image::ImageBuffer`.
#[verifier::external_body]
pub struct Raster {
    inner: image::ImageBuffer<image::Rgb<u8>, Vec<u8>>,
}

/// `image::ImageError`, the error of the encoder. Nothing is read out of
/// it: it is turned into `EncodeFailed`.
#[verifier::external_type_specification]
#[verifier::external_body]
pub struct ExImageError(image::ImageError);

/// The samples of a raster, row by row, three per pixel: red, green, blue.
pub uninterp spec fn raster_samples(raster: Raster) -> Seq<u8>;

/// The width a raster was made with, in pixels.
pub uninterp spec fn raster_width(raster: Raster) -> nat;

/// The height a raster was made with, in pixels.
pub uninterp spec fn raster_height(raster: Raster) -> nat;

/// The JPEG file that `ImageBuffer::write_to` produces for a raster of the
/// given samples and shape, or `None` where it reports an error.
pub uninterp spec fn jpeg_of(samples: Seq<u8>, width: nat, height: nat) -> Option<Seq<u8>>;

/// Calls `image::ImageBuffer::new`. Trusted: the buffer has the shape asked
/// for and every sample is zero. The call panics when the number of samples
/// does not fit `usize`, which `requires` leaves out.
#[verifier::external_body]
fn blank_raster(width: u32, height: u32) -> (raster: Raster)
    requires
        3 * width * height <= usize::MAX,
    ensures
        raster_width(raster) == width,
        raster_height(raster) == height,
        raster_samples(raster) == Seq::new((3 * width * height) as nat, |i: int| 0u8),
{
    Raster { inner: image::ImageBuffer::new(width, height) }
}

/// Calls `image::ImageBuffer::put_pixel`. Trusted: the three samples of the
/// pixel in column `x` of row `y` are replaced, and nothing else changes. The
/// call panics outside the raster, which `requires` leaves out.
#[verifier::external_body]
fn put_rgb(raster: &mut Raster, x: u32, y: u32, r: u8, g: u8, b: u8)
    requires
        x < raster_width(*old(raster)),
        y < raster_height(*old(raster)),
    ensures
        raster_width(*final(raster)) == raster_width(*old(raster)),
        raster_height(*final(raster)) == raster_height(*old(raster)),
        raster_samples(*final(raster)) == raster_samples(*old(raster)).update(
            3 * (y * raster_width(*old(raster)) + x),
            r,
        ).update(3 * (y * raster_width(*old(raster)) + x) + 1, g).update(
            3 * (y * raster_width(*old(raster)) + x) + 2,
            b,
        ),
{
    raster.inner.put_pixel(x, y, image::Rgb([r, g, b]));
}

/// Copies the samples out of the `ImageBuffer` with `as_raw`. Trusted: the
/// copy holds the raster's samples in order.
#[verifier::external_body]
fn copy_samples(raster: &Raster) -> (samples: Vec<u8>)
    ensures
        samples@ == raster_samples(*raster),
{
    raster.inner.as_raw().clone()
}

/// Reads `ImageBuffer::dimensions`. Trusted: they are the width and height
/// the raster was made with.
#[verifier::external_body]
fn shape_of(raster: &Raster) -> (shape: (u32, u32))
    ensures
        shape.0 == raster_width(*raster),
        shape.1 == raster_height(*raster),
{
    raster.inner.dimensions()
}

/// Calls `image::ImageBuffer::write_to` with `ImageFormat::Jpeg` on a buffer
/// in memory. Trusted: the bytes written, or the fact of an error, depend on
/// the raster's samples and shape alone.
#[verifier::external_body]
fn write_jpeg(raster: &Raster) -> (outcome: Result<Vec<u8>, image::ImageError>)
    ensures
        match outcome {
            Ok(bytes) => jpeg_of(
                raster_samples(*raster),
                raster_width(*raster),
                raster_height(*raster),
            ) == Some(bytes@),
            Err(_) => jpeg_of(
                raster_samples(*raster),
                raster_width(*raster),
                raster_height(*raster),
            ) is None,
        },
{
    let mut file = std::io::Cursor::new(Vec::new());
    match raster.inner.write_to(&mut file, image::ImageFormat::Jpeg) {
        Ok(()) => Ok(file.into_inner()),
        Err(e) => Err(e),
    }
}

/// Whether rows of `width` pixels, `stride` bytes apart, `height` of them, lie
/// within `len` bytes and pack into a buffer that `usize` can index.
pub open spec fn fits(len: nat, stride: nat, width: nat, height: nat) -> bool {
    &&& 3 * width * height <= usize::MAX
    &&& width == 0 || height == 0 || (height - 1) * stride + 3 * width <= len
}

/// The rows of `data` without the padding between them: sample `i` of the
/// packed raster comes from row `i / (3 * width)`, at the same place in the
/// row.
pub open spec fn packed(data: Seq<u8>, stride: nat, width: nat, height: nat) -> Seq<u8> {
    Seq::new(
        3 * width * height,
        |i: int| data[(i / (3 * width as int)) * stride + i % (3 * width as int)],
    )
}

/// Sample `c` of the pixel in column `x` of row `y` of the packed raster is
/// the byte `3 * x + c` of row `y` of the source.
pub proof fn lemma_packed_pixel(
    data: Seq<u8>,
    stride: nat,
    width: nat,
    height: nat,
    x: int,
    y: int,
    c: int,
)
    requires
        0 <= x < width,
        0 <= y < height,
        0 <= c < 3,
    ensures
        3 * (y * width + x) + c < 3 * width * height,
        packed(data, stride, width, height)[3 * (y * width + x) + c] == data[y * stride + 3 * x
            + c],
{
    let m: int = 3 * (width as int);
    let r: int = 3 * x + c;
    let i: int = 3 * (y * width + x) + c;
    assert(i == y * m + r) by (nonlinear_arith)
        requires
            m == 3 * width,
            r == 3 * x + c,
            i == 3 * (y * width + x) + c,
    ;
    assert(i < 3 * width * height) by (nonlinear_arith)
        requires
            i == y * m + r,
            m == 3 * width,
            0 <= r < m,
            y < height,
    ;
    lemma_fundamental_div_mod_converse(i, m, y, r);
}

impl Raster {
    /// The width in pixels.
    pub fn width(&self) -> (width: u32)
        ensures
            width == raster_width(*self),
    {
        shape_of(self).0
    }

    /// The height in pixels.
    pub fn height(&self) -> (height: u32)
        ensures
            height == raster_height(*self),
    {
        shape_of(self).1
    }

    /// A copy of the samples, row by row, three per pixel.
    pub fn samples(&self) -> (samples: Vec<u8>)
        ensures
            samples@ == raster_samples(*self),
    {
        copy_samples(self)
    }

    /// Encodes the raster as a JPEG file in memory. The outcome is that of
    /// the encoder for these samples and this shape; its error becomes
    /// `EncodeFailed`.
    pub fn encode(&self) -> (outcome: Result<Vec<u8>, FrameError>)
        ensures
            match outcome {
                Ok(bytes) => jpeg_of(
                    raster_samples(*self),
                    raster_width(*self),
                    raster_height(*self),
                ) == Some(bytes@),
                Err(e) => e == FrameError::EncodeFailed && jpeg_of(
                    raster_samples(*self),
                    raster_width(*self),
                    raster_height(*self),
                ) is None,
            },
    {
        match write_jpeg(self) {
            Ok(bytes) => Ok(bytes),
            Err(_) => Err(FrameError::EncodeFailed),
        }
    }
}

/// Packs a converted frame into a raster: `height` rows of `width` RGB pixels,
/// row `y` starting at byte `y * stride` of `data`. Fails with
/// `ConversionFailed` exactly when the rows do not lie within `data` or the
/// packed raster would be too large to index.
pub fn rasterize(data: &[u8], stride: usize, width: u32, height: u32) -> (outcome: Result<
    Raster,
    FrameError,
>)
    ensures
        match outcome {
            Ok(raster) => {
                &&& fits(data@.len(), stride as nat, width as nat, height as nat)
                &&& raster_width(raster) == width
                &&& raster_height(raster) == height
                &&& raster_samples(raster) == packed(
                    data@,
                    stride as nat,
                    width as nat,
                    height as nat,
                )
            },
            Err(e) => e == FrameError::ConversionFailed && !fits(
                data@.len(),
                stride as nat,
                width as nat,
                height as nat,
            ),
        },
{
    assert(width * height <= 0xFFFF_FFFF * 0xFFFF_FFFF) by (nonlinear_arith)
        requires
            width <= 0xFFFF_FFFF,
            height <= 0xFFFF_FFFF,
    ;
    let total: u128 = 3 * ((width as u128) * (height as u128));
    assert(total == 3 * width * height) by (nonlinear_arith)
        requires
            total == 3 * (width * height),
    ;
    if total > usize::MAX as u128 {
        return Err(FrameError::ConversionFailed);
    }
    if width != 0 && height != 0 {
        assert((height - 1) * stride <= 0xFFFF_FFFF * 0xFFFF_FFFF_FFFF_FFFF) by (nonlinear_arith)
            requires
                0 <= height - 1 <= 0xFFFF_FFFF,
                0 <= stride <= 0xFFFF_FFFF_FFFF_FFFF,
        ;
        let reach: u128 = ((height - 1) as u128) * (stride as u128) + 3 * (width as u128);
        if reach > data.len() as u128 {
            return Err(FrameError::ConversionFailed);
        }
    }
    let len: usize = data.len();
    let mut raster = blank_raster(width, height);
    let ghost goal = packed(data@, stride as nat, width as nat, height as nat);
    let mut y: u32 = 0;
    while y < height
        invariant
            y <= height,
            data@.len() == len,
            fits(data@.len(), stride as nat, width as nat, height as nat),
            raster_width(raster) == width,
            raster_height(raster) == height,
            raster_samples(raster).len() == 3 * width * height,
            goal == packed(data@, stride as nat, width as nat, height as nat),
            goal.len() == 3 * width * height,
            3 * (y * width) <= 3 * width * height,
            forall|i: int| 0 <= i < 3 * (y * width) ==> raster_samples(raster)[i] == goal[i],
        decreases height - y,
    {
        let mut x: u32 = 0;
        while x < width
            invariant
                x <= width,
                y < height,
                data@.len() == len,
                fits(data@.len(), stride as nat, width as nat, height as nat),
                raster_width(raster) == width,
                raster_height(raster) == height,
                raster_samples(raster).len() == 3 * width * height,
                goal == packed(data@, stride as nat, width as nat, height as nat),
                goal.len() == 3 * width * height,
                3 * (y * width + x) <= 3 * width * height,
                forall|i: int|
                    0 <= i < 3 * (y * width + x) ==> raster_samples(raster)[i] == goal[i],
            decreases width - x,
        {
            proof {
                lemma_packed_pixel(
                    data@,
                    stride as nat,
                    width as nat,
                    height as nat,
                    x as int,
                    y as int,
                    0,
                );
                lemma_packed_pixel(
                    data@,
                    stride as nat,
                    width as nat,
                    height as nat,
                    x as int,
                    y as int,
                    1,
                );
                lemma_packed_pixel(
                    data@,
                    stride as nat,
                    width as nat,
                    height as nat,
                    x as int,
                    y as int,
                    2,
                );
                assert(y * stride <= (height - 1) * stride) by (nonlinear_arith)
                    requires
                        0 <= y <= height - 1,
                        stride >= 0,
                ;
                assert((height - 1) * stride + 3 * width <= data@.len());
                assert(y * stride + 3 * x + 2 < data@.len());
            }
            let offset: usize = (y as usize) * stride + (x as usize) * 3;
            let r: u8 = data[offset];
            let g: u8 = data[offset + 1];
            let b: u8 = data[offset + 2];
            put_rgb(&mut raster, x, y, r, g, b);
            x += 1;
            assert(3 * (y * width + x) == 3 * (y * width + (x - 1)) + 3) by (nonlinear_arith);
            assert(3 * (y * width + x) <= 3 * width * height) by (nonlinear_arith)
                requires
                    0 <= x <= width,
                    0 <= y < height,
            ;
        }
        y += 1;
        assert(3 * (y * width) == 3 * ((y - 1) * width + width)) by (nonlinear_arith);
    }
    assert(raster_samples(raster) =~= goal) by {
        assert(3 * (height * width) == 3 * width * height) by (nonlinear_arith);
    }
    Ok(raster)
}

} // verus!
