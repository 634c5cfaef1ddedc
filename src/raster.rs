//! Decoded images: their size, resizing, and the matrix of RGB pixels.

use vstd::prelude::*;

verus! {

/// Makes image's decoded raster type known to Verus, as an opaque value.
#[verifier::external_type_specification]
#[verifier::external_body]
pub struct ExDynamicImage(image::DynamicImage);

/// Makes image's resampling filter enum, with its variants, known to Verus.
#[verifier::external_type_specification]
pub struct ExFilterType(image::imageops::FilterType);

/// Rows of pixels, top to bottom, each row left to right, as (red, green, blue).
pub type ImageMatrixRgb = Vec<Vec<(u8, u8, u8)>>;

/// Width and height of a decoded raster.
pub uninterp spec fn image_size(img: image::DynamicImage) -> (nat, nat);

/// The raw buffer of a raster once converted to 8-bit RGB.
pub uninterp spec fn rgb_bytes_of(img: image::DynamicImage) -> Seq<u8>;

/// The size that the image crate gives a `w` x `h` raster asked to fit within
/// `nw` x `nh`: the largest size of the same aspect ratio that fits, with the
/// scaled side rounded down and at least 1.
pub open spec fn fit_dimensions(w: nat, h: nat, nw: nat, nh: nat) -> (nat, nat) {
    let use_width = nw * h <= w * nh;
    let scaled: nat = if use_width { h * nw / w } else { w * nh / h };
    let side: nat = if scaled < 1 { 1 } else { scaled };
    if use_width {
        if side <= u32::MAX {
            (nw, side)
        } else {
            (nw * (u32::MAX as nat) / side, u32::MAX as nat)
        }
    } else if side <= u32::MAX {
        (side, nh)
    } else {
        (u32::MAX as nat, nh * (u32::MAX as nat) / side)
    }
}

/// The pixel at column `x` of row `y` in a packed RGB buffer of rows `w` wide.
pub open spec fn pixel_at(w: nat, bytes: Seq<u8>, y: int, x: int) -> (u8, u8, u8) {
    let k = 3 * (y * w + x);
    (bytes[k], bytes[k + 1], bytes[k + 2])
}

/// The `h` rows of `w` pixels that a packed RGB buffer holds.
pub open spec fn pixel_rows(w: nat, h: nat, bytes: Seq<u8>) -> Seq<Seq<(u8, u8, u8)>> {
    Seq::new(h, |y: int| Seq::new(w, |x: int| pixel_at(w, bytes, y, x)))
}

/// A pixel matrix as a sequence of sequences.
pub open spec fn matrix_view(m: &ImageMatrixRgb) -> Seq<Seq<(u8, u8, u8)>> {
    m@.map_values(|row: Vec<(u8, u8, u8)>| row@)
}

/// Relies on image's `GenericImageView::dimensions` for `DynamicImage`:
/// it returns the raster's width and height.
#[verifier::external_body]
pub(crate) fn raster_dimensions(img: &image::DynamicImage) -> (r: (u32, u32))
    ensures
        image_size(*img) == (r.0 as nat, r.1 as nat),
{
    image::GenericImageView::dimensions(img)
}

/// Relies on image's `DynamicImage::into_rgb8` (the raster converted to 8-bit
/// RGB, alpha dropped) and `ImageBuffer::into_raw`: the buffer holds at least
/// three bytes for each pixel, row after row.
#[verifier::external_body]
fn rgb_bytes(img: image::DynamicImage) -> (r: Vec<u8>)
    ensures
        r@ == rgb_bytes_of(img),
        r@.len() >= 3 * image_size(img).0 * image_size(img).1,
{
    img.into_rgb8().into_raw()
}

/// Relies on image's `DynamicImage::resize`: a new raster of the size that
/// the crate's `resize_dimensions` computes, which `fit_dimensions` states.
/// Both sides of the source are non-zero (else it divides by zero), and the
/// result is no larger than the source, so its buffers fit in memory.
#[verifier::external_body]
pub(crate) fn resize_raster(
    img: &image::DynamicImage,
    nwidth: u32,
    nheight: u32,
    filter: image::imageops::FilterType,
) -> (r: image::DynamicImage)
    requires
        image_size(*img).0 > 0,
        image_size(*img).1 > 0,
        fit_dimensions(image_size(*img).0, image_size(*img).1, nwidth as nat, nheight as nat).0
            <= image_size(*img).0,
        fit_dimensions(image_size(*img).0, image_size(*img).1, nwidth as nat, nheight as nat).1
            <= image_size(*img).1,
    ensures
        image_size(r) == fit_dimensions(
            image_size(*img).0,
            image_size(*img).1,
            nwidth as nat,
            nheight as nat,
        ),
{
    img.resize(nwidth, nheight, filter)
}

/// Reads a packed RGB buffer as `height` rows of `width` pixels.
pub fn rows_from_rgb_bytes(width: u32, height: u32, bytes: &Vec<u8>) -> (m: ImageMatrixRgb)
    requires
        bytes@.len() >= 3 * (width as nat) * (height as nat),
    ensures
        m@.len() == height,
        matrix_view(&m) == pixel_rows(width as nat, height as nat, bytes@),
{
    let ghost w = width as nat;
    let ghost h = height as nat;
    let mut m: ImageMatrixRgb = Vec::new();
    let mut y: u32 = 0;
    let mut k: usize = 0;
    let n: usize = bytes.len();
    while y < height
        invariant
            y <= height,
            w == width as nat,
            h == height as nat,
            bytes@.len() >= 3 * w * h,
            n == bytes@.len(),
            k == 3 * (y * w),
            m@.len() == y,
            forall|i: int| 0 <= i < y ==> #[trigger] m@[i]@ == pixel_rows(w, h, bytes@)[i],
        decreases height - y,
    {
        let mut row: Vec<(u8, u8, u8)> = Vec::new();
        let mut x: u32 = 0;
        while x < width
            invariant
                x <= width,
                y < height,
                w == width as nat,
                h == height as nat,
                bytes@.len() >= 3 * w * h,
                n == bytes@.len(),
                k == 3 * (y * w + x),
                row@.len() == x,
                forall|j: int| 0 <= j < x ==> #[trigger] row@[j] == pixel_at(w, bytes@, y as int, j),
            decreases width - x,
        {
            proof {
                let (yy, xx) = (y as int, x as int);
                assert(yy * w + xx + 1 <= h * w) by (nonlinear_arith)
                    requires
                        yy < h,
                        xx < w,
                        0 <= yy,
                        0 <= xx,
                ;
                assert(k + 3 <= bytes@.len()) by (nonlinear_arith)
                    requires
                        yy * w + xx + 1 <= h * w,
                        k == 3 * (yy * w + xx),
                        bytes@.len() >= 3 * w * h,
                ;
            }
            row.push((bytes[k], bytes[k + 1], bytes[k + 2]));
            k = k + 3;
            x = x + 1;
        }
        proof {
            let yy = y as int;
            assert((yy + 1) * w == yy * w + w) by (nonlinear_arith);
            assert(row@ =~= pixel_rows(w, h, bytes@)[yy]);
        }
        m.push(row);
        y = y + 1;
    }
    assert(matrix_view(&m) =~= pixel_rows(w, h, bytes@));
    m
}

/// The raster as a matrix of its RGB pixels, alpha dropped.
pub fn convert(img: image::DynamicImage) -> (m: ImageMatrixRgb)
    ensures
        m@.len() == image_size(img).1,
        matrix_view(&m) == pixel_rows(image_size(img).0, image_size(img).1, rgb_bytes_of(img)),
{
    let (width, height) = raster_dimensions(&img);
    let bytes = rgb_bytes(img);
    rows_from_rgb_bytes(width, height, &bytes)
}

} // verus!
