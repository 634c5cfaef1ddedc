//! The width an image is shown at, and resizing to it.

use vstd::prelude::*;
use crate::raster::{fit_dimensions, image_size, raster_dimensions, resize_raster};

verus! {

/// Columns used when no width is asked for and no terminal width is known.
pub const DEFAULT_WIDTH: usize = 80;

/// The width to show at: the one asked for, else the terminal's column
/// count, else `DEFAULT_WIDTH` (also when the terminal reports 0 columns).
pub open spec fn target_width(width: Option<usize>, terminal: Option<(usize, usize)>) -> nat {
    match width {
        Some(w) => w as nat,
        None => match terminal {
            Some((cols, _)) => if cols > 0 {
                cols as nat
            } else {
                DEFAULT_WIDTH as nat
            },
            None => DEFAULT_WIDTH as nat,
        },
    }
}

/// A width as handed to the resizer, which takes 32-bit sizes.
pub open spec fn clamp_u32(n: nat) -> nat {
    if n > u32::MAX {
        u32::MAX as nat
    } else {
        n
    }
}

/// The size of a `w` x `h` raster resized towards `target` columns, its
/// height bound only by the original height.
pub open spec fn resized_size(w: nat, h: nat, target: nat) -> (nat, nat) {
    fit_dimensions(w, h, clamp_u32(target), h)
}

/// Relies on term_size's `dimensions`: the columns and rows of the controlling
/// terminal, if any. Nothing is stated of the result, which depends on the
/// environment.
#[verifier::external_body]
fn terminal_dimensions() -> (r: Option<(usize, usize)>) {
    term_size::dimensions()
}

/// Resolves the width to show at from the width asked for and the terminal's
/// dimensions.
pub fn effective_width(width: Option<usize>, terminal: Option<(usize, usize)>) -> (w: usize)
    ensures
        w as nat == target_width(width, terminal),
{
    match width {
        Some(w) => w,
        None => match terminal {
            Some((cols, _)) => if cols > 0 {
                cols
            } else {
                DEFAULT_WIDTH
            },
            None => DEFAULT_WIDTH,
        },
    }
}

/// The resampling filter: gaussian if asked for, nearest neighbour otherwise.
pub fn filter_for(use_gaussian: bool) -> (f: image::imageops::FilterType)
    ensures
        f == (if use_gaussian {
            image::imageops::FilterType::Gaussian
        } else {
            image::imageops::FilterType::Nearest
        }),
{
    if use_gaussian {
        image::imageops::FilterType::Gaussian
    } else {
        image::imageops::FilterType::Nearest
    }
}

/// Resizing towards width `nw` while keeping the height bound at the original
/// height keeps the aspect ratio: the width becomes `nw` and the height
/// `h * nw / w` rounded down (at least 1). A raster is never enlarged: when
/// `nw` exceeds its width it keeps its size.
pub proof fn lemma_resize_keeps_ratio(w: nat, h: nat, nw: nat)
    requires
        w > 0,
        h > 0,
        w <= u32::MAX,
        h <= u32::MAX,
    ensures
        nw <= w ==> fit_dimensions(w, h, nw, h) == (nw, if h * nw / w < 1 {
            1nat
        } else {
            h * nw / w
        }),
        nw <= w ==> fit_dimensions(w, h, nw, h).1 <= h,
        nw > w ==> fit_dimensions(w, h, nw, h) == (w, h),
{
    if nw <= w {
        assert(nw * h <= w * h) by (nonlinear_arith)
            requires
                nw <= w,
        ;
        assert(h * nw <= h * w) by (nonlinear_arith)
            requires
                nw <= w,
        ;
        vstd::arithmetic::div_mod::lemma_div_is_ordered((h * nw) as int, (h * w) as int, w as int);
        vstd::arithmetic::div_mod::lemma_div_by_multiple(h as int, w as int);
        assert(h * w == h as int * w as int);
    } else {
        assert(nw * h > w * h) by (nonlinear_arith)
            requires
                nw > w,
                h > 0,
        ;
        vstd::arithmetic::div_mod::lemma_div_by_multiple(w as int, h as int);
    }
}

/// When no width is asked for and the terminal is absent or reports 0
/// columns, the width is `DEFAULT_WIDTH`.
pub proof fn lemma_default_width(terminal: Option<(usize, usize)>)
    requires
        terminal matches Some((cols, _)) ==> cols == 0,
    ensures
        target_width(None, terminal) == DEFAULT_WIDTH as nat,
{
}

/// Resizes a raster towards the width resolved from `width` and `terminal`,
/// keeping its aspect ratio, with the filter that `use_gaussian` picks.
pub fn resize_with_terminal(
    img: &image::DynamicImage,
    width: Option<usize>,
    terminal: Option<(usize, usize)>,
    use_gaussian: bool,
) -> (r: image::DynamicImage)
    requires
        image_size(*img).0 > 0,
        image_size(*img).1 > 0,
    ensures
        image_size(r) == resized_size(
            image_size(*img).0,
            image_size(*img).1,
            target_width(width, terminal),
        ),
{
    let target = effective_width(width, terminal);
    let nwidth: u32 = if target > u32::MAX as usize {
        u32::MAX
    } else {
        target as u32
    };
    let (_, height) = raster_dimensions(img);
    proof {
        lemma_resize_keeps_ratio(image_size(*img).0, image_size(*img).1, nwidth as nat);
    }
    let filter = filter_for(use_gaussian);
    resize_raster(img, nwidth, height, filter)
}

/// Resizes a raster to fit the width asked for, or else the terminal's width
/// (`DEFAULT_WIDTH` without one), keeping its aspect ratio.
pub fn resize(img: image::DynamicImage, width: Option<usize>, use_gaussian: bool) -> (r:
    image::DynamicImage)
    requires
        image_size(img).0 > 0,
        image_size(img).1 > 0,
    ensures
        exists|terminal: Option<(usize, usize)>|
            image_size(r) == resized_size(
                image_size(img).0,
                image_size(img).1,
                target_width(width, terminal),
            ),
        width.is_some() ==> image_size(r) == resized_size(
            image_size(img).0,
            image_size(img).1,
            target_width(width, None),
        ),
{
    let terminal = if width.is_some() {
        None
    } else {
        terminal_dimensions()
    };
    resize_with_terminal(&img, width, terminal, use_gaussian)
}

} // verus!
