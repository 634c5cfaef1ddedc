//! Choice of a terminal color for one pixel.

use vstd::prelude::*;

verus! {

/// Makes crossterm's color enum, with its variants, known to Verus.
#[verifier::external_type_specification]
pub struct ExColor(crossterm::style::Color);

/// Unweighted mean of the three channels, rounded down.
pub open spec fn luma_of(r: u8, g: u8, b: u8) -> int {
    (r as int + g as int + b as int) / 3
}

/// The grey shade that stands for a given luma.
pub open spec fn shade_of_luma(luma: int) -> crossterm::style::Color {
    if luma < 64 {
        crossterm::style::Color::Black
    } else if luma < 128 {
        crossterm::style::Color::DarkGrey
    } else if luma < 192 {
        crossterm::style::Color::Grey
    } else {
        crossterm::style::Color::White
    }
}

/// The color that a pixel is drawn in: its own color, or its grey bucket.
pub open spec fn color_of(pixel: (u8, u8, u8), use_rgb: bool) -> crossterm::style::Color {
    if use_rgb {
        crossterm::style::Color::Rgb { r: pixel.0, g: pixel.1, b: pixel.2 }
    } else {
        shade_of_luma(luma_of(pixel.0, pixel.1, pixel.2))
    }
}

/// Maps the mean of the channels to black, dark grey, grey or white.
pub fn gray_color(r: u8, g: u8, b: u8) -> (c: crossterm::style::Color)
    ensures
        c == shade_of_luma(luma_of(r, g, b)),
{
    let luma: u8 = ((r as u16 + g as u16 + b as u16) / 3) as u8;
    if luma < 64 {
        crossterm::style::Color::Black
    } else if luma < 128 {
        crossterm::style::Color::DarkGrey
    } else if luma < 192 {
        crossterm::style::Color::Grey
    } else {
        crossterm::style::Color::White
    }
}

/// The color in which one pixel is drawn.
pub fn cell_color(pixel: (u8, u8, u8), use_rgb: bool) -> (c: crossterm::style::Color)
    ensures
        c == color_of(pixel, use_rgb),
{
    let (r, g, b) = pixel;
    if use_rgb {
        crossterm::style::Color::Rgb { r, g, b }
    } else {
        gray_color(r, g, b)
    }
}

} // verus!
