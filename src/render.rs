//! From a pixel matrix to the colors of the glyphs, row by row.

use vstd::prelude::*;
use crate::color::{cell_color, color_of, luma_of};
use crate::raster::{matrix_view, pixel_rows, ImageMatrixRgb};

verus! {

/// The color of each glyph: one text row per pixel row, one glyph per pixel.
pub open spec fn rendered(rows: Seq<Seq<(u8, u8, u8)>>, use_rgb: bool) -> Seq<
    Seq<crossterm::style::Color>,
> {
    rows.map_values(|row: Seq<(u8, u8, u8)>| row.map_values(|p: (u8, u8, u8)| color_of(p, use_rgb)))
}

/// The colors of the glyphs that show a pixel matrix: text row `y` holds one
/// glyph for each pixel of row `y`, in order, and a line break follows it.
pub fn render(img: &ImageMatrixRgb, use_rgb: bool) -> (lines: Vec<Vec<crossterm::style::Color>>)
    ensures
        lines@.len() == img@.len(),
        forall|y: int|
            0 <= y < lines@.len() ==> #[trigger] lines@[y]@ == rendered(matrix_view(img), use_rgb)[y],
{
    let mut lines: Vec<Vec<crossterm::style::Color>> = Vec::new();
    let mut y: usize = 0;
    while y < img.len()
        invariant
            y <= img@.len(),
            lines@.len() == y,
            forall|i: int|
                0 <= i < y ==> #[trigger] lines@[i]@ == rendered(matrix_view(img), use_rgb)[i],
        decreases img@.len() - y,
    {
        let row = &img[y];
        let mut line: Vec<crossterm::style::Color> = Vec::new();
        let mut x: usize = 0;
        while x < row.len()
            invariant
                x <= row@.len(),
                y < img@.len(),
                row == img@[y as int],
                line@.len() == x,
                forall|j: int| 0 <= j < x ==> #[trigger] line@[j] == color_of(row@[j], use_rgb),
            decreases row@.len() - x,
        {
            line.push(cell_color(row[x], use_rgb));
            x = x + 1;
        }
        assert(line@ =~= rendered(matrix_view(img), use_rgb)[y as int]);
        lines.push(line);
        y = y + 1;
    }
    lines
}

/// The glyphs that show a raster of `w` x `h` pixels form `h` text rows of
/// `w` glyphs each.
pub proof fn lemma_render_shape(w: nat, h: nat, bytes: Seq<u8>, use_rgb: bool)
    ensures
        rendered(pixel_rows(w, h, bytes), use_rgb).len() == h,
        forall|y: int|
            0 <= y < h ==> (#[trigger] rendered(pixel_rows(w, h, bytes), use_rgb)[y]).len() == w,
{
}

/// In grey mode the bucket is a function of the three channels alone, with
/// closed lower and open upper bounds on the luma: below 64 black, from 64
/// dark grey, from 128 grey, from 192 white.
pub proof fn lemma_luma_buckets(r: u8, g: u8, b: u8)
    ensures
        (color_of((r, g, b), false) == crossterm::style::Color::Black) <==> luma_of(r, g, b) < 64,
        (color_of((r, g, b), false) == crossterm::style::Color::DarkGrey) <==> (64 <= luma_of(
            r,
            g,
            b,
        ) < 128),
        (color_of((r, g, b), false) == crossterm::style::Color::Grey) <==> (128 <= luma_of(
            r,
            g,
            b,
        ) < 192),
        (color_of((r, g, b), false) == crossterm::style::Color::White) <==> 192 <= luma_of(r, g, b),
{
}

/// In RGB mode each glyph has exactly the color of its pixel.
pub proof fn lemma_rgb_lossless(rows: Seq<Seq<(u8, u8, u8)>>)
    ensures
        forall|y: int, x: int|
            0 <= y < rows.len() && 0 <= x < rows[y].len() ==> #[trigger] rendered(rows, true)[y][x]
                == (crossterm::style::Color::Rgb { r: rows[y][x].0, g: rows[y][x].1, b: rows[y][x].2 }),
{
}

} // verus!
