use crossterm::style::Color;
use image::{DynamicImage, GenericImageView, RgbImage, RgbaImage};
use tui_image_viewer::raster::{convert, rows_from_rgb_bytes};
use tui_image_viewer::render::render;
use tui_image_viewer::sizing::resize;

#[test]
fn bytes_become_rows() {
    let bytes: Vec<u8> = (0..18).collect();
    let m = rows_from_rgb_bytes(3, 2, &bytes);
    assert_eq!(
        m,
        vec![
            vec![(0, 1, 2), (3, 4, 5), (6, 7, 8)],
            vec![(9, 10, 11), (12, 13, 14), (15, 16, 17)],
        ]
    );
}

#[test]
fn extra_bytes_are_ignored() {
    let bytes: Vec<u8> = vec![1, 2, 3, 4, 5, 6, 7];
    assert_eq!(rows_from_rgb_bytes(2, 1, &bytes), vec![vec![(1, 2, 3), (4, 5, 6)]]);
}

#[test]
fn empty_raster_gives_empty_matrix() {
    let bytes: Vec<u8> = Vec::new();
    assert!(rows_from_rgb_bytes(0, 0, &bytes).is_empty());
    assert_eq!(rows_from_rgb_bytes(0, 2, &bytes), vec![Vec::new(), Vec::new()]);
}

#[test]
fn convert_drops_alpha() {
    let raw = vec![10, 20, 30, 0, 40, 50, 60, 255];
    let img = DynamicImage::ImageRgba8(RgbaImage::from_raw(2, 1, raw).unwrap());
    assert_eq!(convert(img), vec![vec![(10, 20, 30), (40, 50, 60)]]);
}

#[test]
fn convert_keeps_row_order() {
    let raw = vec![1, 1, 1, 2, 2, 2];
    let img = DynamicImage::ImageRgb8(RgbImage::from_raw(1, 2, raw).unwrap());
    assert_eq!(convert(img), vec![vec![(1, 1, 1)], vec![(2, 2, 2)]]);
}

#[test]
fn render_shape_matches_resized_image() {
    let img = DynamicImage::ImageRgb8(RgbImage::new(30, 20));
    let small = resize(img, Some(6), false);
    let (w, h) = small.dimensions();
    assert_eq!((w, h), (6, 4));
    let lines = render(&convert(small), false);
    assert_eq!(lines.len(), h as usize);
    for line in &lines {
        assert_eq!(line.len(), w as usize);
        assert!(line.iter().all(|c| *c == Color::Black));
    }
}

#[test]
fn two_pixels_in_grey_mode() {
    let raw = vec![255, 255, 255, 0, 0, 0];
    let img = DynamicImage::ImageRgb8(RgbImage::from_raw(2, 1, raw).unwrap());
    let lines = render(&convert(resize(img, Some(2), false)), false);
    assert_eq!(lines, vec![vec![Color::White, Color::Black]]);
}

#[test]
fn one_pixel_in_rgb_mode() {
    let raw = vec![100, 150, 200];
    let img = DynamicImage::ImageRgb8(RgbImage::from_raw(1, 1, raw).unwrap());
    let lines = render(&convert(resize(img, Some(1), false)), true);
    assert_eq!(lines, vec![vec![Color::Rgb { r: 100, g: 150, b: 200 }]]);
}

#[test]
fn rgb_mode_matches_converter_output() {
    let raw = vec![1, 2, 3, 250, 128, 7, 64, 64, 64, 9, 8, 7];
    let img = DynamicImage::ImageRgb8(RgbImage::from_raw(2, 2, raw).unwrap());
    let m = convert(img);
    let lines = render(&m, true);
    for (row, line) in m.iter().zip(lines.iter()) {
        for (&(r, g, b), c) in row.iter().zip(line.iter()) {
            assert_eq!(*c, Color::Rgb { r, g, b });
        }
    }
}

#[test]
fn render_of_empty_matrix_is_empty() {
    let m: Vec<Vec<(u8, u8, u8)>> = Vec::new();
    assert!(render(&m, false).is_empty());
}
