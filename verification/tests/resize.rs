use image::imageops::FilterType;
use image::{DynamicImage, GenericImageView, Rgb, RgbImage};
use image_ops::resize::{
    buffer_fits, filter_from_str, resize, resize_allowed, thumbnail, thumbnail_allowed,
};
use image_ops::{Errors, ImageOperation, PixelKind, ResizeMode};

fn ramp(w: u32, h: u32) -> DynamicImage {
    let mut img = RgbImage::new(w, h);
    for x in 0..w {
        for y in 0..h {
            img.put_pixel(x, y, Rgb([x as u8, y as u8, (x * 16 + y) as u8]));
        }
    }
    DynamicImage::ImageRgb8(img)
}

fn crop(img: &DynamicImage, x: u32, y: u32, w: u32, h: u32) -> DynamicImage {
    ImageOperation::Crop { x, y, w, h }.apply(img.clone()).unwrap()
}

fn rotate90(img: &DynamicImage) -> DynamicImage {
    ImageOperation::Rotate90.apply(img.clone()).unwrap()
}

fn rotate180(img: &DynamicImage) -> DynamicImage {
    ImageOperation::Rotate180.apply(img.clone()).unwrap()
}

fn rotate270(img: &DynamicImage) -> DynamicImage {
    ImageOperation::Rotate270.apply(img.clone()).unwrap()
}

fn flip_horizontal(img: &DynamicImage) -> DynamicImage {
    ImageOperation::FlipHorizontal.apply(img.clone()).unwrap()
}

fn flip_vertical(img: &DynamicImage) -> DynamicImage {
    ImageOperation::FlipVertical.apply(img.clone()).unwrap()
}

fn resize_op(w: u32, h: u32, filter: &str, mode: ResizeMode) -> ImageOperation {
    ImageOperation::Resize { h, w, filter: filter.to_string(), mode }
}

#[test]
fn filter_names() {
    assert!(matches!(filter_from_str("Nearest".to_string()), Ok(FilterType::Nearest)));
    assert!(matches!(filter_from_str("Triangle".to_string()), Ok(FilterType::Triangle)));
    assert!(matches!(filter_from_str("CatmullRom".to_string()), Ok(FilterType::CatmullRom)));
    assert!(matches!(filter_from_str("Gaussian".to_string()), Ok(FilterType::Gaussian)));
    assert!(matches!(filter_from_str("Lanczos3".to_string()), Ok(FilterType::Lanczos3)));
    assert!(matches!(filter_from_str("Bogus".to_string()), Err(Errors::InvalidResizeFilter)));
    assert!(matches!(filter_from_str("nearest".to_string()), Err(Errors::InvalidResizeFilter)));
    assert!(matches!(filter_from_str(String::new()), Err(Errors::InvalidResizeFilter)));
}

#[test]
fn default_mode_is_fit() {
    assert_eq!(ResizeMode::default(), ResizeMode::Fit);
}

#[test]
fn exact_resize_gives_exactly_the_box() {
    for (w, h) in [(7u32, 3u32), (100, 50), (1, 1), (300, 2)] {
        for filter in ["Nearest", "Triangle", "CatmullRom", "Gaussian", "Lanczos3"] {
            let out = resize_op(100, 50, filter, ResizeMode::Exact).apply(ramp(w, h)).unwrap();
            assert_eq!(out.dimensions(), (100, 50));
            assert_eq!(out.color(), image::ColorType::Rgb8);
        }
    }
}

#[test]
fn fill_resize_gives_exactly_the_box() {
    for (w, h) in [(30u32, 7u32), (7, 30), (10, 10), (1, 50), (50, 1)] {
        let out = resize_op(10, 20, "Triangle", ResizeMode::Fill).apply(ramp(w, h)).unwrap();
        assert_eq!(out.dimensions(), (10, 20));
        let out = resize(&ramp(w, h), 20, 10, FilterType::Nearest, ResizeMode::Fill).unwrap();
        assert_eq!(out.dimensions(), (20, 10));
    }
}

#[test]
fn fit_resize_keeps_the_aspect_ratio_inside_the_box() {
    let out = resize_op(10, 10, "Nearest", ResizeMode::Fit).apply(ramp(40, 20)).unwrap();
    assert_eq!(out.dimensions(), (10, 5));
    let out = resize_op(10, 10, "Nearest", ResizeMode::Fit).apply(ramp(20, 40)).unwrap();
    assert_eq!(out.dimensions(), (5, 10));
    let out = resize_op(30, 100, "Nearest", ResizeMode::Fit).apply(ramp(3, 2)).unwrap();
    assert_eq!(out.dimensions(), (30, 20));
}

#[test]
fn thumbnail_stays_inside_the_box() {
    let out = thumbnail(&ramp(40, 20), 10, 10, false).unwrap();
    assert_eq!(out.dimensions(), (10, 5));
    let out = ImageOperation::Thumbnail { w: 7, h: 100, exact: false }.apply(ramp(20, 10)).unwrap();
    assert_eq!(out.dimensions(), (7, 4));
    let out = thumbnail(&ramp(20, 10), 100, 5, false).unwrap();
    assert_eq!(out.dimensions(), (10, 5));
}

#[test]
fn thumbnail_never_enlarges() {
    let out = ImageOperation::Thumbnail { w: 10, h: 8, exact: false }.apply(ramp(4, 4)).unwrap();
    assert_eq!(out.dimensions(), (4, 4));
    assert_eq!(out.as_bytes(), ramp(4, 4).as_bytes());
    let out = thumbnail(&ramp(4, 4), 4, 4, false).unwrap();
    assert_eq!(out.as_bytes(), ramp(4, 4).as_bytes());
    let out = thumbnail(&ramp(1, 1), u32::MAX, u32::MAX, false).unwrap();
    assert_eq!(out.as_bytes(), ramp(1, 1).as_bytes());
    for (sw, sh) in [(1u32, 1u32), (3, 9), (9, 3), (16, 16), (40, 2)] {
        for (w, h) in [(1u32, 1u32), (2, 50), (50, 2), (8, 8), (100, 100)] {
            let out = thumbnail(&ramp(sw, sh), w, h, false).unwrap();
            assert!(out.width() <= sw && out.height() <= sh);
            assert!(out.width() <= w && out.height() <= h);
        }
    }
}

#[test]
fn exact_thumbnail_gives_exactly_the_box() {
    let out = ImageOperation::Thumbnail { w: 3, h: 9, exact: true }.apply(ramp(12, 12)).unwrap();
    assert_eq!(out.dimensions(), (3, 9));
    let out = thumbnail(&ramp(2, 2), 0, 5, true).unwrap();
    assert_eq!(out.dimensions(), (0, 5));
}

#[test]
fn exact_resize_to_nothing_is_empty() {
    let out = resize(&ramp(4, 4), 0, 0, FilterType::Triangle, ResizeMode::Exact).unwrap();
    assert_eq!(out.dimensions(), (0, 0));
    let out = resize(&ramp(4, 4), 3, 0, FilterType::Nearest, ResizeMode::Exact).unwrap();
    assert_eq!(out.dimensions(), (3, 0));
}

#[test]
fn resize_of_nothing_is_refused() {
    for (w, h) in [(0u32, 0u32), (0, 3), (3, 0)] {
        let empty = DynamicImage::new_rgb8(w, h);
        for mode in [ResizeMode::Exact, ResizeMode::Fit, ResizeMode::Fill] {
            assert!(matches!(
                resize(&empty, 2, 3, FilterType::Nearest, mode),
                Err(Errors::ImageError(_))
            ));
        }
    }
}

#[test]
fn thumbnail_of_nothing_is_blank() {
    let empty = DynamicImage::new_rgb8(0, 3);
    let out = thumbnail(&empty, 2, 2, true).unwrap();
    assert_eq!(out.dimensions(), (2, 2));
    assert!(out.as_bytes().iter().all(|b| *b == 0));
    let out = thumbnail(&empty, 2, 2, false).unwrap();
    assert_eq!(out.dimensions(), (0, 2));
    let out = thumbnail(&empty, 5, 5, false).unwrap();
    assert_eq!(out.dimensions(), (0, 3));
}

#[test]
fn thumbnail_blocks_must_add_up_within_32_bits() {
    assert!(thumbnail_allowed(PixelKind::Rgb8, 4000, 4000, 1, 1, true));
    assert!(!thumbnail_allowed(PixelKind::Rgb8, 5000, 5000, 1, 1, true));
    assert!(thumbnail_allowed(PixelKind::Rgb8, 5000, 5000, 100, 100, true));
    assert!(thumbnail_allowed(PixelKind::Rgb16, 250, 250, 1, 1, true));
    assert!(!thumbnail_allowed(PixelKind::Rgb16, 300, 300, 1, 1, true));
    assert!(thumbnail_allowed(PixelKind::Rgb32F, 60000, 60000, 1, 1, true));
    assert!(!thumbnail_allowed(PixelKind::Rgb32F, 70000, 70000, 1, 1, true));
    assert!(thumbnail_allowed(PixelKind::Rgba8, 20000, 10000, 2000, 1000, false));
    assert!(!thumbnail_allowed(PixelKind::Rgba8, 20000, 10000, 1, 1, false));
    let big = DynamicImage::new_luma16(300, 300);
    assert!(matches!(thumbnail(&big, 1, 1, true), Err(Errors::ImageError(_))));
    assert_eq!(thumbnail(&big, 30, 30, true).unwrap().dimensions(), (30, 30));
}

#[test]
fn fit_resize_to_an_empty_box_is_one_pixel() {
    let out = resize(&ramp(4, 4), 0, 0, FilterType::Nearest, ResizeMode::Fit).unwrap();
    assert_eq!(out.dimensions(), (1, 1));
}

#[test]
fn thumbnail_in_an_empty_box_is_empty() {
    let out = thumbnail(&ramp(4, 4), 0, 7, false).unwrap();
    assert_eq!(out.dimensions(), (0, 4));
    let out = thumbnail(&ramp(4, 4), 0, 0, false).unwrap();
    assert_eq!(out.dimensions(), (0, 0));
}

#[test]
fn fill_resize_needs_a_source_and_a_box() {
    let empty = DynamicImage::new_rgb8(0, 4);
    assert!(matches!(
        resize(&empty, 2, 2, FilterType::Nearest, ResizeMode::Fill),
        Err(Errors::ImageError(_))
    ));
    assert!(matches!(
        resize(&ramp(2, 2), 0, 2, FilterType::Nearest, ResizeMode::Fill),
        Err(Errors::ImageError(_))
    ));
    assert!(!resize_allowed(ResizeMode::Fill, 0, 1, 1, 1));
    assert!(!resize_allowed(ResizeMode::Fill, 1, 1, 1, 0));
    assert!(resize_allowed(ResizeMode::Fill, 1, 1, 1, 1));
}

#[test]
fn sizes_that_cannot_be_held_are_refused() {
    assert!(buffer_fits(0, u32::MAX));
    assert!(buffer_fits(1000, 1000));
    assert!(!buffer_fits(u32::MAX, u32::MAX));
    assert!(!resize_allowed(ResizeMode::Exact, 1, 1, u32::MAX, u32::MAX));
    assert!(!resize_allowed(ResizeMode::Fit, 1, 1, u32::MAX, u32::MAX));
    assert!(!resize_allowed(ResizeMode::Fill, 1, u32::MAX, u32::MAX, 1));
    assert!(matches!(
        resize(&ramp(1, 1), u32::MAX, u32::MAX, FilterType::Nearest, ResizeMode::Exact),
        Err(Errors::ImageError(_))
    ));
    assert!(matches!(
        thumbnail(&ramp(1, 1), u32::MAX, u32::MAX, true),
        Err(Errors::ImageError(_))
    ));
    assert!(!resize_allowed(ResizeMode::Exact, 0x80_0001, 1, 1, 1));
    assert!(!resize_allowed(ResizeMode::Fit, 1, 1, 1, 0x80_0001));
    assert!(resize_allowed(ResizeMode::Exact, 0x80_0000, 1, 1, 1));
}

#[test]
fn crop_keeps_the_rectangle() {
    let out = ImageOperation::Crop { x: 1, y: 2, w: 2, h: 1 }.apply(ramp(4, 4)).unwrap();
    assert_eq!(out.dimensions(), (2, 1));
    assert_eq!(out.as_bytes(), &[1, 2, 18, 2, 2, 34]);
}

#[test]
fn crop_is_cut_to_the_bounds() {
    let out = crop(&ramp(4, 4), 3, 3, 10, 10);
    assert_eq!(out.dimensions(), (1, 1));
    assert_eq!(out.as_bytes(), &[3, 3, 51]);
    let out = crop(&ramp(4, 4), 9, 0, 2, 2);
    assert_eq!(out.dimensions(), (0, 2));
    let out = crop(&ramp(4, 4), u32::MAX, u32::MAX, u32::MAX, u32::MAX);
    assert_eq!(out.dimensions(), (0, 0));
    let out = crop(&ramp(4, 4), 0, 0, u32::MAX, 2);
    assert_eq!(out.dimensions(), (4, 2));
}

#[test]
fn rotate180_twice_is_the_identity() {
    let once = ImageOperation::Rotate180.apply(ramp(3, 2)).unwrap();
    assert_ne!(once.as_bytes(), ramp(3, 2).as_bytes());
    assert_eq!(once.get_pixel(0, 0), ramp(3, 2).get_pixel(2, 1));
    let twice = ImageOperation::Rotate180.apply(once).unwrap();
    assert_eq!(twice.dimensions(), (3, 2));
    assert_eq!(twice.as_bytes(), ramp(3, 2).as_bytes());
}

#[test]
fn rotate90_four_times_is_the_identity() {
    let mut img = ramp(3, 2);
    for turn in 1..=4 {
        img = ImageOperation::Rotate90.apply(img).unwrap();
        let want = if turn % 2 == 1 { (2, 3) } else { (3, 2) };
        assert_eq!(img.dimensions(), want);
    }
    assert_eq!(img.as_bytes(), ramp(3, 2).as_bytes());
}

#[test]
fn quarter_turns_move_the_corners() {
    let src = ramp(3, 2);
    let r90 = rotate90(&src);
    assert_eq!(r90.dimensions(), (2, 3));
    assert_eq!(r90.get_pixel(1, 0), src.get_pixel(0, 0));
    assert_eq!(r90.get_pixel(0, 0), src.get_pixel(0, 1));
    let r270 = rotate270(&src);
    assert_eq!(r270.dimensions(), (2, 3));
    assert_eq!(r270.get_pixel(0, 2), src.get_pixel(0, 0));
    assert_eq!(r270.get_pixel(0, 0), src.get_pixel(2, 0));
    assert_eq!(rotate270(&r90).as_bytes(), src.as_bytes());
    assert_eq!(rotate90(&r90).as_bytes(), rotate180(&src).as_bytes());
    assert_eq!(r270.as_bytes(), src.rotate270().as_bytes());
    assert_eq!(r90.as_bytes(), src.rotate90().as_bytes());
}

#[test]
fn flips_mirror() {
    let src = ramp(3, 2);
    let h = flip_horizontal(&src);
    assert_eq!(h.dimensions(), (3, 2));
    assert_eq!(h.get_pixel(0, 0), src.get_pixel(2, 0));
    assert_eq!(h.get_pixel(1, 1), src.get_pixel(1, 1));
    let v = flip_vertical(&src);
    assert_eq!(v.get_pixel(0, 0), src.get_pixel(0, 1));
    assert_eq!(flip_horizontal(&h).as_bytes(), src.as_bytes());
    assert_eq!(flip_vertical(&v).as_bytes(), src.as_bytes());
    assert_eq!(h.as_bytes(), src.fliph().as_bytes());
    assert_eq!(v.as_bytes(), src.flipv().as_bytes());
}
