use open_ui::RgbaImage;
use open_ui::canvas::ScaleError;
use open_ui::de_alpha;

#[test]
fn _de_alpha() {
    let rgba = (14, 18, 201, 128);
    let after_de_alpha = de_alpha(&rgba, &(255, 255, 255, 255));
    assert_eq!(after_de_alpha, (134, 136, 228, 255));
}

#[test]
fn de_alpha_opaque_pixel_keeps_its_channels() {
    let rgba = (40, 50, 60, 255);
    assert_eq!(de_alpha(&rgba, &(0, 0, 0, 255)), (40, 50, 60, 255));
}

#[test]
fn de_alpha_transparent_pixel_yields_the_background() {
    let rgba = (40, 50, 60, 0);
    assert_eq!(de_alpha(&rgba, &(10, 20, 30, 255)), (10, 20, 30, 255));
}

#[test]
fn new_canvas_is_all_zero_bytes() {
    let img = RgbaImage::new(2, 2);
    assert_eq!(img.width(), 2);
    assert_eq!(img.height(), 2);
    for y in 0..2u32 {
        for x in 0..2u32 {
            assert_eq!(img.get_pixel(x, y), Some((0, 0, 0, 0)));
        }
    }
}

#[test]
fn set_then_get_round_trips() {
    let mut img = RgbaImage::new(4, 3);
    assert!(img.set_pixel(2, 1, (10, 20, 30, 40)));
    assert_eq!(img.get_pixel(2, 1), Some((10, 20, 30, 40)));
}

#[test]
fn set_pixel_out_of_bounds_returns_false_and_leaves_buffer() {
    let mut img = RgbaImage::new(4, 3);
    img.fill((1, 2, 3, 4));
    assert!(!img.set_pixel(4, 0, (9, 9, 9, 9)));
    assert!(!img.set_pixel(0, 3, (9, 9, 9, 9)));
    for y in 0..3u32 {
        for x in 0..4u32 {
            assert_eq!(img.get_pixel(x, y), Some((1, 2, 3, 4)));
        }
    }
}

#[test]
fn fill_sets_every_pixel() {
    let mut img = RgbaImage::new(5, 4);
    img.fill((11, 22, 33, 44));
    for y in 0..4u32 {
        for x in 0..5u32 {
            assert_eq!(img.get_pixel(x, y), Some((11, 22, 33, 44)));
        }
    }
}

#[test]
fn opaque_draw_replaces_canvas() {
    let mut canvas = RgbaImage::new(2, 2);
    canvas.fill((5, 6, 7, 200));
    let mut src = RgbaImage::new(2, 2);
    src.set_pixel(0, 0, (1, 2, 3, 255));
    src.set_pixel(1, 0, (4, 5, 6, 255));
    src.set_pixel(0, 1, (7, 8, 9, 255));
    src.set_pixel(1, 1, (10, 11, 12, 255));
    canvas.draw(&src, 0, 0);
    assert_eq!(canvas.get_pixel(0, 0), Some((1, 2, 3, 255)));
    assert_eq!(canvas.get_pixel(1, 0), Some((4, 5, 6, 255)));
    assert_eq!(canvas.get_pixel(0, 1), Some((7, 8, 9, 255)));
    assert_eq!(canvas.get_pixel(1, 1), Some((10, 11, 12, 255)));
}

#[test]
fn draw_blends_half_transparent_source_over_white() {
    let mut canvas = RgbaImage::new(1, 1);
    canvas.set_pixel(0, 0, (255, 255, 255, 255));
    let mut src = RgbaImage::new(1, 1);
    src.set_pixel(0, 0, (14, 18, 201, 128));
    canvas.draw(&src, 0, 0);
    assert_eq!(canvas.get_pixel(0, 0), Some((134, 136, 228, 255)));
}

#[test]
fn draw_fully_transparent_source_keeps_background_color() {
    let mut canvas = RgbaImage::new(1, 1);
    canvas.set_pixel(0, 0, (10, 20, 30, 255));
    let mut src = RgbaImage::new(1, 1);
    src.set_pixel(0, 0, (99, 99, 99, 0));
    canvas.draw(&src, 0, 0);
    assert_eq!(canvas.get_pixel(0, 0), Some((10, 20, 30, 255)));
}

#[test]
fn draw_clips_pixels_outside_canvas() {
    let mut canvas = RgbaImage::new(2, 2);
    canvas.fill((0, 0, 255, 255));
    let mut src = RgbaImage::new(2, 2);
    src.fill((9, 9, 9, 255));
    canvas.draw(&src, -1, -1);
    assert_eq!(canvas.get_pixel(0, 0), Some((9, 9, 9, 255)));
    assert_eq!(canvas.get_pixel(1, 0), Some((0, 0, 255, 255)));
    assert_eq!(canvas.get_pixel(0, 1), Some((0, 0, 255, 255)));
    assert_eq!(canvas.get_pixel(1, 1), Some((0, 0, 255, 255)));
}

#[test]
fn nearest_neighbor_scale_by_twenty_makes_uniform_blocks() {
    let mut img = RgbaImage::new(3, 3);
    for y in 0..3u32 {
        for x in 0..3u32 {
            img.set_pixel(x, y, ((x * 10) as u8, (y * 10) as u8, 7, 255));
        }
    }
    let scaled = RgbaImage::nearest_neighbor_scale(&img, 20, 1).unwrap();
    assert_eq!(scaled.width(), 60);
    assert_eq!(scaled.height(), 60);
    for y in 0..60u32 {
        for x in 0..60u32 {
            let expected = (((x / 20) * 10) as u8, ((y / 20) * 10) as u8, 7, 255);
            assert_eq!(scaled.get_pixel(x, y), Some(expected));
        }
    }
}

#[test]
fn nearest_neighbor_scale_down_samples_sparse_pixels() {
    let mut img = RgbaImage::new(4, 4);
    for y in 0..4u32 {
        for x in 0..4u32 {
            img.set_pixel(x, y, (x as u8, y as u8, 0, 255));
        }
    }
    let scaled = RgbaImage::nearest_neighbor_scale(&img, 1, 2).unwrap();
    assert_eq!(scaled.width(), 2);
    assert_eq!(scaled.height(), 2);
    for y in 0..2u32 {
        for x in 0..2u32 {
            assert_eq!(scaled.get_pixel(x, y), Some(((2 * x) as u8, (2 * y) as u8, 0, 255)));
        }
    }
}

#[test]
fn nearest_neighbor_scale_rejects_zero_dimension() {
    let img = RgbaImage::new(3, 3);
    let shrunk = RgbaImage::nearest_neighbor_scale(&img, 1, 10);
    assert!(matches!(shrunk, Err(ScaleError::DegenerateDimensions)));
    let zeroed = RgbaImage::nearest_neighbor_scale(&img, 0, 1);
    assert!(matches!(zeroed, Err(ScaleError::DegenerateDimensions)));
}

#[test]
fn nearest_neighbor_scale_rounds_dimensions() {
    // a 1x1 image at factor one half rounds to a 1x1 result
    let mut img = RgbaImage::new(1, 1);
    img.set_pixel(0, 0, (5, 6, 7, 255));
    let scaled = RgbaImage::nearest_neighbor_scale(&img, 1, 2).unwrap();
    assert_eq!(scaled.width(), 1);
    assert_eq!(scaled.height(), 1);
    assert_eq!(scaled.get_pixel(0, 0), Some((5, 6, 7, 255)));
    // 3 x 3 at three halves rounds 4.5 up to 5
    let mut tall = RgbaImage::new(3, 3);
    tall.fill((1, 2, 3, 255));
    let grown = RgbaImage::nearest_neighbor_scale(&tall, 3, 2).unwrap();
    assert_eq!(grown.width(), 5);
    assert_eq!(grown.height(), 5);
}

#[test]
fn empty_canvas_accepts_no_pixels() {
    let mut img = RgbaImage::new(0, 0);
    assert_eq!(img.width(), 0);
    assert_eq!(img.height(), 0);
    assert!(!img.set_pixel(0, 0, (1, 2, 3, 4)));
    assert_eq!(img.get_pixel(0, 0), None);
}
