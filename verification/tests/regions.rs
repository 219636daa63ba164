use open_ui::RgbaImage;

#[test]
fn get_region_rejects_inverted_rectangles() {
    let img = RgbaImage::new(4, 4);
    assert!(img.get_region((2, 0), (1, 3)).is_none());
    assert!(img.get_region((0, 2), (3, 1)).is_none());
}

#[test]
fn get_region_rejects_out_of_bounds_rectangles() {
    let img = RgbaImage::new(4, 4);
    assert!(img.get_region((0, 0), (3, 4)).is_none());
    assert!(img.get_region((0, 0), (4, 3)).is_none());
    assert!(img.get_region((0, 4), (3, 4)).is_none());
    // a rectangle past the right edge is rejected even where its
    // flattened byte range would still fit the buffer
    assert!(img.get_region((0, 0), (5, 0)).is_none());
}

#[test]
fn full_canvas_region_has_expected_extent() {
    let mut img = RgbaImage::new(4, 3);
    img.fill((1, 2, 3, 4));
    let region = img.get_region((0, 0), (3, 2)).unwrap();
    assert_eq!(region.width(), 4);
    assert_eq!(region.height(), 3);
    // all twelve pixels are inside the region's bytes, and the first
    // offset past them is not: the region holds exactly 4 * 3 * 4 bytes
    for y in 0..3u32 {
        for x in 0..4u32 {
            assert_eq!(region.get_pixel(x, y), Some((1, 2, 3, 4)));
        }
    }
    assert!(region.get_pixel(0, 3).is_none());
}

#[test]
fn as_region_covers_the_whole_canvas() {
    let mut img = RgbaImage::new(2, 2);
    img.fill((1, 2, 3, 4));
    let region = img.as_region();
    assert_eq!(region.width(), 2);
    assert_eq!(region.height(), 2);
    for y in 0..2u32 {
        for x in 0..2u32 {
            assert_eq!(region.get_pixel(x, y), Some((1, 2, 3, 4)));
        }
    }
    assert!(region.get_pixel(0, 2).is_none());
}

#[test]
fn region_bytes_run_from_top_left_through_bottom_right() {
    // a region is one flat run of the parent's bytes: its own rows are
    // read back against the region's width, not the parent's
    let mut img = RgbaImage::new(4, 2);
    for y in 0..2u32 {
        for x in 0..4u32 {
            img.set_pixel(x, y, ((4 * y + x) as u8, 0, 0, 255));
        }
    }
    let region = img.get_region((1, 0), (2, 1)).unwrap();
    assert_eq!(region.width(), 2);
    assert_eq!(region.height(), 2);
    // the run starts at the parent's flat offset 1 and the region's
    // rows are two pixels wide, so region (1, 1) reads parent offset 4
    assert_eq!(region.get_pixel(0, 0), Some((1, 0, 0, 255)));
    assert_eq!(region.get_pixel(1, 0), Some((2, 0, 0, 255)));
    assert_eq!(region.get_pixel(0, 1), Some((3, 0, 0, 255)));
    assert_eq!(region.get_pixel(1, 1), Some((4, 0, 0, 255)));
}
