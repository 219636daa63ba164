use open_ui::projector::calculate_vertices;

#[test]
fn four_three_frame_in_wide_window_is_height_bound() {
    // a 4:3 frame in a 16:9 window spans the full height and leaves
    // horizontal padding: the quad is three quarters of the width
    let q = calculate_vertices(1600, 900, 400, 300);
    assert_eq!(q.mag_y_num, q.mag_y_den);
    assert!(q.mag_x_num < q.mag_x_den);
    assert_eq!(q.mag_x_num * 4, q.mag_x_den * 3);
}

#[test]
fn wide_frame_in_tall_window_is_width_bound() {
    // a 3:2 frame in a tall 3:4 window spans the full width and leaves
    // vertical padding: the quad is half of the height
    let q = calculate_vertices(600, 800, 300, 200);
    assert_eq!(q.mag_x_num, q.mag_x_den);
    assert!(q.mag_y_num < q.mag_y_den);
    assert_eq!(q.mag_y_num * 2, q.mag_y_den);
}

#[test]
fn sixteen_nine_frame_in_four_three_window_is_width_bound() {
    // a 16:9 frame in a 4:3 window spans the full width and leaves
    // vertical padding: the quad is three quarters of the height
    let q = calculate_vertices(400, 300, 160, 90);
    assert_eq!(q.mag_x_num, q.mag_x_den);
    assert!(q.mag_y_num < q.mag_y_den);
    assert_eq!(q.mag_y_num * 4, q.mag_y_den * 3);
}

#[test]
fn matching_aspect_ratios_fill_the_window() {
    let q = calculate_vertices(800, 600, 400, 300);
    assert_eq!(q.mag_y_num, q.mag_y_den);
    assert_eq!(q.mag_x_num, q.mag_x_den);
}
