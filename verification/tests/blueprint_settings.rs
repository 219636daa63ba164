use open_ui::UIBlueprint;

#[test]
fn default_blueprint_values() {
    let bp = UIBlueprint::default();
    assert_eq!(bp.title, "");
    assert_eq!(bp.dimensions, (800, 800));
    assert!(bp.resizeable);
    assert!(!bp.maximized);
    assert!(bp.preserve_aspect_ratio);
    assert_eq!(bp.frames_per_second, 60);
}

#[test]
fn blueprint_builders_replace_single_fields() {
    let bp = UIBlueprint::default()
        .title("Snake Game")
        .dimensions((640, 480))
        .preserve_aspect_ratio(false)
        .frames_per_second(30)
        .resizeable(false)
        .maximized(true);
    assert_eq!(bp.title, "Snake Game");
    assert_eq!(bp.dimensions, (640, 480));
    assert!(!bp.resizeable);
    assert!(bp.maximized);
    assert!(!bp.preserve_aspect_ratio);
    assert_eq!(bp.frames_per_second, 30);
}
