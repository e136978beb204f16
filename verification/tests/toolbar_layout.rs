use overlay_core::geom::Selection;
use overlay_core::toolbar::Toolbar;
use overlay_core::{BUTTON_HEIGHT, BUTTON_SPACING, BUTTON_WIDTH, TOTAL_BUTTONS};

fn mk_sel(a: (i64, i64), b: (i64, i64)) -> Selection {
    Selection { start: a, end: b }
}

#[test]
fn toolbar_width_is_buttons_plus_gaps() {
    let t = Toolbar::calculate(&mk_sel((100, 100), (300, 200)), (1920, 1080));
    assert_eq!(t.width, TOTAL_BUTTONS * BUTTON_WIDTH + (TOTAL_BUTTONS - 1) * BUTTON_SPACING);
    assert_eq!(t.width, 220);
    assert_eq!(t.height, BUTTON_HEIGHT);
}

#[test]
fn toolbar_sits_below_selection_by_default() {
    let t = Toolbar::calculate(&mk_sel((100, 100), (300, 200)), (1920, 1080));
    // bottom + margin, centered under the selection
    assert_eq!(t.y, 215);
    assert_eq!(t.x, 90);
}

#[test]
fn toolbar_flips_above_near_screen_bottom() {
    let t = Toolbar::calculate(&mk_sel((100, 500), (300, 580)), (800, 600));
    // top - height - margin
    assert_eq!(t.y, 500 - 30 - 15);
    assert_eq!(t.x, 90);
}

#[test]
fn flipped_toolbar_is_clamped_to_top_margin() {
    let t = Toolbar::calculate(&mk_sel((100, 20), (300, 580)), (800, 600));
    assert_eq!(t.y, 10);
}

#[test]
fn toolbar_is_clamped_into_horizontal_margins() {
    let t = Toolbar::calculate(&mk_sel((0, 100), (40, 200)), (1920, 1080));
    assert_eq!(t.x, 10);
    let t2 = Toolbar::calculate(&mk_sel((1880, 100), (1920, 200)), (1920, 1080));
    assert_eq!(t2.x, 1920 - 220 - 10);
}

#[test]
fn button_index_resolves_by_pitch() {
    let t = Toolbar::calculate(&mk_sel((100, 100), (300, 200)), (1920, 1080));
    // toolbar box is [90, 310] x [215, 245]
    assert_eq!(t.get_button_index(90, 215), Some(0));
    assert_eq!(t.get_button_index(134, 230), Some(0));
    assert_eq!(t.get_button_index(135, 230), Some(1));
    assert_eq!(t.get_button_index(225, 245), Some(3));
    assert_eq!(t.get_button_index(280, 230), Some(4));
    assert_eq!(t.get_button_index(310, 230), Some(4));
    assert_eq!(t.get_button_index(311, 230), None);
    assert_eq!(t.get_button_index(200, 214), None);
    assert_eq!(t.get_button_index(200, 246), None);
}

#[test]
fn button_geometry_and_hover() {
    let t = Toolbar::calculate(&mk_sel((100, 100), (300, 200)), (1920, 1080));
    assert_eq!(t.button_x(0), 90);
    assert_eq!(t.button_x(4), 90 + 4 * 45);
    assert!(t.button_hovered(2, 185, 230));
    assert!(!t.button_hovered(2, 230, 230));
    assert!(!t.button_hovered(2, 185, 250));
}

#[test]
fn toolbar_contains_point_is_inclusive() {
    let t = Toolbar::calculate(&mk_sel((100, 100), (300, 200)), (1920, 1080));
    assert!(t.contains_point(90, 215));
    assert!(t.contains_point(310, 245));
    assert!(!t.contains_point(89, 230));
    assert!(!t.contains_point(200, 246));
}
