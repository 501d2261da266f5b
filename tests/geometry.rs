use photo_widget::geometry::{
    clamp_to_monitor, cover_crop, reposition_for_resize, target_size, try_reposition_for_resize,
    FitMode, Pos, Presets, Rect, ResizeAnchor, Size,
};

fn size(width: u32, height: u32) -> Size {
    Size { width, height }
}

fn pos(x: i32, y: i32) -> Pos {
    Pos { x, y }
}

fn presets() -> Presets {
    Presets { landscape: size(400, 300), portrait: size(300, 400) }
}

#[test]
fn cover_uses_landscape_preset_for_any_wide_image() {
    for img in [size(4000, 1000), size(1600, 1200), size(500, 500), size(1, 1)] {
        assert_eq!(target_size(img, FitMode::Cover, presets()), size(400, 300));
    }
}

#[test]
fn cover_uses_portrait_preset_for_any_tall_image() {
    for img in [size(1000, 4000), size(1200, 1600), size(499, 500)] {
        assert_eq!(target_size(img, FitMode::Cover, presets()), size(300, 400));
    }
}

#[test]
fn contain_landscape_pins_width() {
    assert_eq!(target_size(size(1600, 1200), FitMode::Contain, presets()), size(400, 300));
    assert_eq!(target_size(size(1600, 900), FitMode::Contain, presets()), size(400, 225));
    assert_eq!(target_size(size(4000, 1000), FitMode::Contain, presets()), size(400, 100));
    // 400 / (3 / 2) = 266.67, rounded down
    assert_eq!(target_size(size(300, 200), FitMode::Contain, presets()), size(400, 266));
}

#[test]
fn contain_landscape_height_is_width_over_aspect() {
    let img = size(1920, 1080);
    let r = target_size(img, FitMode::Contain, presets());
    assert_eq!(r.width, 400);
    let exact = 400.0f64 / (1920.0f64 / 1080.0f64);
    assert!((r.height as f64 - exact).abs() < 1.0);
}

#[test]
fn contain_portrait_pins_height() {
    assert_eq!(target_size(size(1200, 1600), FitMode::Contain, presets()), size(300, 400));
    assert_eq!(target_size(size(900, 1600), FitMode::Contain, presets()), size(225, 400));
}

#[test]
fn contain_square_image_counts_as_landscape() {
    assert_eq!(target_size(size(800, 800), FitMode::Contain, presets()), size(400, 400));
}

#[test]
fn contain_zero_sized_image_gets_preset() {
    assert_eq!(target_size(size(0, 0), FitMode::Contain, presets()), size(400, 300));
    assert_eq!(target_size(size(0, 10), FitMode::Contain, presets()), size(300, 400));
}

#[test]
fn cover_crop_wide_image_cuts_sides() {
    // image aspect 2, box aspect 4/3: visible width 1000 * 4 / 3 = 1333
    let r = cover_crop(size(2000, 1000), size(400, 300));
    assert_eq!(r, Rect { x: 333, y: 0, width: 1333, height: 1000 });
}

#[test]
fn cover_crop_tall_image_cuts_top_and_bottom() {
    let r = cover_crop(size(1000, 2000), size(400, 300));
    assert_eq!(r, Rect { x: 0, y: 625, width: 1000, height: 750 });
}

#[test]
fn cover_crop_same_aspect_is_whole_image() {
    let r = cover_crop(size(800, 600), size(400, 300));
    assert_eq!(r, Rect { x: 0, y: 0, width: 800, height: 600 });
}

#[test]
fn cover_crop_zero_box_is_whole_image() {
    let r = cover_crop(size(800, 600), size(0, 300));
    assert_eq!(r, Rect { x: 0, y: 0, width: 800, height: 600 });
}

#[test]
fn reposition_center_example() {
    let r = reposition_for_resize(size(400, 300), size(300, 400), ResizeAnchor::Center, pos(100, 100));
    assert_eq!(r, pos(150, 50));
}

#[test]
fn reposition_center_odd_delta_rounds_down() {
    let r = reposition_for_resize(size(400, 300), size(401, 299), ResizeAnchor::Center, pos(100, 100));
    assert_eq!(r, pos(100, 101));
}

#[test]
fn reposition_top_left_keeps_position() {
    for (old, new) in [(size(400, 300), size(300, 400)), (size(1, 1), size(1000, 900)), (size(500, 500), size(500, 500))] {
        for p in [pos(0, 0), pos(-50, 70), pos(1800, 1000)] {
            assert_eq!(reposition_for_resize(old, new, ResizeAnchor::TopLeft, p), p);
        }
    }
}

#[test]
fn reposition_other_anchors() {
    let old = size(400, 300);
    let new = size(300, 400);
    let p = pos(100, 100);
    assert_eq!(reposition_for_resize(old, new, ResizeAnchor::TopRight, p), pos(200, 100));
    assert_eq!(reposition_for_resize(old, new, ResizeAnchor::BottomLeft, p), pos(100, 0));
    assert_eq!(reposition_for_resize(old, new, ResizeAnchor::BottomRight, p), pos(200, 0));
}

#[test]
fn reposition_out_of_range_is_refused() {
    let r = try_reposition_for_resize(size(0, 0), size(1000, 0), ResizeAnchor::BottomRight, pos(i32::MIN, 0));
    assert_eq!(r, None);
    let ok = try_reposition_for_resize(size(0, 0), size(10, 0), ResizeAnchor::BottomRight, pos(5, 0));
    assert_eq!(ok, Some(pos(-5, 0)));
}

#[test]
fn clamp_examples() {
    let monitor = size(1920, 1080);
    assert_eq!(clamp_to_monitor(pos(-10, 50), size(400, 300), monitor), pos(0, 50));
    assert_eq!(clamp_to_monitor(pos(1800, 50), size(400, 300), monitor), pos(1520, 50));
}

#[test]
fn clamp_vertical_and_inside() {
    let monitor = size(1920, 1080);
    assert_eq!(clamp_to_monitor(pos(100, 900), size(400, 300), monitor), pos(100, 780));
    assert_eq!(clamp_to_monitor(pos(100, -5), size(400, 300), monitor), pos(100, 0));
    assert_eq!(clamp_to_monitor(pos(100, 100), size(400, 300), monitor), pos(100, 100));
}

#[test]
fn clamp_window_larger_than_monitor_goes_to_origin() {
    assert_eq!(clamp_to_monitor(pos(50, 50), size(3000, 2000), size(1920, 1080)), pos(0, 0));
}
