use photo_widget::config::{AppConfig, TimeUnit};
use photo_widget::controller::{Controller, Mode, TrayMessage, WindowCommand};
use photo_widget::geometry::{FitMode, Pos, ResizeAnchor, Size};
use photo_widget::playlist::{OrientationFilter, ScannedFile};

fn size(width: u32, height: u32) -> Size {
    Size { width, height }
}

fn files() -> Vec<ScannedFile> {
    vec![
        ScannedFile { path: "p/one.jpg".to_string(), dims: Some(size(800, 600)) },
        ScannedFile { path: "p/two.jpg".to_string(), dims: Some(size(600, 800)) },
        ScannedFile { path: "p/three.png".to_string(), dims: Some(size(1000, 500)) },
    ]
}

fn started() -> Controller {
    let mut c = Controller::new(AppConfig::default(), 0);
    c.rebuild(&files());
    c
}

#[test]
fn new_controller_normalizes_refresh_display() {
    let mut cfg = AppConfig::default();
    cfg.refresh_interval = 7200;
    let c = Controller::new(cfg, 5);
    assert_eq!((c.config.refresh_value, c.config.refresh_unit), (2, TimeUnit::Hours));
    assert_eq!(c.mode, Mode::Browsing);
    assert_eq!(c.issued, 0);
}

#[test]
fn rebuild_issues_first_load() {
    let mut c = Controller::new(AppConfig::default(), 0);
    let r = c.rebuild(&files()).unwrap();
    assert_eq!(r.generation, 1);
    assert!(["p/one.jpg", "p/two.jpg", "p/three.png"].contains(&r.path.as_str()));
    assert_eq!(c.current_path.as_deref(), Some(r.path.as_str()));
}

#[test]
fn rebuild_with_nothing_issues_nothing() {
    let mut c = Controller::new(AppConfig::default(), 0);
    assert!(c.rebuild(&Vec::new()).is_none());
    assert_eq!(c.issued, 0);
}

#[test]
fn stale_decode_is_dropped() {
    let mut c = started();
    let second = c.primary_click(10).unwrap();
    assert_eq!(second.generation, 2);
    assert!(!c.image_decoded(1, size(10, 10)));
    assert_eq!(c.shown, None);
    assert!(c.image_decoded(2, size(800, 600)));
    assert_eq!(c.shown, Some(size(800, 600)));
}

#[test]
fn decode_before_any_request_is_dropped() {
    let mut c = Controller::new(AppConfig::default(), 0);
    assert!(!c.image_decoded(0, size(10, 10)));
}

#[test]
fn tick_waits_for_interval() {
    let mut c = started();
    assert!(c.tick(299_999).is_none());
    let r = c.tick(300_000).unwrap();
    assert_eq!(r.generation, 2);
    assert_eq!(c.last_change_ms, 300_000);
    assert!(c.tick(300_500).is_none());
}

#[test]
fn tick_disabled_by_zero_interval_or_settings() {
    let mut c = started();
    c.config.refresh_interval = 0;
    assert!(c.tick(10_000_000).is_none());
    c.config.refresh_interval = 1;
    c.open_settings();
    assert!(c.tick(10_000_000).is_none());
}

#[test]
fn click_advances_and_restarts_timer() {
    let mut c = started();
    let r = c.primary_click(1234).unwrap();
    assert_eq!(r.generation, 2);
    assert_eq!(c.last_change_ms, 1234);
    c.open_settings();
    assert!(c.primary_click(2000).is_none());
}

#[test]
fn tray_commands() {
    let mut c = started();
    assert_eq!(c.on_tray(TrayMessage::FocusWindow), WindowCommand::Focus);
    assert_eq!(c.mode, Mode::Browsing);
    assert_eq!(c.on_tray(TrayMessage::Quit), WindowCommand::Close);
    assert_eq!(c.on_tray(TrayMessage::ShowSettings), WindowCommand::OpenSettings);
    assert_eq!(c.mode, Mode::SettingsOpen);
}

#[test]
fn add_folder_once() {
    let mut c = started();
    assert!(c.add_folder("/a".to_string()));
    assert!(!c.add_folder("/a".to_string()));
    assert!(c.add_folder("/b".to_string()));
    assert_eq!(c.config.folders, vec!["/a".to_string(), "/b".to_string()]);
    c.remove_folder(0);
    assert_eq!(c.config.folders, vec!["/b".to_string()]);
}

#[test]
fn filter_change_reported() {
    let mut c = started();
    assert!(!c.set_orientation_filter(OrientationFilter::Both));
    assert!(c.set_orientation_filter(OrientationFilter::Portrait));
    let r = c.rebuild(&files()).unwrap();
    assert_eq!(r.path, "p/two.jpg");
}

#[test]
fn save_and_close_applies_settings() {
    let mut c = started();
    c.open_settings();
    c.config.refresh_value = 3;
    c.config.refresh_unit = TimeUnit::Hours;
    let rec = c.save_and_close(Some(Pos { x: 10, y: 20 }), 777);
    assert_eq!(c.mode, Mode::Browsing);
    assert_eq!(c.config.refresh_interval, 10800);
    assert_eq!(c.config.window_pos, Some(Pos { x: 10, y: 20 }));
    assert_eq!(c.last_change_ms, 777);
    assert_eq!(rec.refresh_interval, Some(10800));
    assert_eq!(rec.window_pos, Some(Pos { x: 10, y: 20 }));
}

#[test]
fn window_moved_records_position() {
    let mut c = started();
    let rec = c.window_moved(Pos { x: 5, y: 6 });
    assert_eq!(rec.window_pos, Some(Pos { x: 5, y: 6 }));
}

#[test]
fn window_size_follows_state() {
    let mut c = started();
    assert_eq!(c.window_size(), size(400, 300));
    c.image_decoded(1, size(600, 800));
    assert_eq!(c.window_size(), size(300, 400));
    c.config.fit_mode = FitMode::Contain;
    c.image_decoded(1, size(1600, 900));
    assert_eq!(c.window_size(), size(400, 225));
    c.open_settings();
    assert_eq!(c.window_size(), size(500, 600));
}

#[test]
fn placement_keeps_anchor() {
    let mut c = started();
    let first = c.place_window(Some(Pos { x: 100, y: 100 }));
    assert_eq!(first.size, size(400, 300));
    assert_eq!(first.pos, None);
    c.image_decoded(1, size(600, 800));
    let second = c.place_window(Some(Pos { x: 100, y: 100 }));
    assert_eq!(second.size, size(300, 400));
    assert_eq!(second.pos, Some(Pos { x: 150, y: 50 }));
    let third = c.place_window(Some(Pos { x: 150, y: 50 }));
    assert_eq!(third.pos, None);
    c.config.resize_anchor = ResizeAnchor::TopLeft;
    c.image_decoded(1, size(800, 600));
    let fourth = c.place_window(Some(Pos { x: 150, y: 50 }));
    assert_eq!(fourth.pos, Some(Pos { x: 150, y: 50 }));
}

#[test]
fn bounds_checked_once_a_second() {
    let mut c = started();
    let monitor = size(1920, 1080);
    assert_eq!(c.check_bounds(1000, Pos { x: -10, y: 50 }, size(400, 300), monitor), None);
    assert_eq!(c.check_bounds(1001, Pos { x: -10, y: 50 }, size(400, 300), monitor), Some(Pos { x: 0, y: 50 }));
    assert_eq!(c.check_bounds(1500, Pos { x: 1800, y: 50 }, size(400, 300), monitor), None);
    assert_eq!(c.check_bounds(2002, Pos { x: 1800, y: 50 }, size(400, 300), monitor), Some(Pos { x: 1520, y: 50 }));
    assert_eq!(c.check_bounds(3003, Pos { x: 10, y: 10 }, size(400, 300), monitor), None);
}

#[test]
fn drag_bar_hides_after_grace() {
    let mut c = started();
    assert!(c.hover(true, 0));
    assert!(c.hover(false, 10));
    assert!(c.hover(false, 110));
    assert!(!c.hover(false, 111));
    assert!(c.hover(true, 200));
    assert_eq!(c.hover_left_ms, None);
}
