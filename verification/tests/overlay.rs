use blanqr::app::App;
use blanqr::app::is_toggle_hotkey;
use blanqr::app::DEFAULT_COLOR;
use blanqr::color_window::classify_message;
use blanqr::color_window::ColorWindow;
use blanqr::color_window::OverlayAction;
use blanqr::color_window::KEY_ESCAPE;
use blanqr::color_window::MSG_KEY_DOWN;
use blanqr::color_window::MSG_LEFT_BUTTON_DOWN;
use blanqr::color_window::MSG_PAINT;
use blanqr::color_window::MSG_RIGHT_BUTTON_DOWN;
use blanqr::color_window::MSG_SET_CURSOR;
use blanqr::config::Config;
use blanqr::monitor::MonitorInfo;
use blanqr::monitor::Rect;

fn monitor(id: usize, left: i32, top: i32, right: i32, bottom: i32, primary: bool) -> MonitorInfo {
    MonitorInfo {
        id,
        rect: Rect {
            left,
            top,
            right,
            bottom,
        },
        is_primary: primary,
        name: format!("DISPLAY{}", id),
    }
}

fn two_monitors() -> Vec<MonitorInfo> {
    vec![
        monitor(1, 0, 0, 1920, 1080, true),
        monitor(2, 1920, 0, 3840, 1080, false),
    ]
}

#[test]
fn new_app_is_hidden_and_black() {
    let app = App::new(Config::default());
    assert!(!app.is_visible());
    assert_eq!(app.color(), DEFAULT_COLOR);
    assert_eq!(app.window_count(), 0);
    assert!(!app.cursor_hidden());
    assert_eq!(app.hotkey().modifiers, 0x6);
    assert_eq!(app.hotkey().key, 0x42);
}

#[test]
fn show_all_two_monitors_white() {
    let mut app = App::new(Config::default());
    app.set_color(0x00FFFFFF);
    let monitors = two_monitors();
    let handles = vec![Some(11), Some(12)];
    app.show_all(&monitors, &handles);

    assert!(app.is_visible());
    assert!(app.cursor_hidden());
    assert_eq!(app.window_count(), 2);
    for i in 0..2 {
        let w = app.window_at(i);
        assert_eq!(w.color, 0x00FFFFFF);
        assert!(w.shown);
        assert!(w.topmost);
        assert_eq!(w.rect, monitors[i].rect);
    }
    assert_eq!(app.window_at(0).handle, 11);
    assert_eq!(app.window_at(1).handle, 12);

    app.hide_all();
    assert!(!app.is_visible());
    assert!(!app.cursor_hidden());
    for i in 0..2 {
        assert!(!app.window_at(i).shown);
    }
    assert_eq!(app.color(), 0x00FFFFFF);
}

#[test]
fn show_all_zero_monitors_is_visible_and_empty() {
    let mut app = App::new(Config::default());
    app.show_all(&Vec::new(), &Vec::new());
    assert!(app.is_visible());
    assert_eq!(app.window_count(), 0);
    assert!(!app.cursor_hidden());
}

#[test]
fn show_all_skips_failed_creations() {
    let mut app = App::new(Config::default());
    let monitors = vec![
        monitor(1, 0, 0, 800, 600, true),
        monitor(2, 800, 0, 1600, 600, false),
        monitor(3, 1600, 0, 2400, 600, false),
    ];
    let handles = vec![Some(21), None, Some(23)];
    app.show_all(&monitors, &handles);
    assert!(app.is_visible());
    assert_eq!(app.window_count(), 2);
    assert_eq!(app.window_at(0).rect, monitors[0].rect);
    assert_eq!(app.window_at(0).handle, 21);
    assert_eq!(app.window_at(1).rect, monitors[2].rect);
    assert_eq!(app.window_at(1).handle, 23);
}

#[test]
fn hide_when_already_hidden_changes_nothing() {
    let mut app = App::new(Config::default());
    app.set_color(0x00336699);
    let monitors = two_monitors();
    app.show_all(&monitors, &vec![Some(1), Some(2)]);
    app.hide_all();

    let before: Vec<ColorWindow> = (0..app.window_count()).map(|i| app.window_at(i)).collect();
    let color = app.color();

    app.hide_all();

    assert!(!app.is_visible());
    assert!(!app.cursor_hidden());
    assert_eq!(app.color(), color);
    assert_eq!(app.window_count(), before.len());
    for (i, w) in before.iter().enumerate() {
        assert_eq!(app.window_at(i), *w);
    }
}

#[test]
fn toggle_shows_then_hides() {
    let mut app = App::new(Config::default());
    let monitors = two_monitors();
    app.toggle(&monitors, &vec![Some(1), Some(2)]);
    assert!(app.is_visible());
    assert_eq!(app.window_count(), 2);
    app.toggle(&Vec::new(), &Vec::new());
    assert!(!app.is_visible());
}

#[test]
fn toggle_twice_keeps_color_set_while_hidden() {
    let mut app = App::new(Config::default());
    app.set_color(0x00112233);
    app.set_color(0x00ABCDEF);
    let monitors = two_monitors();
    app.toggle(&monitors, &vec![Some(1), Some(2)]);
    app.toggle(&monitors, &vec![Some(3), Some(4)]);
    assert!(!app.is_visible());
    assert_eq!(app.color(), 0x00ABCDEF);
}

#[test]
fn set_color_reaches_every_window_while_visible() {
    let mut app = App::new(Config::default());
    let monitors = two_monitors();
    app.show_all(&monitors, &vec![Some(1), Some(2)]);
    app.set_color(0x00001122);
    assert_eq!(app.color(), 0x00001122);
    for i in 0..app.window_count() {
        let w = app.window_at(i);
        assert_eq!(w.color, 0x00001122);
        assert!(w.shown);
    }
    assert!(app.is_visible());
}

#[test]
fn set_color_reaches_retained_windows_while_hidden() {
    let mut app = App::new(Config::default());
    let monitors = two_monitors();
    app.show_all(&monitors, &vec![Some(1), Some(2)]);
    app.hide_all();
    app.set_color(0x00445566);
    assert!(!app.is_visible());
    for i in 0..app.window_count() {
        let w = app.window_at(i);
        assert_eq!(w.color, 0x00445566);
        assert!(!w.shown);
    }
}

#[test]
fn dismiss_hides_the_whole_set() {
    let mut app = App::new(Config::default());
    let monitors = vec![
        monitor(1, 0, 0, 800, 600, true),
        monitor(2, 800, 0, 1600, 600, false),
        monitor(3, 1600, 0, 2400, 600, false),
    ];
    app.show_all(&monitors, &vec![Some(1), Some(2), Some(3)]);
    app.dismiss();
    assert!(!app.is_visible());
    assert!(!app.cursor_hidden());
    assert_eq!(app.window_count(), 3);
    for i in 0..3 {
        assert!(!app.window_at(i).shown);
    }
}

#[test]
fn set_hotkey_only_changes_the_binding() {
    let mut app = App::new(Config::default());
    app.set_color(0x00010203);
    app.set_hotkey(0x1, 0x70);
    assert_eq!(app.hotkey().modifiers, 0x1);
    assert_eq!(app.hotkey().key, 0x70);
    assert_eq!(app.color(), 0x00010203);
    assert!(!app.is_visible());
}

#[test]
fn window_lifecycle_fields() {
    let m = monitor(7, 10, 20, 110, 220, true);
    let mut w = ColorWindow::new(&m, 0x00ABCDEF, 42);
    assert_eq!(w.handle, 42);
    assert_eq!(w.rect, m.rect);
    assert_eq!(w.color, 0x00ABCDEF);
    assert!(!w.shown);
    assert!(w.topmost);
    w.show();
    assert!(w.shown);
    w.set_color(0x00000001);
    assert_eq!(w.color, 0x00000001);
    assert!(w.shown);
    w.hide_window();
    assert!(!w.shown);
    assert_eq!(w.rect, m.rect);
}

#[test]
fn rect_width_and_height() {
    let r = Rect {
        left: -100,
        top: 50,
        right: 1820,
        bottom: 1130,
    };
    assert_eq!(r.width(), 1920);
    assert_eq!(r.height(), 1080);
}

#[test]
fn dismiss_gestures_are_recognised() {
    assert_eq!(classify_message(MSG_LEFT_BUTTON_DOWN, 0), OverlayAction::Dismiss);
    assert_eq!(classify_message(MSG_RIGHT_BUTTON_DOWN, 0), OverlayAction::Dismiss);
    assert_eq!(classify_message(MSG_KEY_DOWN, KEY_ESCAPE), OverlayAction::Dismiss);
    assert_eq!(classify_message(MSG_KEY_DOWN, 0x41), OverlayAction::Ignore);
    assert_eq!(classify_message(MSG_PAINT, 0), OverlayAction::Paint);
    assert_eq!(classify_message(MSG_SET_CURSOR, 0), OverlayAction::SuppressCursor);
    assert_eq!(classify_message(0x0002, 0), OverlayAction::PassOn);
}

#[test]
fn hotkey_message_is_recognised() {
    assert!(is_toggle_hotkey(0x0312, 1));
    assert!(!is_toggle_hotkey(0x0312, 2));
    assert!(!is_toggle_hotkey(0x0313, 1));
}
