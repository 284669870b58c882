use blanqr::color_picker::center_origin;
use blanqr::color_picker::get_color_rect;
use blanqr::color_picker::get_custom_button_rect;
use blanqr::color_picker::hit_test;
use blanqr::color_picker::hit_test_custom;
use blanqr::color_picker::preset_colors;
use blanqr::color_picker::PickerDecision;
use blanqr::color_picker::PickerOutcome;
use blanqr::color_picker::PickerState;
use blanqr::monitor::Rect;

#[test]
fn palette_holds_sixteen_colors() {
    let colors = preset_colors();
    assert_eq!(colors.len(), 16);
    assert_eq!(colors[0], 0x00000000);
    assert_eq!(colors[1], 0x00FFFFFF);
    assert_eq!(colors[15], 0x00F5E6C8);
}

#[test]
fn swatch_grid_layout() {
    assert_eq!(
        get_color_rect(0),
        Rect { left: 20, top: 70, right: 70, bottom: 120 }
    );
    assert_eq!(
        get_color_rect(5),
        Rect { left: 82, top: 132, right: 132, bottom: 182 }
    );
    assert_eq!(
        get_color_rect(15),
        Rect { left: 206, top: 256, right: 256, bottom: 306 }
    );
}

#[test]
fn custom_button_sits_below_the_grid() {
    assert_eq!(
        get_custom_button_rect(),
        Rect { left: 20, top: 328, right: 260, bottom: 364 }
    );
}

#[test]
fn hit_test_finds_swatches_and_misses_gaps() {
    assert_eq!(hit_test(25, 75), 0);
    assert_eq!(hit_test(69, 119), 0);
    assert_eq!(hit_test(70, 70), -1);
    assert_eq!(hit_test(90, 140), 5);
    assert_eq!(hit_test(0, 0), -1);
    assert_eq!(hit_test(250, 300), 15);
}

#[test]
fn hit_test_custom_checks_the_button() {
    assert!(hit_test_custom(20, 328));
    assert!(hit_test_custom(259, 363));
    assert!(!hit_test_custom(260, 328));
    assert!(!hit_test_custom(20, 364));
    assert!(!hit_test_custom(0, 0));
}

#[test]
fn picker_window_is_centred() {
    assert_eq!(center_origin(1920, 1080), (820, 340));
    assert_eq!(center_origin(280, 400), (0, 0));
}

#[test]
fn mouse_move_asks_for_repaint_only_on_change() {
    let mut s = PickerState::new();
    assert!(s.mouse_move(25, 75));
    assert_eq!(s.hover_index, 0);
    assert!(!s.mouse_move(30, 80));
    assert!(s.mouse_move(0, 0));
    assert_eq!(s.hover_index, -1);
    assert!(s.mouse_move(30, 340));
    assert!(s.hover_custom);
}

#[test]
fn click_on_swatch_chooses_its_color() {
    let mut s = PickerState::new();
    let close = s.click(90, 140);
    assert!(close);
    assert_eq!(s.outcome, PickerOutcome::Preset);
    assert_eq!(s.selected_color, preset_colors()[5]);
    assert_eq!(s.decision(), PickerDecision::Chosen(preset_colors()[5]));
}

#[test]
fn click_on_custom_defers_to_the_system_dialog() {
    let mut s = PickerState::new();
    let close = s.click(30, 340);
    assert!(close);
    assert_eq!(s.outcome, PickerOutcome::Custom);
    assert_eq!(s.decision(), PickerDecision::OpenSystemDialog);
}

#[test]
fn click_elsewhere_keeps_the_picker_open() {
    let mut s = PickerState::new();
    let close = s.click(0, 0);
    assert!(!close);
    assert_eq!(s.outcome, PickerOutcome::Pending);
    assert_eq!(s.decision(), PickerDecision::Cancelled);
}
