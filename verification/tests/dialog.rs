use blanqr::hotkey_dialog::check_key_state;
use blanqr::hotkey_dialog::dialog_confirm;
use blanqr::hotkey_dialog::dialog_result;
use blanqr::hotkey_dialog::dialog_timer_tick;
use blanqr::hotkey_dialog::format_hotkey;
use blanqr::hotkey_dialog::DialogState;

fn no_keys() -> Vec<bool> {
    vec![false; 256]
}

#[test]
fn format_shows_prompt_when_empty() {
    assert_eq!(format_hotkey(0, 0), "Press a key...");
}

#[test]
fn format_modifiers_without_key() {
    assert_eq!(format_hotkey(0x2, 0), "Ctrl");
    assert_eq!(format_hotkey(0x2 | 0x4, 0), "Ctrl+Shift");
}

#[test]
fn format_full_binding() {
    assert_eq!(format_hotkey(0x6, 'B' as u32), "Ctrl+Shift+B");
    assert_eq!(format_hotkey(0, '7' as u32), "7");
    assert_eq!(format_hotkey(0x8, 0x71), "Win+F2");
    assert_eq!(format_hotkey(0, 0x2F), "0x2F");
}

#[test]
fn poll_with_nothing_down_reports_nothing() {
    assert_eq!(check_key_state(&no_keys()), None);
}

#[test]
fn poll_with_only_modifiers_reports_nothing() {
    let mut down = no_keys();
    down[0x11] = true;
    down[0x10] = true;
    assert_eq!(check_key_state(&down), None);
}

#[test]
fn poll_reports_modifiers_and_key() {
    let mut down = no_keys();
    down[0x11] = true;
    down['B' as usize] = true;
    assert_eq!(check_key_state(&down), Some((0x2, 'B' as u32)));
}

#[test]
fn poll_scans_letters_before_digits_before_function_keys() {
    let mut down = no_keys();
    down['5' as usize] = true;
    down[0x70] = true;
    assert_eq!(check_key_state(&down), Some((0, '5' as u32)));

    down['C' as usize] = true;
    assert_eq!(check_key_state(&down), Some((0, 'C' as u32)));

    let mut down = no_keys();
    down[0x7B] = true;
    assert_eq!(check_key_state(&down), Some((0, 0x7B)));
}

#[test]
fn poll_reports_either_win_key() {
    let mut down = no_keys();
    down[0x5C] = true;
    down['A' as usize] = true;
    assert_eq!(check_key_state(&down), Some((0x8, 'A' as u32)));
}

#[test]
fn fresh_dialog_shows_current_binding_unconfirmed() {
    let s = DialogState::new(0x6, 'B' as u32);
    assert_eq!(s.modifiers, 0x6);
    assert_eq!(s.key, 'B' as u32);
    assert!(!s.confirmed);
    assert_eq!(s.last_key, 0);
}

#[test]
fn timer_tick_captures_a_new_key_once() {
    let mut s = DialogState::new(0x6, 'B' as u32);
    let changed = dialog_timer_tick(&mut s, Some((0x2, 'A' as u32)));
    assert!(changed);
    assert_eq!(s.modifiers, 0x2);
    assert_eq!(s.key, 'A' as u32);
    assert_eq!(s.last_key, 'A' as u32);

    let changed = dialog_timer_tick(&mut s, Some((0x2, 'A' as u32)));
    assert!(!changed);

    let changed = dialog_timer_tick(&mut s, None);
    assert!(!changed);
    assert_eq!(s.last_key, 0);
    assert_eq!(s.key, 'A' as u32);

    let changed = dialog_timer_tick(&mut s, Some((0x2, 'A' as u32)));
    assert!(changed);
}

#[test]
fn confirm_without_key_warns_and_keeps_dialog_open() {
    let mut s = DialogState::new(0, 0);
    let accepted = dialog_confirm(&mut s);
    assert!(!accepted);
    assert!(!s.confirmed);
    assert_eq!(dialog_result(&s), None);
}

#[test]
fn confirm_with_key_yields_the_binding() {
    let mut s = DialogState::new(0x6, 'B' as u32);
    dialog_timer_tick(&mut s, Some((0x3, 0x74)));
    let accepted = dialog_confirm(&mut s);
    assert!(accepted);
    assert!(s.confirmed);
    assert_eq!(dialog_result(&s), Some((0x3, 0x74)));
}

#[test]
fn cancelled_dialog_yields_nothing() {
    let mut s = DialogState::new(0x6, 'B' as u32);
    dialog_timer_tick(&mut s, Some((0x1, 'Q' as u32)));
    assert_eq!(dialog_result(&s), None);
}
