use blanqr::config::parse_hotkey;
use blanqr::config::Config;
use blanqr::config::HotkeyConfig;

#[test]
fn default_binding_is_ctrl_shift_b() {
    let hk = HotkeyConfig::default();
    assert_eq!(hk.modifiers, 0x6);
    assert_eq!(hk.key, 'B' as u32);
    assert_eq!(hk.display(), "Ctrl+Shift+B");
}

#[test]
fn config_line_round_trips() {
    let config = Config::parse("hotkey = Ctrl+Alt+5");
    assert_eq!(config.hotkey.modifiers, 0x2 | 0x1);
    assert_eq!(config.hotkey.key, '5' as u32);
    assert_eq!(config.hotkey.display(), "Ctrl+Alt+5");
}

#[test]
fn parse_hotkey_is_case_insensitive_and_trims() {
    let hk = parse_hotkey(" ctrl + shift + b ").unwrap();
    assert_eq!(hk.modifiers, 0x6);
    assert_eq!(hk.key, 'B' as u32);
}

#[test]
fn parse_hotkey_control_and_windows_synonyms() {
    let hk = parse_hotkey("Control+Windows+Z").unwrap();
    assert_eq!(hk.modifiers, 0x2 | 0x8);
    assert_eq!(hk.key, 'Z' as u32);
}

#[test]
fn parse_hotkey_function_keys() {
    assert_eq!(parse_hotkey("F1").unwrap().key, 0x70);
    assert_eq!(parse_hotkey("Win+F12").unwrap().key, 0x7B);
    assert_eq!(parse_hotkey("Win+F12").unwrap().modifiers, 0x8);
    assert_eq!(parse_hotkey("Shift+f5").unwrap().key, 0x74);
}

#[test]
fn parse_hotkey_lone_f_is_the_letter_f() {
    let hk = parse_hotkey("Ctrl+F").unwrap();
    assert_eq!(hk.key, 'F' as u32);
}

#[test]
fn parse_hotkey_rejects_missing_or_bad_keys() {
    assert!(parse_hotkey("").is_none());
    assert!(parse_hotkey("Ctrl+Alt").is_none());
    assert!(parse_hotkey("F0").is_none());
    assert!(parse_hotkey("F13").is_none());
    assert!(parse_hotkey("F999999999999999999999").is_none());
    assert!(parse_hotkey("?!").is_none());
}

#[test]
fn parse_hotkey_ignores_unknown_parts() {
    let hk = parse_hotkey("Ctrl+Foo+X").unwrap();
    assert_eq!(hk.modifiers, 0x2);
    assert_eq!(hk.key, 'X' as u32);
}

#[test]
fn parse_hotkey_later_key_wins() {
    let hk = parse_hotkey("A+B").unwrap();
    assert_eq!(hk.key, 'B' as u32);
}

#[test]
fn display_digit_and_letter_keys() {
    assert_eq!(HotkeyConfig { modifiers: 0, key: '5' as u32 }.display(), "5");
    assert_eq!(HotkeyConfig { modifiers: 0x1, key: 'Q' as u32 }.display(), "Alt+Q");
}

#[test]
fn display_function_keys() {
    assert_eq!(HotkeyConfig { modifiers: 0, key: 0x70 }.display(), "F1");
    assert_eq!(HotkeyConfig { modifiers: 0, key: 0x7B }.display(), "F12");
}

#[test]
fn display_other_keys_as_hex() {
    assert_eq!(HotkeyConfig { modifiers: 0, key: 0x1B }.display(), "0x1B");
    assert_eq!(HotkeyConfig { modifiers: 0, key: 0 }.display(), "0x00");
    assert_eq!(HotkeyConfig { modifiers: 0, key: 0x123 }.display(), "0x123");
}

#[test]
fn display_orders_modifiers() {
    let hk = HotkeyConfig { modifiers: 0xF, key: 'A' as u32 };
    assert_eq!(hk.display(), "Ctrl+Alt+Shift+Win+A");
}

#[test]
fn config_parse_skips_comments_and_blanks() {
    let config = Config::parse("# a comment\n\n   \nhotkey = Alt+Q\n");
    assert_eq!(config.hotkey.modifiers, 0x1);
    assert_eq!(config.hotkey.key, 'Q' as u32);
}

#[test]
fn config_parse_handles_crlf() {
    let config = Config::parse("# c\r\nhotkey = Win+D\r\n");
    assert_eq!(config.hotkey.modifiers, 0x8);
    assert_eq!(config.hotkey.key, 'D' as u32);
}

#[test]
fn config_parse_falls_back_to_default() {
    let config = Config::parse("hotkey = nonsense");
    assert_eq!(config.hotkey.modifiers, 0x6);
    assert_eq!(config.hotkey.key, 'B' as u32);

    let config = Config::parse("");
    assert_eq!(config.hotkey.modifiers, 0x6);
    assert_eq!(config.hotkey.key, 'B' as u32);

    let config = Config::parse("other = Ctrl+X");
    assert_eq!(config.hotkey.key, 'B' as u32);
}

#[test]
fn config_parse_last_line_wins() {
    let config = Config::parse("hotkey = Ctrl+A\nhotkey = Shift+Z\n");
    assert_eq!(config.hotkey.modifiers, 0x4);
    assert_eq!(config.hotkey.key, 'Z' as u32);
}

#[test]
fn config_parse_value_with_equals_sign_splits_once() {
    let config = Config::parse("hotkey = Ctrl+A = junk");
    assert_eq!(config.hotkey.modifiers, 0x6);
    assert_eq!(config.hotkey.key, 'B' as u32);
}

#[test]
fn file_content_is_one_hotkey_line() {
    let config = Config { hotkey: HotkeyConfig { modifiers: 0x6, key: 'B' as u32 } };
    assert_eq!(config.file_content(), "hotkey = Ctrl+Shift+B\n");
}

#[test]
fn saved_content_parses_back() {
    let config = Config { hotkey: HotkeyConfig { modifiers: 0x9, key: 0x77 } };
    let reread = Config::parse(&config.file_content());
    assert_eq!(reread.hotkey.modifiers, 0x9);
    assert_eq!(reread.hotkey.key, 0x77);
}

#[test]
fn config_path_with_and_without_appdata() {
    assert_eq!(
        Config::config_path(Some("C:\\Users\\me\\AppData\\Roaming")),
        "C:\\Users\\me\\AppData\\Roaming\\Blanqr\\config.ini"
    );
    assert_eq!(Config::config_path(None), ".\\config.ini");
}
