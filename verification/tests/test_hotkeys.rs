use nos_autoclicker::infra::hotkeys::{
    match_hotkey_event, parse_hotkey, split_plus, string_to_code, HotkeyAction, KeyCode,
};

#[test]
fn test_parse_single_function_key() {
    let h = parse_hotkey("F6").unwrap();
    assert_eq!(h.key, KeyCode::F6);
    assert!(h.modifiers.is_empty());
}

#[test]
fn test_parse_modifiers_and_key() {
    let h = parse_hotkey("Ctrl+Shift+S").unwrap();
    assert_eq!(h.key, KeyCode::KeyS);
    assert!(h.modifiers.control);
    assert!(h.modifiers.shift);
    assert!(!h.modifiers.alt);
    assert!(!h.modifiers.super_key);
}

#[test]
fn test_parse_trims_and_ignores_case() {
    let h = parse_hotkey(" control + ALT + Win + pageup ").unwrap();
    assert_eq!(h.key, KeyCode::PageUp);
    assert!(h.modifiers.control && h.modifiers.alt && h.modifiers.super_key);
    assert!(!h.modifiers.shift);
}

#[test]
fn test_parse_last_key_wins() {
    let h = parse_hotkey("a+b").unwrap();
    assert_eq!(h.key, KeyCode::KeyB);
}

#[test]
fn test_parse_unknown_key() {
    assert_eq!(parse_hotkey("Ctrl+Foo").unwrap_err(), "Unknown key: 'foo'");
}

#[test]
fn test_parse_modifiers_only() {
    assert_eq!(parse_hotkey("Ctrl+Shift").unwrap_err(), "No key code found in 'Ctrl+Shift'");
}

#[test]
fn test_parse_empty_piece_is_unknown_key() {
    assert_eq!(parse_hotkey("Ctrl+").unwrap_err(), "Unknown key: ''");
}

#[test]
fn test_string_to_code_aliases() {
    assert_eq!(string_to_code("ESC").unwrap(), KeyCode::Escape);
    assert_eq!(string_to_code("return").unwrap(), KeyCode::Enter);
    assert_eq!(string_to_code("Del").unwrap(), KeyCode::Delete);
    assert_eq!(string_to_code("ins").unwrap(), KeyCode::Insert);
    assert_eq!(string_to_code("F12").unwrap(), KeyCode::F12);
    assert_eq!(string_to_code("Left").unwrap(), KeyCode::ArrowLeft);
    assert_eq!(string_to_code("F13").unwrap_err(), "Unknown key: 'F13'");
}

#[test]
fn test_split_plus_pieces() {
    assert_eq!(split_plus("a+b+c"), vec!["a", "b", "c"]);
    assert_eq!(split_plus(""), vec![""]);
    assert_eq!(split_plus("+"), vec!["", ""]);
    assert_eq!(split_plus("é+ü"), vec!["é", "ü"]);
}

#[test]
fn test_match_hotkey_event_order() {
    assert_eq!(match_hotkey_event(1, Some(1), Some(2), Some(3)), Some(HotkeyAction::Start));
    assert_eq!(match_hotkey_event(2, Some(1), Some(2), Some(3)), Some(HotkeyAction::Stop));
    assert_eq!(match_hotkey_event(3, Some(1), Some(2), Some(3)), Some(HotkeyAction::PanicStop));
    assert_eq!(match_hotkey_event(4, Some(1), Some(2), Some(3)), None);
    assert_eq!(match_hotkey_event(1, None, Some(1), Some(1)), Some(HotkeyAction::Stop));
    assert_eq!(match_hotkey_event(1, None, None, None), None);
}
