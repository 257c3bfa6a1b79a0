use yazi_fm::keys::{format_key_event, join_parts, KeyCode, KeyEvent, KeyModifiers};

fn key(code: KeyCode, control: bool, shift: bool, alt: bool) -> KeyEvent {
    KeyEvent { code, modifiers: KeyModifiers { control, shift, alt } }
}

#[test]
fn plain_character_is_upper_case() {
    assert_eq!(format_key_event(&key(KeyCode::Char('s'), false, false, false)), "S");
    assert_eq!(format_key_event(&key(KeyCode::Char('ß'), false, false, false)), "SS");
    assert_eq!(format_key_event(&key(KeyCode::Char('1'), false, false, false)), "1");
}

#[test]
fn modifiers_come_first_in_order() {
    assert_eq!(format_key_event(&key(KeyCode::Char('p'), true, false, false)), "Ctrl+P");
    assert_eq!(format_key_event(&key(KeyCode::Char('p'), true, true, true)), "Ctrl+Shift+Alt+P");
    assert_eq!(format_key_event(&key(KeyCode::Enter, false, true, true)), "Shift+Alt+Enter");
}

#[test]
fn function_keys_have_their_number() {
    assert_eq!(format_key_event(&key(KeyCode::F(5), false, false, false)), "F5");
    assert_eq!(format_key_event(&key(KeyCode::F(12), true, false, false)), "Ctrl+F12");
    assert_eq!(format_key_event(&key(KeyCode::F(255), false, false, false)), "F255");
}

#[test]
fn named_keys() {
    let cases = [
        (KeyCode::Backspace, "Backspace"),
        (KeyCode::Enter, "Enter"),
        (KeyCode::Left, "Left"),
        (KeyCode::Right, "Right"),
        (KeyCode::Up, "Up"),
        (KeyCode::Down, "Down"),
        (KeyCode::Home, "Home"),
        (KeyCode::End, "End"),
        (KeyCode::PageUp, "PageUp"),
        (KeyCode::PageDown, "PageDown"),
        (KeyCode::Tab, "Tab"),
        (KeyCode::BackTab, "BackTab"),
        (KeyCode::Delete, "Delete"),
        (KeyCode::Insert, "Insert"),
        (KeyCode::Esc, "Esc"),
    ];
    for (code, name) in cases {
        assert_eq!(format_key_event(&key(code, false, false, false)), name);
    }
}

#[test]
fn other_keys_are_unknown_whatever_the_modifiers() {
    assert_eq!(format_key_event(&key(KeyCode::Other, false, false, false)), "Unknown");
    assert_eq!(format_key_event(&key(KeyCode::Other, true, true, false)), "Unknown");
}

#[test]
fn join_writes_separators_between_parts() {
    assert_eq!(join_parts(&vec![], "+"), "");
    assert_eq!(join_parts(&vec!["a".to_string()], "+"), "a");
    assert_eq!(join_parts(&vec!["a".to_string(), "bc".to_string(), "d".to_string()], ", "), "a, bc, d");
}

#[test]
fn ascii_letter_and_capital_share_a_label() {
    let mods = KeyModifiers { control: true, shift: false, alt: true };
    let lower = format_key_event(&KeyEvent { code: KeyCode::Char('q'), modifiers: mods });
    let upper = format_key_event(&KeyEvent { code: KeyCode::Char('Q'), modifiers: mods });
    assert_eq!(lower, "Ctrl+Alt+Q");
    assert_eq!(lower, upper);
    let plain = KeyModifiers { control: false, shift: false, alt: false };
    assert_eq!(format_key_event(&KeyEvent { code: KeyCode::Char('z'), modifiers: plain }), "Z");
    assert_eq!(format_key_event(&KeyEvent { code: KeyCode::Char('ß'), modifiers: plain }), "SS");
}
