use spotify_binds::keys::{combo_string, str_to_key, KeyCode};

#[test]
fn test_str_to_key_valid() {
    assert_eq!(str_to_key("KeyA"), Some(KeyCode::KeyA));
    assert_eq!(str_to_key("KeyB"), Some(KeyCode::KeyB));
    assert_eq!(str_to_key("KeyC"), Some(KeyCode::KeyC));
}

#[test]
fn test_str_to_key_invalid() {
    assert_eq!(str_to_key("InvalidKey"), None);
    assert_eq!(str_to_key(""), None);
}

#[test]
fn test_str_to_key_case_insensitive() {
    assert_eq!(str_to_key("keya"), Some(KeyCode::KeyA));
    assert_eq!(str_to_key("KEYA"), Some(KeyCode::KeyA));
}

#[test]
fn letter_aliases_resolve_alike() {
    assert_eq!(str_to_key("a"), Some(KeyCode::KeyA));
    assert_eq!(str_to_key("A"), Some(KeyCode::KeyA));
    assert_eq!(str_to_key("KeyA"), Some(KeyCode::KeyA));
    assert_eq!(str_to_key("z"), Some(KeyCode::KeyZ));
    assert_eq!(str_to_key("KEYZ"), Some(KeyCode::KeyZ));
}

#[test]
fn combo_takes_last_segment() {
    assert_eq!(str_to_key("Ctrl+Shift+A"), Some(KeyCode::KeyA));
    assert_eq!(str_to_key("Ctrl+B"), Some(KeyCode::KeyB));
    assert_eq!(str_to_key("Alt+F4"), Some(KeyCode::F4));
    assert_eq!(str_to_key("Ctrl+"), None);
}

#[test]
fn named_keys_resolve() {
    assert_eq!(str_to_key("Enter"), Some(KeyCode::Return));
    assert_eq!(str_to_key("Return"), Some(KeyCode::Return));
    assert_eq!(str_to_key("esc"), Some(KeyCode::Escape));
    assert_eq!(str_to_key("ESCAPE"), Some(KeyCode::Escape));
    assert_eq!(str_to_key("Space"), Some(KeyCode::Space));
    assert_eq!(str_to_key("Tab"), Some(KeyCode::Tab));
    assert_eq!(str_to_key("Shift"), Some(KeyCode::ShiftLeft));
    assert_eq!(str_to_key("Ctrl"), Some(KeyCode::ControlLeft));
    assert_eq!(str_to_key("Control"), Some(KeyCode::ControlLeft));
    assert_eq!(str_to_key("Alt"), Some(KeyCode::Alt));
    assert_eq!(str_to_key("Backspace"), Some(KeyCode::Backspace));
    assert_eq!(str_to_key("Delete"), Some(KeyCode::Delete));
    assert_eq!(str_to_key("DEL"), Some(KeyCode::Delete));
    assert_eq!(str_to_key("Ins"), Some(KeyCode::Insert));
    assert_eq!(str_to_key("Left"), Some(KeyCode::LeftArrow));
    assert_eq!(str_to_key("RightArrow"), Some(KeyCode::RightArrow));
    assert_eq!(str_to_key("Up"), Some(KeyCode::UpArrow));
    assert_eq!(str_to_key("DownArrow"), Some(KeyCode::DownArrow));
    assert_eq!(str_to_key("Home"), Some(KeyCode::Home));
    assert_eq!(str_to_key("End"), Some(KeyCode::End));
    assert_eq!(str_to_key("PageUp"), Some(KeyCode::PageUp));
    assert_eq!(str_to_key("PageDown"), Some(KeyCode::PageDown));
    assert_eq!(str_to_key("Pause"), Some(KeyCode::Pause));
    assert_eq!(str_to_key("Fn"), Some(KeyCode::Function));
    assert_eq!(str_to_key("PrintScreen"), Some(KeyCode::PrintScreen));
    assert_eq!(str_to_key("Equals"), Some(KeyCode::Equal));
    assert_eq!(str_to_key("Minus"), Some(KeyCode::Minus));
    assert_eq!(str_to_key("Comma"), Some(KeyCode::Comma));
    assert_eq!(str_to_key("Slash"), Some(KeyCode::Slash));
    assert_eq!(str_to_key("LeftBracket"), Some(KeyCode::LeftBracket));
    assert_eq!(str_to_key("RightBracket"), Some(KeyCode::RightBracket));
}

#[test]
fn function_keys_resolve() {
    assert_eq!(str_to_key("F1"), Some(KeyCode::F1));
    assert_eq!(str_to_key("f5"), Some(KeyCode::F5));
    assert_eq!(str_to_key("F10"), Some(KeyCode::F10));
    assert_eq!(str_to_key("F12"), Some(KeyCode::F12));
}

#[test]
fn surrounding_whitespace_is_trimmed() {
    assert_eq!(str_to_key(" KeyA "), Some(KeyCode::KeyA));
    assert_eq!(str_to_key("Key  B"), Some(KeyCode::KeyB));
    assert_eq!(str_to_key("Key B"), Some(KeyCode::KeyB));
    assert_eq!(str_to_key("  F5  "), Some(KeyCode::F5));
}

#[test]
fn unbound_placeholder_names_no_key() {
    assert_eq!(str_to_key("           "), None);
    assert_eq!(str_to_key("Key"), None);
}

#[test]
fn scroll_lock_name_is_not_in_the_table() {
    // the lookup table names no scroll-lock key, so the bind stays disabled
    assert_eq!(str_to_key("ScrollLock"), None);
    assert_eq!(str_to_key("SCROLLLOCK"), None);
}

#[test]
fn combo_string_orders_modifiers() {
    assert_eq!(combo_string(false, false, false, "A"), "A");
    assert_eq!(combo_string(true, false, false, "A"), "Ctrl+A");
    assert_eq!(combo_string(false, true, false, "Enter"), "Shift+Enter");
    assert_eq!(combo_string(false, false, true, "F4"), "Alt+F4");
    assert_eq!(combo_string(true, true, true, "X"), "Ctrl+Shift+Alt+X");
}

#[test]
fn captured_combo_parses_back_to_its_key() {
    let combo = combo_string(true, true, false, "A");
    assert_eq!(combo, "Ctrl+Shift+A");
    assert_eq!(str_to_key(&combo), Some(KeyCode::KeyA));
}

#[test]
fn digit_keys_resolve() {
    assert_eq!(str_to_key("0"), Some(KeyCode::Num0));
    assert_eq!(str_to_key("1"), Some(KeyCode::Num1));
    assert_eq!(str_to_key("5"), Some(KeyCode::Num5));
    assert_eq!(str_to_key("9"), Some(KeyCode::Num9));
    assert_eq!(str_to_key("Ctrl+7"), Some(KeyCode::Num7));
    assert_eq!(str_to_key("Key5"), Some(KeyCode::Num5));
    assert_eq!(str_to_key(" 3 "), Some(KeyCode::Num3));
    assert_eq!(str_to_key("10"), None);
}
