use hermes_clicker::hotkey::{code_to_name, HotkeyBinding, HotkeyModifiers, KeyCode};

fn mods(control: bool, alt: bool, shift: bool, super_key: bool) -> HotkeyModifiers {
    HotkeyModifiers { control, alt, shift, super_key }
}

#[test]
fn default_binding_is_f8() {
    let b = HotkeyBinding::default();
    assert_eq!(b.code, KeyCode::F8);
    assert!(b.modifiers.is_empty());
    assert_eq!(b.display_text(), "F8");
}

#[test]
fn parses_modifiers_and_key() {
    let b = HotkeyBinding::parse("Ctrl+Shift+F8").unwrap();
    assert_eq!(b.modifiers, mods(true, false, true, false));
    assert_eq!(b.code, KeyCode::F8);
}

#[test]
fn parses_aliases_case_and_spaces() {
    let b = HotkeyBinding::parse(" control + alt + meta + escape ").unwrap();
    assert_eq!(b.modifiers, mods(true, true, false, true));
    assert_eq!(b.code, KeyCode::Escape);
    let b = HotkeyBinding::parse("super+pageup").unwrap();
    assert_eq!(b.modifiers, mods(false, false, false, true));
    assert_eq!(b.code, KeyCode::PageUp);
}

#[test]
fn skips_empty_tokens() {
    let b = HotkeyBinding::parse("++alt++q+").unwrap();
    assert_eq!(b.modifiers, mods(false, true, false, false));
    assert_eq!(b.code, KeyCode::KeyQ);
}

#[test]
fn last_key_token_decides() {
    assert_eq!(HotkeyBinding::parse("F1+F2").unwrap().code, KeyCode::F2);
    assert_eq!(HotkeyBinding::parse("nonsense+F2").unwrap().code, KeyCode::F2);
    assert!(HotkeyBinding::parse("F2+nonsense").is_none());
}

#[test]
fn needs_a_key() {
    assert!(HotkeyBinding::parse("").is_none());
    assert!(HotkeyBinding::parse("Ctrl+Alt").is_none());
    assert!(HotkeyBinding::parse("F25").is_none());
}

#[test]
fn displays_modifiers_in_fixed_order() {
    let b = HotkeyBinding { modifiers: mods(true, true, true, true), code: KeyCode::Digit7 };
    assert_eq!(b.display_text(), "Ctrl+Alt+Shift+Win+7");
    let b = HotkeyBinding { modifiers: mods(false, false, true, false), code: KeyCode::ArrowLeft };
    assert_eq!(b.display_text(), "Shift+Left");
}

#[test]
fn displayed_bindings_read_back() {
    let codes = [
        KeyCode::F1,
        KeyCode::F24,
        KeyCode::KeyA,
        KeyCode::KeyZ,
        KeyCode::Digit0,
        KeyCode::Escape,
        KeyCode::Space,
        KeyCode::Backspace,
        KeyCode::ArrowDown,
        KeyCode::PageDown,
    ];
    for code in codes {
        for bits in 0u8..16 {
            let b = HotkeyBinding {
                modifiers: mods(bits & 1 != 0, bits & 2 != 0, bits & 4 != 0, bits & 8 != 0),
                code,
            };
            assert_eq!(HotkeyBinding::parse(&b.display_text()), Some(b));
        }
    }
}

#[test]
fn key_names() {
    assert_eq!(code_to_name(KeyCode::Escape), "Esc");
    assert_eq!(code_to_name(KeyCode::ArrowUp), "Up");
    assert_eq!(code_to_name(KeyCode::KeyM), "M");
    assert_eq!(code_to_name(KeyCode::F13), "F13");
    assert_eq!(code_to_name(KeyCode::PageUp), "PageUp");
}
