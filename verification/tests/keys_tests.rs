use xime::keys::{
    hotkey_key_name, keysym_to_char, keysym_to_letter, keysym_to_rime_keycode, Error, KeyBinding,
    ModifierState, RimeKeyEvent,
};

const XK_A_LOWER: u32 = 0x61;
const XK_F1: u32 = 0xffbe;
const XK_SPACE: u32 = 0x20;

fn binding(ctrl: bool, alt: bool, shift: bool, super_key: bool) -> KeyBinding {
    KeyBinding {
        ctrl,
        alt,
        shift,
        super_key,
        keysym: None,
        key_name: String::new(),
    }
}

#[test]
fn test_keysym_to_letter_lowercase() {
    for c in 'a'..='z' {
        let keysym_raw = c as u32;
        assert_eq!(keysym_to_letter(keysym_raw), Some(c));
    }
}

#[test]
fn test_keysym_to_letter_uppercase_to_lowercase() {
    for c in 'A'..='Z' {
        let keysym_raw = c as u32;
        let expected = c.to_ascii_lowercase();
        assert_eq!(keysym_to_letter(keysym_raw), Some(expected));
    }
}

#[test]
fn test_keysym_to_letter_digits_returns_none() {
    for d in '0'..='9' {
        let keysym_raw = d as u32;
        assert_eq!(keysym_to_letter(keysym_raw), None);
    }
}

#[test]
fn test_keysym_to_letter_special_returns_none() {
    assert_eq!(keysym_to_letter(0x20), None);
    assert_eq!(keysym_to_letter(0xFF), None);
}

#[test]
fn test_modifier_state_default() {
    let state = ModifierState::default();
    assert_eq!(state.depressed, 0);
    assert_eq!(state.latched, 0);
    assert_eq!(state.locked, 0);
    assert_eq!(state.effective, 0);
    assert!(!state.shift);
    assert!(!state.ctrl);
    assert!(!state.alt);
    assert!(!state.super_key);
}

#[test]
fn test_keysym_to_char_lowercase_letters() {
    for (c, expected) in [('a', Some('a')), ('z', Some('z')), ('m', Some('m'))] {
        assert_eq!(keysym_to_char(c as u32), expected);
    }
}

#[test]
fn test_keysym_to_char_uppercase_letters() {
    // Looked up case-insensitively, "A", "Z" and "M" name the lowercase keysyms.
    assert_eq!(keysym_to_char(0x61), Some('a'));
    assert_eq!(keysym_to_char(0x7a), Some('z'));
    assert_eq!(keysym_to_char(0x6d), Some('m'));
}

#[test]
fn test_keysym_to_char_digits() {
    for d in '0'..='9' {
        assert_eq!(keysym_to_char(d as u32), Some(d));
    }
}

#[test]
fn test_keysym_to_char_space() {
    assert_eq!(keysym_to_char(XK_SPACE), Some(' '));
}

#[test]
fn test_keysym_to_char_non_printable() {
    assert_eq!(keysym_to_char(XK_F1), None);
}

#[test]
fn test_keysym_to_rime_keycode() {
    assert_eq!(keysym_to_rime_keycode(XK_A_LOWER), 0x61);
}

#[test]
fn test_keybinding_keysym_raw() {
    let binding = KeyBinding {
        ctrl: false,
        alt: false,
        shift: false,
        super_key: false,
        keysym: Some(XK_A_LOWER),
        key_name: "A".to_string(),
    };
    assert!(binding.keysym_raw().is_some());
    assert_eq!(binding.keysym_raw(), Some(0x61));
}

#[test]
fn test_keybinding_keysym_raw_none() {
    let binding = KeyBinding::default();
    assert!(binding.keysym_raw().is_none());
}

#[test]
fn test_keybinding_default() {
    let binding = KeyBinding::default();
    assert!(!binding.ctrl);
    assert!(!binding.alt);
    assert!(!binding.shift);
    assert!(!binding.super_key);
    assert!(binding.keysym.is_none());
    assert_eq!(binding.key_name, "");
}

#[test]
fn test_keybinding_parse_ctrl_only() {
    assert!(hotkey_key_name("Ctrl").is_none());
    let binding = KeyBinding::parse("Ctrl", 0);
    assert!(binding.ctrl);
    assert!(!binding.alt);
    assert!(!binding.shift);
    assert!(!binding.super_key);
    assert!(binding.keysym.is_none());
}

#[test]
fn test_keybinding_parse_control_variant() {
    let binding = KeyBinding::parse("Control", 0);
    assert!(binding.ctrl);
    assert!(!binding.alt);
    assert!(!binding.shift);
    assert!(!binding.super_key);
}

#[test]
fn test_keybinding_parse_alt_only() {
    let binding = KeyBinding::parse("Alt", 0);
    assert!(!binding.ctrl);
    assert!(binding.alt);
    assert!(!binding.shift);
    assert!(!binding.super_key);
}

#[test]
fn test_keybinding_parse_shift_only() {
    let binding = KeyBinding::parse("Shift", 0);
    assert!(!binding.ctrl);
    assert!(!binding.alt);
    assert!(binding.shift);
    assert!(!binding.super_key);
}

#[test]
fn test_keybinding_parse_super_variants() {
    for name in ["Super", "Win", "Meta"] {
        let binding = KeyBinding::parse(name, 0);
        assert!(!binding.ctrl);
        assert!(!binding.alt);
        assert!(!binding.shift);
        assert!(binding.super_key, "Failed for {}", name);
    }
}

#[test]
fn test_keybinding_parse_ctrl_alt_f1() {
    assert_eq!(hotkey_key_name("Ctrl+Alt+F1").as_deref(), Some("f1"));
    let binding = KeyBinding::parse("Ctrl+Alt+F1", XK_F1);
    assert!(binding.ctrl);
    assert!(binding.alt);
    assert!(!binding.shift);
    assert!(!binding.super_key);
    assert!(binding.keysym.is_some());
    assert_eq!(binding.keysym, Some(XK_F1));
    assert_eq!(binding.key_name, "F1");
}

#[test]
fn test_keybinding_parse_win_alt_a() {
    let binding = KeyBinding::parse("Win+Alt+a", XK_A_LOWER);
    assert!(!binding.ctrl);
    assert!(binding.alt);
    assert!(!binding.shift);
    assert!(binding.super_key);
    assert_eq!(binding.key_name, "A");
    assert_eq!(binding.keysym, Some(XK_A_LOWER));
}

#[test]
fn test_keybinding_parse_ctrl_super_space() {
    let lookup = hotkey_key_name("Control+Super+Space");
    let binding = KeyBinding::parse("Control+Super+Space", XK_SPACE);
    assert!(binding.ctrl);
    assert!(!binding.alt);
    assert!(!binding.shift);
    assert!(binding.super_key);
    assert_eq!(binding.key_name, "SPACE");
    assert_eq!(binding.keysym, Some(XK_SPACE));
    assert_eq!(lookup.as_deref(), Some("space"));
}

#[test]
fn test_keybinding_parse_single_key() {
    let binding = KeyBinding::parse("a", XK_A_LOWER);
    assert!(!binding.ctrl);
    assert!(!binding.alt);
    assert!(!binding.shift);
    assert!(!binding.super_key);
    assert_eq!(binding.key_name, "A");
}

#[test]
fn test_keybinding_parse_with_spaces() {
    let binding = KeyBinding::parse("Ctrl + Alt + F1", XK_F1);
    assert!(binding.ctrl);
    assert!(binding.alt);
    assert!(!binding.shift);
}

#[test]
fn test_keybinding_parse_case_insensitive() {
    let binding = KeyBinding::parse("CTRL+ALT+SHIFT+A", XK_A_LOWER);
    assert!(binding.ctrl);
    assert!(binding.alt);
    assert!(binding.shift);
    assert_eq!(binding.key_name, "A");
}

#[test]
fn keybinding_parse_last_key_wins() {
    let lookup = hotkey_key_name("a+b");
    let binding = KeyBinding::parse("a+b", 0x62);
    assert_eq!(binding.keysym, Some(0x62));
    assert_eq!(binding.key_name, "B");
    assert_eq!(lookup.as_deref(), Some("b"));
}

#[test]
fn keybinding_parse_keeps_keysym_only_for_a_key() {
    let binding = KeyBinding::parse("Ctrl+q", 0x71);
    assert!(binding.ctrl);
    assert_eq!(binding.keysym, Some(0x71));
    assert_eq!(binding.key_name, "Q");
    let binding = KeyBinding::parse("Ctrl+Shift", 0x71);
    assert!(binding.ctrl && binding.shift);
    assert_eq!(binding.keysym, None);
}

#[test]
fn keybinding_parse_empty_text() {
    let lookup = hotkey_key_name("");
    let binding = KeyBinding::parse("", 0);
    assert_eq!(binding.keysym, Some(0));
    assert!(!binding.ctrl && !binding.alt && !binding.shift && !binding.super_key);
    assert_eq!(binding.key_name, "");
    assert_eq!(lookup.as_deref(), Some(""));
}

#[test]
fn test_keybinding_matches_modifiers_basic() {
    let binding = binding(true, false, false, false);
    assert!(binding.matches_modifiers(true, false, false));
    assert!(!binding.matches_modifiers(true, true, false));
    assert!(!binding.matches_modifiers(false, false, false));
}

#[test]
fn test_keybinding_matches_modifiers_multiple() {
    let binding = binding(true, true, false, false);
    assert!(binding.matches_modifiers(true, true, false));
    assert!(!binding.matches_modifiers(true, false, false));
    assert!(!binding.matches_modifiers(false, true, false));
}

#[test]
fn test_keybinding_matches_modifiers_all() {
    let binding = binding(true, true, true, false);
    assert!(binding.matches_modifiers(true, true, true));
    assert!(!binding.matches_modifiers(true, true, false));
}

#[test]
fn test_keybinding_matches_modifiers_full_with_super() {
    let binding = binding(true, true, false, true);
    assert!(binding.matches_modifiers_full(true, true, false, true));
    assert!(!binding.matches_modifiers_full(true, true, false, false));
}

#[test]
fn test_keybinding_modifier_mask_ctrl() {
    assert_eq!(binding(true, false, false, false).modifier_mask(), 0x04);
}

#[test]
fn test_keybinding_modifier_mask_alt() {
    assert_eq!(binding(false, true, false, false).modifier_mask(), 0x08);
}

#[test]
fn test_keybinding_modifier_mask_shift() {
    assert_eq!(binding(false, false, true, false).modifier_mask(), 0x01);
}

#[test]
fn test_keybinding_modifier_mask_combined() {
    assert_eq!(binding(true, true, false, false).modifier_mask(), 0x0C);
}

#[test]
fn test_keybinding_modifier_mask_all() {
    assert_eq!(binding(true, true, true, false).modifier_mask(), 0x0D);
}

#[test]
fn test_error_display_context_creation() {
    assert_eq!(Error::ContextCreationFailed.message(), "Failed to create XKB context");
}

#[test]
fn test_error_display_keymap_creation() {
    assert_eq!(Error::KeymapCreationFailed.message(), "Failed to create keymap");
}

#[test]
fn test_error_display_state_creation() {
    assert_eq!(Error::StateCreationFailed.message(), "Failed to create state");
}

#[test]
fn test_error_display_invalid_keymap() {
    assert_eq!(Error::InvalidKeymapFormat.message(), "Invalid keymap format");
}

#[test]
fn lib_test_error_debug() {
    let debug = format!("{:?}", Error::ContextCreationFailed);
    assert!(debug.contains("ContextCreationFailed"));
}

#[test]
fn test_re_exports_exist() {
    let binding = KeyBinding::default();
    assert!(!binding.ctrl);
    let state = ModifierState::default();
    assert_eq!(state.effective, 0);
}

#[test]
fn rime_key_event_from_char() {
    assert_eq!(RimeKeyEvent::from_char('b').key_code, 0x62);
    assert_eq!(RimeKeyEvent::from_char('B').key_code, 0x62);
    assert_eq!(RimeKeyEvent::from_char('7').key_code, 0x37);
    assert_eq!(RimeKeyEvent::from_char(' ').key_code, 0x20);
    assert_eq!(RimeKeyEvent::from_char('你').key_code, '你' as u32);
    assert_eq!(RimeKeyEvent::from_char('a').modifiers, 0);
    let e = RimeKeyEvent::new(0xff0d, 0x4);
    assert_eq!((e.key_code, e.modifiers), (0xff0d, 0x4));
}
