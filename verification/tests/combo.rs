use tussle_core::{Key, KeyCombo, Modifiers, NamedKey};

// Modifiers

#[test]
fn display_empty_is_empty_string() {
    assert_eq!(Modifiers::empty().to_string(), "");
}

#[test]
fn display_single_flag() {
    assert_eq!(Modifiers::cmd().to_string(), "cmd");
}

#[test]
fn display_orders_ctrl_opt_shift_cmd_fn() {
    let m = Modifiers::cmd().union(Modifiers::shift()).union(Modifiers::ctrl());
    assert_eq!(m.to_string(), "ctrl+shift+cmd");
}

#[test]
fn display_all_flags() {
    let m = Modifiers::all();
    assert_eq!(m.to_string(), "ctrl+opt+shift+cmd+fn");
}

// Key, as the combined module tested it

#[test]
fn combo_display_char() {
    assert_eq!(Key::Char('a').to_string(), "a");
}

#[test]
fn combo_display_named() {
    assert_eq!(Key::Named(NamedKey::Space).to_string(), "space");
    assert_eq!(Key::Named(NamedKey::F1).to_string(), "f1");
    assert_eq!(Key::Named(NamedKey::PageUp).to_string(), "pageup");
}

#[test]
fn combo_display_virtual_uses_vk_prefix() {
    assert_eq!(Key::Virtual(42).to_string(), "vk42");
}

#[test]
fn combo_from_char_normalizes_misc_technical_glyphs() {
    assert_eq!(Key::from_char('\u{238B}'), Key::Named(NamedKey::Escape));
    assert_eq!(Key::from_char('\u{23CE}'), Key::Named(NamedKey::Return));
    assert_eq!(Key::from_char('\u{21E5}'), Key::Named(NamedKey::Tab));
    assert_eq!(Key::from_char('\u{2191}'), Key::Named(NamedKey::Up));
}

#[test]
fn combo_from_char_normalizes_pua_function_keys() {
    assert_eq!(Key::from_char('\u{F700}'), Key::Named(NamedKey::Up));
    assert_eq!(Key::from_char('\u{F704}'), Key::Named(NamedKey::F1));
    assert_eq!(Key::from_char('\u{F717}'), Key::Named(NamedKey::F20));
}

#[test]
fn combo_from_char_lowercases_ascii() {
    assert_eq!(Key::from_char('A'), Key::Char('a'));
    assert_eq!(Key::from_char('z'), Key::Char('z'));
}

#[test]
fn combo_from_char_preserves_other_unicode() {
    assert_eq!(Key::from_char('🎤'), Key::Char('🎤'));
}

#[test]
fn combo_display_with_single_modifier() {
    let c = KeyCombo {
        modifiers: Modifiers::cmd(),
        key: Key::Named(NamedKey::Space),
    };
    assert_eq!(c.to_string(), "cmd+space");
}

#[test]
fn combo_display_with_multiple_modifiers() {
    let c = KeyCombo {
        modifiers: Modifiers::cmd().union(Modifiers::shift()).union(Modifiers::ctrl()),
        key: Key::Char('3'),
    };
    assert_eq!(c.to_string(), "ctrl+shift+cmd+3");
}

#[test]
fn combo_display_without_modifiers_is_just_key() {
    let c = KeyCombo {
        modifiers: Modifiers::empty(),
        key: Key::Named(NamedKey::Escape),
    };
    assert_eq!(c.to_string(), "escape");
}

// Key

#[test]
fn key_display_char() {
    assert_eq!(Key::Char('a').to_string(), "a");
}

#[test]
fn key_display_named() {
    assert_eq!(Key::Named(NamedKey::Space).to_string(), "space");
    assert_eq!(Key::Named(NamedKey::F1).to_string(), "f1");
    assert_eq!(Key::Named(NamedKey::PageUp).to_string(), "pageup");
}

#[test]
fn key_display_virtual_uses_vk_prefix() {
    assert_eq!(Key::Virtual(42).to_string(), "vk42");
}

#[test]
fn key_from_char_normalizes_misc_technical_glyphs() {
    assert_eq!(Key::from_char('\u{238B}'), Key::Named(NamedKey::Escape));
    assert_eq!(Key::from_char('\u{23CE}'), Key::Named(NamedKey::Return));
    assert_eq!(Key::from_char('\u{21E5}'), Key::Named(NamedKey::Tab));
    assert_eq!(Key::from_char('\u{2191}'), Key::Named(NamedKey::Up));
}

#[test]
fn key_from_char_normalizes_pua_function_keys() {
    assert_eq!(Key::from_char('\u{F700}'), Key::Named(NamedKey::Up));
    assert_eq!(Key::from_char('\u{F704}'), Key::Named(NamedKey::F1));
    assert_eq!(Key::from_char('\u{F717}'), Key::Named(NamedKey::F20));
}

#[test]
fn key_from_char_normalizes_c0_controls() {
    assert_eq!(Key::from_char('\x1B'), Key::Named(NamedKey::Escape));
    assert_eq!(Key::from_char('\t'), Key::Named(NamedKey::Tab));
    assert_eq!(Key::from_char('\u{007F}'), Key::Named(NamedKey::Backspace));
    assert_eq!(Key::from_char('\u{0008}'), Key::Named(NamedKey::Backspace));
}

#[test]
fn from_char_distinguishes_backspace_from_forward_delete() {
    assert_eq!(Key::from_char('\u{0008}'), Key::Named(NamedKey::Backspace));
    assert_eq!(Key::from_char('\u{007F}'), Key::Named(NamedKey::Backspace));
    assert_eq!(Key::from_char('\u{F728}'), Key::Named(NamedKey::Delete));
}

#[test]
fn key_from_char_lowercases_ascii() {
    assert_eq!(Key::from_char('A'), Key::Char('a'));
    assert_eq!(Key::from_char('z'), Key::Char('z'));
}

#[test]
fn from_char_normalizes_space() {
    assert_eq!(Key::from_char(' '), Key::Named(NamedKey::Space));
}

#[test]
fn from_char_normalizes_lf_to_return() {
    assert_eq!(Key::from_char('\n'), Key::Named(NamedKey::Return));
    assert_eq!(Key::from_char('\u{000A}'), Key::Named(NamedKey::Return));
}

#[test]
fn key_from_char_preserves_other_unicode() {
    assert_eq!(Key::from_char('🎤'), Key::Char('🎤'));
}

#[test]
fn from_vk_ansi_letter_keys() {
    assert_eq!(Key::from_vk(0x00), Key::Char('a'));
    assert_eq!(Key::from_vk(0x08), Key::Char('c'));
    assert_eq!(Key::from_vk(0x2E), Key::Char('m'));
}

#[test]
fn from_vk_ansi_digit_keys() {
    assert_eq!(Key::from_vk(0x12), Key::Char('1'));
    assert_eq!(Key::from_vk(0x1D), Key::Char('0'));
}

#[test]
fn from_vk_named_keys() {
    assert_eq!(Key::from_vk(0x31), Key::Named(NamedKey::Space));
    assert_eq!(Key::from_vk(0x35), Key::Named(NamedKey::Escape));
    assert_eq!(Key::from_vk(0x7A), Key::Named(NamedKey::F1));
    assert_eq!(Key::from_vk(0x7E), Key::Named(NamedKey::Up));
}

#[test]
fn from_vk_unknown_falls_back_to_virtual() {
    assert_eq!(Key::from_vk(0xFFFE), Key::Virtual(0xFFFE));
}

// KeyCombo display, as the module itself tests it

#[test]
fn mod_display_with_single_modifier() {
    let c = KeyCombo {
        modifiers: Modifiers::cmd(),
        key: Key::Named(NamedKey::Space),
    };
    assert_eq!(c.to_string(), "cmd+space");
}

#[test]
fn mod_display_with_multiple_modifiers() {
    let c = KeyCombo {
        modifiers: Modifiers::cmd().union(Modifiers::shift()).union(Modifiers::ctrl()),
        key: Key::Char('3'),
    };
    assert_eq!(c.to_string(), "ctrl+shift+cmd+3");
}

#[test]
fn mod_display_without_modifiers_is_just_key() {
    let c = KeyCombo {
        modifiers: Modifiers::empty(),
        key: Key::Named(NamedKey::Escape),
    };
    assert_eq!(c.to_string(), "escape");
}
