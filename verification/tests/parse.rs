use tussle_core::{ComboParseError, ComboToken, Key, KeyCombo, Modifiers, NamedKey};

#[test]
fn parses_single_letter_with_cmd() {
    let c = KeyCombo::parse("cmd+b").unwrap();
    assert_eq!(c.modifiers, Modifiers::cmd());
    assert_eq!(c.key, Key::Char('b'));
}

#[test]
fn parses_named_key_with_modifiers() {
    let c = KeyCombo::parse("ctrl+opt+space").unwrap();
    assert_eq!(c.modifiers, Modifiers::ctrl().union(Modifiers::opt()));
    assert_eq!(c.key, Key::Named(NamedKey::Space));
}

#[test]
fn parses_bare_named_key() {
    let c = KeyCombo::parse("escape").unwrap();
    assert!(c.modifiers.is_empty());
    assert_eq!(c.key, Key::Named(NamedKey::Escape));
}

#[test]
fn parse_is_case_insensitive() {
    assert_eq!(
        KeyCombo::parse("CMD+SHIFT+F1").unwrap(),
        KeyCombo::parse("cmd+shift+f1").unwrap(),
    );
}

#[test]
fn parse_accepts_modifier_aliases() {
    let c = KeyCombo::parse("alt+option+command+a").unwrap();
    assert_eq!(c.modifiers, Modifiers::opt().union(Modifiers::cmd()));
    assert_eq!(c.key, Key::Char('a'));
}

#[test]
fn parse_modifier_order_doesnt_matter() {
    assert_eq!(
        KeyCombo::parse("shift+cmd+3").unwrap(),
        KeyCombo::parse("cmd+shift+3").unwrap(),
    );
}

#[test]
fn parse_round_trips_through_display() {
    let c = KeyCombo::parse("ctrl+shift+cmd+3").unwrap();
    assert_eq!(c.to_string(), "ctrl+shift+cmd+3");
}

#[test]
fn parse_rejects_empty() {
    assert!(matches!(KeyCombo::parse(""), Err(ComboParseError::Empty)));
    assert!(matches!(KeyCombo::parse("  "), Err(ComboParseError::Empty)));
    assert!(matches!(KeyCombo::parse("cmd+"), Err(ComboParseError::Empty)));
}

#[test]
fn parse_rejects_unknown_modifier() {
    assert!(matches!(
        KeyCombo::parse("super+a"),
        Err(ComboParseError::UnknownModifier(_))
    ));
}

#[test]
fn parse_rejects_multichar_unnamed_key() {
    assert!(matches!(
        KeyCombo::parse("cmd+ab"),
        Err(ComboParseError::UnknownKey(_))
    ));
}

#[test]
fn parse_modifier_aliases() {
    assert_eq!(
        ComboToken::parse("cmd").unwrap(),
        ComboToken::Modifier(Modifiers::cmd())
    );
    assert_eq!(
        ComboToken::parse("Command").unwrap(),
        ComboToken::Modifier(Modifiers::cmd())
    );
    assert_eq!(
        ComboToken::parse("ALT").unwrap(),
        ComboToken::Modifier(Modifiers::opt())
    );
    assert_eq!(
        ComboToken::parse("globe").unwrap(),
        ComboToken::Modifier(Modifiers::fn_key())
    );
}

#[test]
fn parse_named_key() {
    assert_eq!(
        ComboToken::parse("space").unwrap(),
        ComboToken::Key(Key::Named(NamedKey::Space))
    );
    assert_eq!(
        ComboToken::parse("F1").unwrap(),
        ComboToken::Key(Key::Named(NamedKey::F1))
    );
    assert_eq!(
        ComboToken::parse("ESC").unwrap(),
        ComboToken::Key(Key::Named(NamedKey::Escape))
    );
}

#[test]
fn parse_single_char_key() {
    assert_eq!(
        ComboToken::parse("a").unwrap(),
        ComboToken::Key(Key::Char('a'))
    );
    assert_eq!(
        ComboToken::parse("A").unwrap(),
        ComboToken::Key(Key::Char('a'))
    );
    assert_eq!(
        ComboToken::parse("3").unwrap(),
        ComboToken::Key(Key::Char('3'))
    );
}

#[test]
fn parse_rejects_empty_and_unknown() {
    assert!(ComboToken::parse("").is_err());
    assert!(ComboToken::parse("   ").is_err());
    assert!(ComboToken::parse("notakey").is_err());
}

#[test]
fn matches_modifier_token() {
    let cmd_a = KeyCombo {
        modifiers: Modifiers::cmd(),
        key: Key::Char('a'),
    };
    let shift_cmd_a = KeyCombo {
        modifiers: Modifiers::cmd().union(Modifiers::shift()),
        key: Key::Char('a'),
    };
    assert!(ComboToken::Modifier(Modifiers::cmd()).matches(&cmd_a));
    assert!(!ComboToken::Modifier(Modifiers::shift()).matches(&cmd_a));
    assert!(ComboToken::Modifier(Modifiers::shift()).matches(&shift_cmd_a));
}

#[test]
fn matches_key_token() {
    let cmd_space = KeyCombo {
        modifiers: Modifiers::cmd(),
        key: Key::Named(NamedKey::Space),
    };
    assert!(ComboToken::Key(Key::Named(NamedKey::Space)).matches(&cmd_space));
    assert!(!ComboToken::Key(Key::Named(NamedKey::F1)).matches(&cmd_space));
    assert!(!ComboToken::Key(Key::Char('a')).matches(&cmd_space));
}

#[test]
fn parse_errors_read_as_messages() {
    assert_eq!(ComboParseError::Empty.to_string(), "empty key combo");
    let e = KeyCombo::parse("super+a").unwrap_err();
    assert!(e.to_string().contains("super"));
    let e = KeyCombo::parse("cmd+ab").unwrap_err();
    assert!(e.to_string().contains("ab"));
    assert!(matches!(KeyCombo::parse("cmd+shift"), Err(ComboParseError::UnknownKey(_))));
}

#[test]
fn every_spellable_combo_reads_back_from_its_text() {
    let keys: Vec<Key> = tussle_core::report::free::candidate_keys();
    for bits in 0u8..32 {
        let modifiers = Modifiers {
            cmd: bits & 1 != 0,
            opt: bits & 2 != 0,
            ctrl: bits & 4 != 0,
            shift: bits & 8 != 0,
            fn_key: bits & 16 != 0,
        };
        for key in &keys {
            let c = KeyCombo {
                modifiers,
                key: *key,
            };
            assert_eq!(KeyCombo::parse(&c.to_string()), Ok(c), "{}", c.to_string());
        }
    }
    let named = KeyCombo {
        modifiers: Modifiers::shift(),
        key: Key::Named(NamedKey::PageDown),
    };
    assert_eq!(KeyCombo::parse(&named.to_string()), Ok(named));
    let virtual_key = KeyCombo {
        modifiers: Modifiers::cmd(),
        key: Key::Virtual(42),
    };
    assert!(KeyCombo::parse(&virtual_key.to_string()).is_err());
}

#[test]
fn modifier_order_case_and_spacing_do_not_matter() {
    let want = KeyCombo::parse("cmd+shift+3").unwrap();
    for text in [
        "shift+cmd+3",
        " Shift + CMD +3",
        "SHIFT+cmd+ 3 ",
        "cmd + shift + 3",
    ] {
        assert_eq!(KeyCombo::parse(text).unwrap(), want, "{text}");
    }
    assert_eq!(
        KeyCombo::parse("opt+ctrl+shift+cmd+k").unwrap(),
        KeyCombo::parse("cmd+shift+ctrl+opt+k").unwrap()
    );
    assert!(KeyCombo::parse("foo+cmd+k").is_err());
    assert!(KeyCombo::parse("cmd+foo+k").is_err());
}
