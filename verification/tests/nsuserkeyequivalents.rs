use tussle_core::sources::nsuserkeyequivalents::{
    self, bundle_id_of, is_plist_name, parse_shorthand, AppMenuOverrides,
};
use tussle_core::sources::plist::{read_plist, PlistRead};
use tussle_core::{BindingSource, Key, KeyCombo, Modifiers, ScanError, ScanWarning};

/// The synthetic app preferences: four `NSUserKeyEquivalents` entries
/// plus an unrelated setting at the top level.
fn app_plist() -> Vec<u8> {
    br#"<?xml version="1.0" encoding="UTF-8"?>
<!DOCTYPE plist PUBLIC "-//Apple//DTD PLIST 1.0//EN" "http://www.apple.com/DTDs/PropertyList-1.0.dtd">
<plist version="1.0">
<dict>
	<key>NSUserKeyEquivalents</key>
	<dict>
		<key>New</key>
		<string>@~n</string>
		<key>Save All</key>
		<string>@$s</string>
		<key>Open Recent</key>
		<string>@^o</string>
		<key>Reload</key>
		<string>@r</string>
	</dict>
	<key>SomeOtherSetting</key>
	<integer>3</integer>
</dict>
</plist>
"#
    .to_vec()
}

#[test]
fn parses_synthetic_app_overrides() {
    let read = read_plist(Ok(app_plist()));
    let bindings = nsuserkeyequivalents::parse("/Users/me/Library/Preferences/com.example.app.plist", &read)
        .expect("parse should succeed");

    assert_eq!(bindings.len(), 4);

    let new = bindings
        .iter()
        .find(|b| matches!(
            &b.source,
            BindingSource::AppMenuOverride { menu_item, .. } if menu_item == "New"
        ))
        .expect("'New' override should be parsed");
    assert_eq!(
        new.combo,
        KeyCombo {
            modifiers: Modifiers::cmd().union(Modifiers::opt()),
            key: Key::Char('n'),
        }
    );
    if let BindingSource::AppMenuOverride { bundle_id, .. } = &new.source {
        assert_eq!(bundle_id, "com.example.app");
    } else {
        unreachable!()
    }

    let save_all = bindings
        .iter()
        .find(|b| matches!(
            &b.source,
            BindingSource::AppMenuOverride { menu_item, .. } if menu_item == "Save All"
        ))
        .expect("'Save All' override should be parsed");
    assert_eq!(
        save_all.combo,
        KeyCombo {
            modifiers: Modifiers::cmd().union(Modifiers::shift()),
            key: Key::Char('s'),
        }
    );

    let open_recent = bindings
        .iter()
        .find(|b| matches!(
            &b.source,
            BindingSource::AppMenuOverride { menu_item, .. } if menu_item == "Open Recent"
        ))
        .expect("'Open Recent' override should be parsed");
    assert_eq!(
        open_recent.combo,
        KeyCombo {
            modifiers: Modifiers::cmd().union(Modifiers::ctrl()),
            key: Key::Char('o'),
        }
    );

    let reload = bindings
        .iter()
        .find(|b| matches!(
            &b.source,
            BindingSource::AppMenuOverride { menu_item, .. } if menu_item == "Reload"
        ))
        .expect("'Reload' override should be parsed");
    assert_eq!(
        reload.combo,
        KeyCombo {
            modifiers: Modifiers::cmd(),
            key: Key::Char('r'),
        }
    );
}

#[test]
fn shorthand_decodes_modifier_symbols_then_the_key() {
    assert_eq!(
        parse_shorthand("@~n"),
        Some(KeyCombo {
            modifiers: Modifiers::cmd().union(Modifiers::opt()),
            key: Key::Char('n'),
        })
    );
    assert_eq!(
        parse_shorthand("^$\u{F704}"),
        Some(KeyCombo {
            modifiers: Modifiers::ctrl().union(Modifiers::shift()),
            key: Key::Named(tussle_core::NamedKey::F1),
        })
    );
    assert_eq!(parse_shorthand(""), None);
    assert_eq!(parse_shorthand("x@"), None);
    assert_eq!(
        parse_shorthand("@"),
        Some(KeyCombo {
            modifiers: Modifiers::empty(),
            key: Key::Char('@'),
        })
    );
}

#[test]
fn files_are_named_after_their_app() {
    assert_eq!(bundle_id_of("/a/b/com.apple.TextEdit.plist"), "com.apple.TextEdit");
    assert_eq!(bundle_id_of("com.example.app.plist"), "com.example.app");
    assert_eq!(bundle_id_of("/a/b/notes.txt"), "notes.txt");
    assert!(is_plist_name("com.apple.finder.plist"));
    assert!(!is_plist_name(".GlobalPreferences.plist.lockfile"));
    assert!(!is_plist_name("plist"));
}

#[test]
fn a_file_without_overrides_is_empty_and_bad_files_are_errors() {
    let empty = read_plist(Ok(
        br#"<?xml version="1.0" encoding="UTF-8"?><plist version="1.0"><dict><key>x</key><true/></dict></plist>"#
            .to_vec(),
    ));
    assert!(nsuserkeyequivalents::parse("a.plist", &empty).unwrap().is_empty());
    let array_root = read_plist(Ok(
        br#"<?xml version="1.0" encoding="UTF-8"?><plist version="1.0"><array/></plist>"#.to_vec(),
    ));
    match nsuserkeyequivalents::parse("a.plist", &array_root) {
        Err(ScanError::Schema { message, .. }) => assert_eq!(message, "root is not a dictionary"),
        other => panic!("unexpected {other:?}"),
    }
    let missing = PlistRead::Unreadable("gone".into());
    assert!(matches!(
        nsuserkeyequivalents::parse("a.plist", &missing),
        Err(ScanError::Io { .. })
    ));
}

#[test]
fn one_bad_file_never_hides_the_rest() {
    let src = AppMenuOverrides::new("/prefs".to_string());
    assert_eq!(src.name(), "nsuserkeyequivalents");
    let files = vec![
        ("/prefs/broken.plist".to_string(), read_plist(Ok(b"garbage".to_vec()))),
        ("/prefs/com.example.app.plist".to_string(), read_plist(Ok(app_plist()))),
    ];
    let scan = src.scan_with(Ok(files)).unwrap();
    assert_eq!(scan.bindings.len(), 4);
    assert_eq!(scan.warnings.len(), 1);
    match &scan.warnings[0] {
        ScanWarning::Skipped { path, message } => {
            assert_eq!(path, "/prefs/broken.plist");
            assert!(message.starts_with("unexpected schema in /prefs/broken.plist: plist parse: "));
        }
        other => panic!("unexpected {other:?}"),
    }
    match src.scan_with(Err("permission denied".into())) {
        Err(ScanError::Io { path, message }) => {
            assert_eq!(path, "/prefs");
            assert_eq!(message, "permission denied");
        }
        other => panic!("unexpected {other:?}"),
    }
}
