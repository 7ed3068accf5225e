use tussle_core::sources::plist::read_plist;
use tussle_core::sources::symbolichotkeys::known::{
    builtin_for, builtin_shortcuts, dispatch_for, known_hotkeys,
};
use tussle_core::sources::symbolichotkeys::{LiveHotkey, LiveTable, SymbolicHotkeys, NO_KEY};
use tussle_core::{
    Binding, BindingSource, Key, KeyCombo, Layer, Modifiers, NamedKey, ScanError, ScanWarning,
    SystemDispatch,
};

fn plist(entries: &str) -> Vec<u8> {
    format!(
        r#"<?xml version="1.0" encoding="UTF-8"?>
<!DOCTYPE plist PUBLIC "-//Apple//DTD PLIST 1.0//EN" "http://www.apple.com/DTDs/PropertyList-1.0.dtd">
<plist version="1.0">
<dict>
	<key>AppleSymbolicHotKeys</key>
	<dict>
{entries}
	</dict>
	<key>UnrelatedSetting</key>
	<true/>
</dict>
</plist>
"#
    )
    .into_bytes()
}

fn entry(id: u32, enabled: bool, params: Option<(i64, i64, i64)>) -> String {
    let value = match params {
        Some((c, vk, mask)) => format!(
            "<key>value</key><dict><key>parameters</key><array><integer>{c}</integer><integer>{vk}</integer><integer>{mask}</integer></array><key>type</key><string>standard</string></dict>"
        ),
        None => String::new(),
    };
    format!(
        "<key>{id}</key><dict><key>enabled</key><{}/>{value}</dict>\n",
        if enabled { "true" } else { "false" }
    )
}

/// A customized preferences file: Spotlight on ⌘Space, Finder search on
/// ⌥⌘Space, ids 17 to 26 switched off, "Move left a space" on with its
/// default combo.
fn customized() -> Vec<u8> {
    let mut e = String::new();
    e.push_str(&entry(64, true, Some((32, 49, 1048576))));
    e.push_str(&entry(65, true, Some((32, 49, 1572864))));
    for id in 17..=26 {
        e.push_str(&entry(id, false, None));
    }
    e.push_str(&entry(79, true, None));
    plist(&e)
}

/// Spotlight switched off with no stored combo; Finder search switched
/// off with ⌃⌥Space still stored.
fn disabled_with_known_combos() -> Vec<u8> {
    let mut e = String::new();
    e.push_str(&entry(64, false, None));
    e.push_str(&entry(65, false, Some((32, 49, 786432))));
    plist(&e)
}

fn scan_plist(bytes: Vec<u8>) -> Vec<Binding> {
    let read = read_plist(Ok(bytes));
    SymbolicHotkeys::new("customized.plist".to_string())
        .scan_with(&read, None)
        .expect("parse should succeed")
        .bindings
}

fn with_id(bindings: &[Binding], id: u32) -> Option<&Binding> {
    bindings.iter().find(|b| {
        matches!(&b.source, BindingSource::SystemSymbolicHotkey { id: Some(i), .. } if *i == id)
    })
}

#[test]
fn parses_customized_fixture() {
    let bindings = scan_plist(customized());

    let spotlight = with_id(&bindings, 64).expect("Spotlight binding should be parsed");
    assert_eq!(
        spotlight.combo,
        KeyCombo {
            modifiers: Modifiers::cmd(),
            key: Key::Named(NamedKey::Space),
        }
    );
    assert_eq!(spotlight.label, "Show Spotlight search");

    let finder_search = with_id(&bindings, 65).expect("Finder search binding should be parsed");
    assert_eq!(
        finder_search.combo,
        KeyCombo {
            modifiers: Modifiers::cmd().union(Modifiers::opt()),
            key: Key::Named(NamedKey::Space),
        }
    );
    assert_eq!(finder_search.label, "Show Finder search window");

    for disabled_id in [17u32, 18, 19, 20, 21, 22, 23, 24, 25, 26] {
        for b in bindings.iter().filter(|b| {
            matches!(&b.source, BindingSource::SystemSymbolicHotkey { id: Some(id), .. } if *id == disabled_id)
        }) {
            assert!(!b.enabled, "disabled binding id {disabled_id} must not be enabled");
        }
    }

    let mission_control = with_id(&bindings, 32).expect("Mission Control default should be merged in");
    assert_eq!(
        mission_control.combo,
        KeyCombo {
            modifiers: Modifiers::ctrl(),
            key: Key::Named(NamedKey::Up),
        }
    );

    let desktop_1 = with_id(&bindings, 118).expect("Switch to Desktop 1 default should be merged in");
    assert_eq!(
        desktop_1.combo,
        KeyCombo {
            modifiers: Modifiers::ctrl(),
            key: Key::Char('1'),
        }
    );
    assert!(
        !desktop_1.enabled,
        "Switch to Desktop 1 is off unless the plist enables it"
    );

    let space_left = with_id(&bindings, 79).expect("enabled-with-default ID 79 should pick up the macOS default");
    assert_eq!(
        space_left.combo,
        KeyCombo {
            modifiers: Modifiers::ctrl(),
            key: Key::Named(NamedKey::Left),
        }
    );
}

#[test]
fn keeps_disabled_hotkeys_with_known_combos() {
    let bindings = scan_plist(disabled_with_known_combos());

    let spotlight = with_id(&bindings, 64).expect("disabled Spotlight should still be reported");
    assert!(!spotlight.enabled);
    assert_eq!(
        spotlight.combo,
        KeyCombo {
            modifiers: Modifiers::cmd(),
            key: Key::Named(NamedKey::Space),
        }
    );

    let finder = with_id(&bindings, 65).expect("disabled Finder search should still be reported");
    assert!(!finder.enabled);
    assert_eq!(
        finder.combo,
        KeyCombo {
            modifiers: Modifiers::ctrl().union(Modifiers::opt()),
            key: Key::Named(NamedKey::Space),
        }
    );
}

fn live_row(vk: u16, carbon_modifiers: u32, enabled: bool) -> LiveHotkey {
    LiveHotkey {
        vk,
        carbon_modifiers,
        enabled,
    }
}

/// A live table of 230 rows in the shape of one captured on a Tahoe
/// machine: real shortcuts, repeats of them, and rows without a key.
fn live_table() -> Vec<LiveHotkey> {
    let real = [
        live_row(0x30, 0x100, true),   // ⌘Tab
        live_row(0x12, 0x1000, false), // ⌃1, switched off
        live_row(0x31, 0x100, true),   // ⌘Space
        live_row(0x78, 0x21000, true), // fn⌃F2
        live_row(0x2E, 0x100, true),   // ⌘M
        live_row(0x35, 0x900, true),   // ⌥⌘Esc
        live_row(0x7B, 0x1000, true),  // ⌃←
        live_row(0x7E, 0x1000, true),  // ⌃↑
    ];
    let mut rows: Vec<LiveHotkey> = Vec::new();
    while rows.len() < 230 {
        for r in real {
            if rows.len() < 230 {
                rows.push(r);
            }
        }
        if rows.len() < 230 {
            rows.push(live_row(NO_KEY, 0, true));
        }
        if rows.len() < 230 {
            rows.push(live_row(NO_KEY, 0x100, false));
        }
    }
    rows
}

#[test]
fn live_table_is_the_truth_and_the_plist_supplies_labels() {
    let rows = live_table();
    assert_eq!(rows.len(), 230);
    let read = read_plist(Ok(customized()));
    let scan = SymbolicHotkeys::new("customized.plist".to_string())
        .with_live_table(LiveTable::Snapshot(rows))
        .scan_with(&read, None)
        .expect("scan should succeed");
    let bindings = scan.bindings;
    let by_combo = |text: &str| {
        let combo = KeyCombo::parse(text).unwrap();
        bindings
            .iter()
            .filter(|b| b.combo == combo)
            .collect::<Vec<_>>()
    };

    let tab = by_combo("cmd+tab");
    assert_eq!(tab.len(), 1);
    assert!(tab[0].enabled);
    assert_eq!(
        tab[0].source,
        BindingSource::SystemSymbolicHotkey {
            id: None,
            dispatch: SystemDispatch::BeforeApps,
        }
    );
    assert_eq!(tab[0].label, "Switch to next app");

    let d1 = by_combo("ctrl+1");
    assert_eq!(d1.len(), 1);
    assert!(!d1[0].enabled);
    assert_eq!(
        d1[0].source,
        BindingSource::SystemSymbolicHotkey {
            id: Some(118),
            dispatch: SystemDispatch::BeforeApps,
        }
    );
    assert_eq!(d1[0].label, "Switch to Desktop 1");

    let spot = by_combo("cmd+space");
    assert_eq!(spot.len(), 1);
    assert!(spot[0].enabled);
    assert_eq!(spot[0].label, "Show Spotlight search");

    assert_eq!(by_combo("ctrl+f2").len(), 1);

    let minimize = by_combo("cmd+m");
    assert_eq!(minimize.len(), 1);
    assert_eq!(minimize[0].label, "Minimize");
    assert_eq!(
        minimize[0].source,
        BindingSource::SystemSymbolicHotkey {
            id: None,
            dispatch: SystemDispatch::StandardMenuItem,
        }
    );
    assert_eq!(minimize[0].source.layer(), Layer::AppMenu);

    let expected_enabled: std::collections::HashSet<KeyCombo> = live_table()
        .iter()
        .filter(|r| r.enabled)
        .filter_map(|r| r.combo())
        .collect();
    let enabled = bindings.iter().filter(|b| b.enabled).count();
    assert_eq!(enabled, expected_enabled.len());
    assert!(bindings.len() < 230);
}

#[test]
fn unreadable_plist_is_an_error_without_the_live_table() {
    let read = read_plist(Err("No such file or directory".to_string()));
    let r = SymbolicHotkeys::new("/nowhere/com.apple.symbolichotkeys.plist".to_string()).scan_with(&read, None);
    match r {
        Err(ScanError::Io { path, message }) => {
            assert_eq!(path, "/nowhere/com.apple.symbolichotkeys.plist");
            assert_eq!(message, "No such file or directory");
        }
        other => panic!("expected an io error, got {other:?}"),
    }
    let garbage = read_plist(Ok(b"not a plist at all".to_vec()));
    let r = SymbolicHotkeys::new("x.plist".to_string()).scan_with(&garbage, None);
    assert!(matches!(r, Err(ScanError::Schema { .. })));
}

#[test]
fn broken_plist_only_warns_when_the_live_table_is_there() {
    let read = read_plist(Err("denied".to_string()));
    let scan = SymbolicHotkeys::new("p.plist".to_string())
        .with_live_table(LiveTable::Snapshot(vec![live_row(0x30, 0x100, true)]))
        .scan_with(&read, None)
        .expect("a live scan never fails");
    assert_eq!(scan.bindings.len(), 1);
    assert_eq!(scan.bindings[0].label, "Switch to next app");
    assert_eq!(scan.warnings.len(), 1);
    match &scan.warnings[0] {
        ScanWarning::Skipped { path, message } => {
            assert_eq!(path, "p.plist");
            assert_eq!(message, "io error reading p.plist");
        }
        other => panic!("unexpected warning {other:?}"),
    }
}

#[test]
fn system_table_falls_back_to_the_plist_when_unreadable() {
    let read = read_plist(Ok(customized()));
    let src = SymbolicHotkeys::new("c.plist".to_string()).with_live_table(LiveTable::System);
    assert!(src.wants_system_table());
    let fallback = src
        .scan_with(&read, Some(Err("symbolic hotkeys are a macOS facility".into())))
        .unwrap();
    assert!(with_id(&fallback.bindings, 118).is_some());
    let live = src
        .scan_with(&read, Some(Ok(vec![live_row(0x31, 0x100, true)])))
        .unwrap();
    assert_eq!(live.bindings.len(), 1);
    assert_eq!(live.bindings[0].label, "Show Spotlight search");
    assert_eq!(src.name(), "symbolichotkeys");
}

#[test]
fn plist_bindings_come_in_id_order() {
    let bindings = scan_plist(customized());
    let ids: Vec<u32> = bindings
        .iter()
        .map(|b| match &b.source {
            BindingSource::SystemSymbolicHotkey { id: Some(id), .. } => *id,
            other => panic!("unexpected source {other:?}"),
        })
        .collect();
    let mut sorted = ids.clone();
    sorted.sort();
    assert_eq!(ids, sorted);
}

#[test]
fn unknown_custom_ids_get_a_generic_label() {
    let mut e = String::new();
    e.push_str(&entry(9999, true, Some((97, 0, 1048576))));
    let bindings = scan_plist(plist(&e));
    let b = with_id(&bindings, 9999).expect("custom id is surfaced");
    assert_eq!(b.label, "Symbolic hotkey #9999");
    assert_eq!(b.combo.to_string(), "cmd+a");
}

#[test]
fn known_ids_are_unique_and_labelled() {
    let ids: Vec<u32> = known_hotkeys().iter().map(|k| k.id).collect();
    let mut dedup = ids.clone();
    dedup.sort_unstable();
    dedup.dedup();
    assert_eq!(ids.len(), dedup.len(), "duplicate id in known_hotkeys");
    assert!(known_hotkeys().iter().all(|k| !k.label.is_empty()));
    assert!(builtin_shortcuts().iter().all(|b| !b.label.is_empty()));
}

fn ch(modifiers: Modifiers, c: char) -> KeyCombo {
    KeyCombo {
        modifiers,
        key: Key::Char(c),
    }
}

fn named(modifiers: Modifiers, k: NamedKey) -> KeyCombo {
    KeyCombo {
        modifiers,
        key: Key::Named(k),
    }
}

#[test]
fn unknown_entries_default_to_standard_menu_items() {
    let unknown = ch(Modifiers::shift().union(Modifiers::cmd()), 'f');
    assert_eq!(dispatch_for(None, &unknown), SystemDispatch::StandardMenuItem);
    assert_eq!(
        dispatch_for(Some(9999), &unknown),
        SystemDispatch::StandardMenuItem
    );
}

#[test]
fn interceptions_and_menu_defaults_are_told_apart() {
    assert_eq!(
        dispatch_for(Some(64), &named(Modifiers::cmd(), NamedKey::Space)),
        SystemDispatch::BeforeApps
    );
    assert_eq!(
        dispatch_for(None, &named(Modifiers::cmd(), NamedKey::Tab)),
        SystemDispatch::BeforeApps
    );
    assert_eq!(
        dispatch_for(None, &ch(Modifiers::cmd(), 'm')),
        SystemDispatch::StandardMenuItem
    );
    assert_eq!(
        dispatch_for(Some(27), &ch(Modifiers::cmd(), '`')),
        SystemDispatch::StandardMenuItem
    );
    assert_eq!(builtin_for(&ch(Modifiers::cmd(), 'm')).unwrap().label, "Minimize");
}

fn row(vk: u16, mods: u32) -> LiveHotkey {
    LiveHotkey {
        vk,
        carbon_modifiers: mods,
        enabled: true,
    }
}

#[test]
fn decodes_plain_carbon_modifiers() {
    assert_eq!(
        row(0x35, 0x900).combo(),
        Some(KeyCombo {
            modifiers: Modifiers::opt().union(Modifiers::cmd()),
            key: Key::Named(NamedKey::Escape),
        })
    );
    assert_eq!(
        row(0x30, 0x100).combo(),
        Some(KeyCombo {
            modifiers: Modifiers::cmd(),
            key: Key::Named(NamedKey::Tab),
        })
    );
    assert_eq!(
        row(0x12, 0x1000).combo().map(|c| c.to_string()),
        Some("ctrl+1".into())
    );
}

#[test]
fn fn_bit_is_dropped_on_function_keys_only() {
    assert_eq!(
        row(0x78, 0x21000).combo().map(|c| c.to_string()),
        Some("ctrl+f2".into())
    );
    assert_eq!(
        row(0x67, 0x20000).combo().map(|c| c.to_string()),
        Some("f11".into())
    );
    assert_eq!(
        row(0x0C, 0x20000).combo().map(|c| c.to_string()),
        Some("fn+q".into())
    );
    assert_eq!(
        row(0x7B, 0x20000).combo().map(|c| c.to_string()),
        Some("fn+left".into())
    );
}

#[test]
fn entries_without_a_key_have_no_combo() {
    assert_eq!(row(NO_KEY, 0).combo(), None);
}

#[test]
fn raw_table_entries_are_bounded() {
    let r = LiveHotkey::from_raw(Some(70000), Some(-1), None);
    assert_eq!(r.vk, NO_KEY);
    assert_eq!(r.carbon_modifiers, 0);
    assert!(!r.enabled);
    let r = LiveHotkey::from_raw(Some(0x31), Some(0x100), Some(true));
    assert_eq!(r, live_row(0x31, 0x100, true));
}

#[test]
fn moving_spotlight_takes_its_id_off_cmd_space() {
    let read = read_plist(Ok(plist(&entry(64, true, Some((32, 49, 524288))))));
    let scan = SymbolicHotkeys::new("moved.plist".to_string())
        .with_live_table(LiveTable::Snapshot(vec![
            live_row(0x31, 0x100, true),
            live_row(0x31, 0x800, true),
        ]))
        .scan_with(&read, None)
        .expect("a live scan never fails");
    let find = |text: &str| {
        let combo = KeyCombo::parse(text).unwrap();
        scan.bindings.iter().find(|b| b.combo == combo).unwrap().clone()
    };
    let opt_space = find("opt+space");
    match &opt_space.source {
        BindingSource::SystemSymbolicHotkey { id, .. } => assert_eq!(*id, Some(64)),
        other => panic!("unexpected source {other:?}"),
    }
    assert_eq!(opt_space.label, "Show Spotlight search");
    let cmd_space = find("cmd+space");
    match &cmd_space.source {
        BindingSource::SystemSymbolicHotkey { id, .. } => assert_ne!(*id, Some(64)),
        other => panic!("unexpected source {other:?}"),
    }
}
