use tussle_core::sources::SourceScan;
use tussle_core::{
    Binding, BindingSource, ConflictKind, HotkeyIndex, Key, KeyCombo, Layer, Modifiers,
    ScanError, ScanWarning, SystemDispatch, Winner,
};

fn combo(c: char) -> KeyCombo {
    KeyCombo {
        modifiers: Modifiers::cmd(),
        key: Key::Char(c),
    }
}

fn system(id: u32, c: char, label: &str) -> Binding {
    Binding {
        combo: combo(c),
        source: BindingSource::SystemSymbolicHotkey {
            id: Some(id),
            dispatch: SystemDispatch::BeforeApps,
        },
        label: label.into(),
        enabled: true,
    }
}

fn menu(app: &str, c: char, label: &str) -> Binding {
    Binding {
        combo: combo(c),
        source: BindingSource::AppMenuItem {
            bundle_id: format!("com.example.{app}"),
            app_name: Some(app.into()),
            menu_path: vec!["File".into(), label.into()],
        },
        label: label.into(),
        enabled: true,
    }
}

fn status(app: &str, c: char, label: &str) -> Binding {
    Binding {
        combo: combo(c),
        source: BindingSource::StatusMenuItem {
            bundle_id: format!("com.example.{app}"),
            app_name: Some(app.into()),
            menu_path: vec![label.into()],
        },
        label: label.into(),
        enabled: true,
    }
}

#[test]
fn push_and_iter_preserve_order() {
    let mut idx = HotkeyIndex::new();
    idx.push(system(1, 'a', "a"));
    idx.push(system(2, 'b', "b"));
    let labels: Vec<_> = idx.iter().map(|b| b.label.as_str()).collect();
    assert_eq!(labels, vec!["a", "b"]);
}

#[test]
fn extend_appends_in_order() {
    let mut idx = HotkeyIndex::new();
    idx.extend(vec![system(1, 'x', "x"), system(2, 'y', "y")]);
    assert_eq!(idx.len(), 2);
    let labels: Vec<_> = idx.iter().map(|b| b.label.as_str()).collect();
    assert_eq!(labels, vec!["x", "y"]);
}

#[test]
fn empty_index_reports_empty() {
    let idx = HotkeyIndex::new();
    assert!(idx.is_empty());
    assert_eq!(idx.len(), 0);
    assert_eq!(idx.winner(&combo('z')), Winner::Nobody);
}

#[test]
fn scan_collects_bindings_warnings_and_failures() {
    let warn = ScanWarning::Unresponsive {
        app: "Pages".into(),
    };
    let results = vec![
        (
            "one".to_string(),
            Ok(SourceScan {
                bindings: vec![system(64, ' ', "Spotlight")],
                warnings: vec![warn.clone()],
            }),
        ),
        (
            "broken".to_string(),
            Err(ScanError::Schema {
                path: "x.plist".into(),
                message: "nope".into(),
            }),
        ),
        (
            "two".to_string(),
            Ok(SourceScan {
                bindings: vec![menu("Safari", 'w', "Close")],
                warnings: vec![],
            }),
        ),
    ];
    let idx = HotkeyIndex::scan(results);
    assert_eq!(idx.len(), 2);
    assert_eq!(idx.warnings(), &[warn]);
    assert_eq!(idx.failures().len(), 1);
    assert_eq!(idx.failures()[0].source, "broken");
}

#[test]
fn find_orders_system_before_app_menus_and_skips_disabled() {
    let mut idx = HotkeyIndex::new();
    idx.push(menu("Zed", 'k', "Command Palette"));
    idx.push(menu("Alpha", 'k', "Kick"));
    idx.push(system(9, 'k', "Some system thing"));
    let mut off = menu("Off", 'k', "Disabled");
    off.enabled = false;
    idx.push(off);

    let owners: Vec<_> = idx
        .find(&combo('k'))
        .iter()
        .map(|b| b.source.owner().to_string())
        .collect();
    assert_eq!(owners, vec!["macOS", "Alpha", "Zed"]);
}

#[test]
fn global_binding_wins_over_app_menus() {
    let mut idx = HotkeyIndex::new();
    idx.push(menu("Safari", ' ', "Search"));
    idx.push(system(64, ' ', "Spotlight"));
    match idx.winner(&combo(' ')) {
        Winner::Global(b) => assert_eq!(b.label, "Spotlight"),
        other => panic!("expected the system binding to win, got {other:?}"),
    }
}

#[test]
fn only_app_menus_means_frontmost_app_decides() {
    let mut idx = HotkeyIndex::new();
    idx.push(menu("Safari", 'w', "Close Window"));
    idx.push(menu("Mail", 'w', "Close"));
    assert_eq!(idx.winner(&combo('w')), Winner::FrontmostApp);
}

#[test]
fn two_globals_on_the_same_layer_are_contested() {
    let mut idx = HotkeyIndex::new();
    idx.push(system(64, 'q', "Show Spotlight search"));
    idx.push(system(65, 'q', "Show Finder search window"));
    idx.push(menu("Safari", 'q', "Quit"));
    assert_eq!(idx.winner(&combo('q')), Winner::Contested(Layer::System));
}

#[test]
fn apps_reusing_a_shortcut_are_not_a_conflict() {
    let mut idx = HotkeyIndex::new();
    idx.push(menu("Safari", 'w', "Close Window"));
    idx.push(menu("Mail", 'w', "Close"));
    idx.push(menu("Terminal", 'w', "Close Window"));
    assert!(idx.conflicts().is_empty());
}

#[test]
fn global_over_app_menu_is_shadowed() {
    let mut idx = HotkeyIndex::new();
    idx.push(menu("Safari", ' ', "Search"));
    idx.push(system(64, ' ', "Spotlight"));
    let conflicts = idx.conflicts();
    assert_eq!(conflicts.len(), 1);
    let c = &conflicts[0];
    assert_eq!(c.kind, ConflictKind::Shadowed);
    assert_eq!(c.combo, combo(' '));
    assert!(matches!(c.winner, Winner::Global(b) if b.label == "Spotlight"));
    assert_eq!(c.bindings.len(), 2);
    assert_eq!(c.bindings[0].label, "Spotlight");
}

#[test]
fn two_globals_are_contested_and_menus_ride_along() {
    let mut idx = HotkeyIndex::new();
    idx.push(menu("Warp", '1', "Left Panel"));
    idx.push(system(118, '1', "Switch to Desktop 1"));
    idx.push(system(119, '1', "Switch to Desktop 2"));
    let conflicts = idx.conflicts();
    assert_eq!(conflicts.len(), 1);
    assert_eq!(conflicts[0].kind, ConflictKind::Contested);
    assert_eq!(conflicts[0].winner, Winner::Contested(Layer::System));
    assert_eq!(conflicts[0].bindings.len(), 3);
}

#[test]
fn conflicts_are_sorted_by_combo_and_ignore_disabled() {
    let mut idx = HotkeyIndex::new();
    idx.push(system(1, 'z', "Z"));
    idx.push(menu("App", 'z', "z item"));
    idx.push(system(2, 'a', "A"));
    idx.push(menu("App", 'a', "a item"));
    let mut off = system(3, 'm', "off");
    off.enabled = false;
    idx.push(off);
    idx.push(menu("App", 'm', "m item"));
    let combos: Vec<String> = idx
        .conflicts()
        .iter()
        .map(|c| c.combo.to_string())
        .collect();
    assert_eq!(combos, vec!["cmd+a", "cmd+z"]);
}

#[test]
fn status_bar_shortcut_beats_app_menus_but_not_the_system() {
    let mut idx = HotkeyIndex::new();
    idx.push(menu("Warp", '1', "Left Panel"));
    idx.push(status("PixPin", '1', "截图"));
    assert!(
        matches!(idx.winner(&combo('1')), Winner::Global(b) if b.source.owner() == "PixPin")
    );
    let conflicts = idx.conflicts();
    assert_eq!(conflicts.len(), 1);
    assert_eq!(conflicts[0].kind, ConflictKind::Shadowed);

    idx.push(system(118, '1', "Switch to Desktop 1"));
    assert!(
        matches!(idx.winner(&combo('1')), Winner::Global(b) if b.source.owner() == "macOS")
    );
    assert_eq!(idx.conflicts()[0].kind, ConflictKind::Contested);
}

#[test]
fn two_status_bar_apps_on_one_combo_are_contested() {
    let mut idx = HotkeyIndex::new();
    idx.push(status("PixPin", 'x', "截图"));
    idx.push(status("CleanShot", 'x', "Capture"));
    assert_eq!(
        idx.winner(&combo('x')),
        Winner::Contested(Layer::GlobalHotkey)
    );
}

#[test]
fn switched_off_claimants_are_listed_apart() {
    let mut idx = HotkeyIndex::new();
    let mut off = system(118, '1', "Switch to Desktop 1");
    off.enabled = false;
    idx.push(off);
    idx.push(menu("Warp", '1', "Left Panel"));
    assert_eq!(idx.find(&combo('1')).len(), 1);
    let off = idx.switched_off(&combo('1'));
    assert_eq!(off.len(), 1);
    assert_eq!(off[0].label, "Switch to Desktop 1");
    assert_eq!(idx.enabled().len(), 1);
}
