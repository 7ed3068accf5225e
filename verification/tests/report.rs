use tussle_core::capture::{Captured, Probe, Reaction, ReactionKind};
use tussle_core::report::conflicts::{conflict_rows, kind_label, render, role, tsv};
use tussle_core::report::doctor::{
    accessibility_check, check_line, input_monitoring_check, preferences_check,
    running_apps_check, system_shortcuts_check,
};
use tussle_core::report::free::{
    candidate_keys, free_report, owners, owners_with_labels, parse_free_modifiers, wrap,
    FreeArgError, FreeStatus,
};
use tussle_core::report::output::{how_to_change, keeps_source, settings_section, unknown_source};
use tussle_core::report::who::{
    describe, describe_probe, describe_reaction, fires_label, is_known, reactor_name,
};
use tussle_core::capture::PermissionStatus;
use tussle_core::sources::SourceScan;
use tussle_core::{
    Binding, BindingSource, ConflictKind, HotkeyIndex, Key, KeyCombo, Modifiers, NamedKey,
    ScanError, ScanWarning, SystemDispatch, Winner,
};

fn reaction(name: &str, bundle: Option<&str>) -> Reaction {
    Reaction {
        pid: 1,
        app_name: Some(name.into()),
        bundle_id: bundle.map(Into::into),
        kind: ReactionKind::NewWindows(1),
    }
}

fn ctrl_space() -> KeyCombo {
    KeyCombo {
        modifiers: Modifiers::ctrl(),
        key: Key::Named(NamedKey::Space),
    }
}

fn input_source_binding() -> Binding {
    Binding {
        combo: ctrl_space(),
        source: BindingSource::SystemSymbolicHotkey {
            id: Some(60),
            dispatch: SystemDispatch::BeforeApps,
        },
        label: "Select the previous input source".into(),
        enabled: true,
    }
}

fn warp_binding() -> Binding {
    Binding {
        combo: ctrl_space(),
        source: BindingSource::AppMenuItem {
            bundle_id: "dev.warp.Warp-Stable".into(),
            app_name: Some("Warp".into()),
            menu_path: vec![],
        },
        label: "New Agent Pane".into(),
        enabled: true,
    }
}

#[test]
fn reactions_are_matched_to_claimants_by_bundle_or_name() {
    let system = input_source_binding();
    let warp = warp_binding();
    let matches = vec![&system, &warp];
    assert!(is_known(&reaction("Warp", None), &matches));
    assert!(is_known(
        &reaction("warp", Some("dev.warp.Warp-Stable")),
        &matches
    ));
    assert!(!is_known(
        &reaction("Codex", Some("com.openai.codex")),
        &matches
    ));
}

#[test]
fn probe_report_names_the_system_shortcut_and_unexplained_apps() {
    let system = input_source_binding();
    let warp = warp_binding();
    let matches = vec![&system, &warp];
    let probe = Probe {
        captured: Captured::Combo(ctrl_space()),
        reactions: vec![
            reaction("Codex", Some("com.openai.codex")),
            Reaction {
                pid: 42,
                app_name: None,
                bundle_id: None,
                kind: ReactionKind::Activated,
            },
            reaction("Warp", None),
        ],
        input_source_change: Some(("ABC".into(), "Pinyin".into())),
    };
    let text = describe_probe(&ctrl_space(), &probe, &matches);
    let expected = [
        "Observed within 800 ms of letting ctrl+space through:\n",
        "  input source changed: ABC -> Pinyin  (macOS: Select the previous input source)\n",
        "  Codex opened a window  (in no source)\n",
        "  pid 42 came to the front  (in no source)\n",
        "  Warp opened a window\n",
        "Codex reacts to ctrl+space from its own code: no file or menu records it, so tussle cannot list it. To change it: Codex's own settings.\n",
        "pid 42 reacts to ctrl+space from its own code: no file or menu records it, so tussle cannot list it. To change it: pid 42's own settings.\n",
        "Both fired: the system shortcut only blocks apps that claim the key through their menus; an app that merely watches keystrokes still sees it. Turn off whichever you do not want.\n",
    ]
    .concat();
    assert_eq!(text, expected);

    let quiet = Probe {
        captured: Captured::Combo(ctrl_space()),
        reactions: vec![],
        input_source_change: None,
    };
    assert_eq!(
        describe_probe(&ctrl_space(), &quiet, &matches),
        "Observed within 800 ms of letting ctrl+space through:\n  nothing came to the front, no window opened, input source unchanged\n"
    );
}

#[test]
fn reactions_read_as_sentences() {
    let mut r = reaction("Warp", None);
    assert_eq!(describe_reaction(&r), "Warp opened a window");
    r.kind = ReactionKind::NewWindows(3);
    assert_eq!(describe_reaction(&r), "Warp opened 3 windows");
    r.kind = ReactionKind::Activated;
    assert_eq!(describe_reaction(&r), "Warp came to the front");
    r.app_name = None;
    r.bundle_id = Some("dev.warp".into());
    assert_eq!(reactor_name(&r), "dev.warp");
}

fn cmd(c: char) -> KeyCombo {
    KeyCombo {
        modifiers: Modifiers::cmd(),
        key: Key::Char(c),
    }
}

fn system(id: u32, c: char, label: &str) -> Binding {
    Binding {
        combo: cmd(c),
        source: BindingSource::SystemSymbolicHotkey {
            id: Some(id),
            dispatch: SystemDispatch::BeforeApps,
        },
        label: label.into(),
        enabled: true,
    }
}

fn menu(app: &str, c: char, label: &str) -> Binding {
    Binding {
        combo: cmd(c),
        source: BindingSource::AppMenuItem {
            bundle_id: format!("com.example.{app}"),
            app_name: Some(app.into()),
            menu_path: vec!["File".into(), label.into()],
        },
        label: label.into(),
        enabled: true,
    }
}

#[test]
fn who_says_who_fires() {
    let mut idx = HotkeyIndex::new();
    idx.push(menu("Safari", ' ', "Search"));
    idx.push(menu("Mail", ' ', "Find"));
    idx.push(system(64, ' ', "Show Spotlight search"));
    let found = idx.find(&cmd(' '));
    let w = idx.winner(&cmd(' '));
    assert_eq!(
        describe(&cmd(' '), w, &found),
        "cmd+  fires macOS (system layer): Show Spotlight search; the other 2 bindings never see this key"
    );
    assert_eq!(fires_label(w, found[0].source.layer(), 0), "yes");
    assert_eq!(fires_label(w, found[1].source.layer(), 1), "");
    assert_eq!(fires_label(w, found[2].source.layer(), 2), "");
    let none: Vec<&Binding> = vec![];
    assert_eq!(
        describe(&cmd('z'), Winner::Nobody, &none),
        "nothing enabled is bound to cmd+z"
    );
    let mut apps = HotkeyIndex::new();
    apps.push(menu("Safari", 'w', "Close"));
    let found = apps.find(&cmd('w'));
    assert_eq!(
        describe(&cmd('w'), apps.winner(&cmd('w')), &found),
        "cmd+w is only bound in app menus: whichever app is frontmost handles it"
    );
}

#[test]
fn fires_column_reads_contested_and_app() {
    let mut contested = HotkeyIndex::new();
    contested.push(system(118, '1', "Switch to Desktop 1"));
    contested.push(system(119, '1', "Switch to Desktop 2"));
    contested.push(menu("Warp", '1', "Left Panel"));
    let found = contested.find(&cmd('1'));
    let w = contested.winner(&cmd('1'));
    let labels: Vec<&str> = found
        .iter()
        .enumerate()
        .map(|(i, b)| fires_label(w, b.source.layer(), i))
        .collect();
    assert_eq!(labels, vec!["contested", "contested", ""]);

    let mut apps = HotkeyIndex::new();
    apps.push(menu("Safari", 'w', "Close"));
    apps.push(menu("Mail", 'w', "Close Window"));
    let found = apps.find(&cmd('w'));
    let w = apps.winner(&cmd('w'));
    assert!(matches!(w, Winner::FrontmostApp));
    assert_eq!(fires_label(w, found[0].source.layer(), 0), "app");
    assert_eq!(fires_label(w, found[1].source.layer(), 1), "app");
    assert_eq!(fires_label(Winner::Nobody, found[0].source.layer(), 0), "");
}

#[test]
fn conflicts_render_as_blocks_and_rows() {
    let mut idx = HotkeyIndex::new();
    idx.push(menu("Safari", ' ', "Search"));
    idx.push(system(64, ' ', "Spotlight"));
    let found = idx.conflicts();
    assert_eq!(found.len(), 1);
    assert_eq!(kind_label(found[0].kind), "shadowed");
    assert_eq!(
        render(&found[0]),
        "cmd+   shadowed\n  wins         macOS: Spotlight  [system]\n  never fires  Safari: Search  [app-menu]\n"
    );
    assert_eq!(role(&found[0], 0), Some("wins"));
    assert_eq!(role(&found[0], 1), Some("never fires"));
    let rows = conflict_rows(&found);
    assert_eq!(rows.len(), 2);
    assert_eq!(
        tsv(&rows),
        "cmd+ \tshadowed\twins\tsystem\tmacOS\tSpotlight\ncmd+ \tshadowed\tnever fires\tapp-menu\tSafari\tSearch\n"
    );

    let mut contested = HotkeyIndex::new();
    contested.push(system(118, '1', "Switch to Desktop 1"));
    contested.push(system(119, '1', "Switch to Desktop 2"));
    contested.push(menu("Warp", '1', "Left Panel"));
    let found = contested.conflicts();
    assert_eq!(found[0].kind, ConflictKind::Contested);
    assert_eq!(
        render(&found[0]),
        "cmd+1  contested\n  contested    macOS: Switch to Desktop 1  [system]\n               macOS: Switch to Desktop 2  [system]\n  never fires  Warp: Left Panel  [app-menu]\n"
    );
}

#[test]
fn free_sorts_candidates_by_who_uses_them() {
    let mut idx = HotkeyIndex::new();
    idx.push(system(64, 'a', "A"));
    idx.push(menu("Safari", 'b', "B"));
    idx.push(menu("Mail", 'b', "B too"));
    let report = free_report(&idx, Modifiers::cmd());
    assert_eq!(candidate_keys().len(), 67);
    assert_eq!(report.free.len(), 65);
    assert_eq!(report.app_only.len(), 1);
    assert_eq!(report.app_only[0].0, cmd('b'));
    assert_eq!(report.taken.len(), 1);
    assert_eq!(report.taken[0].0, cmd('a'));
    assert_eq!(owners(&report.app_only[0].1), vec!["Mail".to_string(), "Safari".to_string()]);
    assert_eq!(owners_with_labels(&report.taken[0].1), vec!["macOS: A".to_string()]);
    assert_eq!(FreeStatus::AppMenusOnly.name(), "app_menus_only");

    assert_eq!(parse_free_modifiers("ctrl+opt"), Ok(Modifiers::ctrl().union(Modifiers::opt())));
    assert!(parse_free_modifiers("").is_err());
    assert!(matches!(parse_free_modifiers("super"), Err(FreeArgError::Parse(_))));
}

#[test]
fn wrap_breaks_lines_near_the_width() {
    let items: Vec<String> = ["cmd+a", "cmd+b", "cmd+c"].iter().map(|s| s.to_string()).collect();
    assert_eq!(wrap(&items, 76), "cmd+a, cmd+b, cmd+c");
    assert_eq!(wrap(&items, 12), "cmd+a, cmd+b,\n  cmd+c");
    assert_eq!(wrap(&vec![], 10), "");
}

#[test]
fn how_to_change_points_at_the_right_place() {
    assert_eq!(
        how_to_change(&system(64, ' ', "Spotlight")),
        "System Settings → Keyboard → Keyboard Shortcuts → Spotlight"
    );
    assert_eq!(settings_section(118), "Mission Control");
    assert_eq!(settings_section(500), "the section listing it");
    assert_eq!(
        how_to_change(&menu("Safari", 'w', "Close")),
        "in Safari itself if it lets you, otherwise System Settings → Keyboard → Keyboard Shortcuts → App Shortcuts: add Safari with the menu title \"Close\""
    );
    let tab = Binding {
        combo: KeyCombo {
            modifiers: Modifiers::cmd(),
            key: Key::Named(NamedKey::Tab),
        },
        source: BindingSource::SystemSymbolicHotkey {
            id: None,
            dispatch: SystemDispatch::BeforeApps,
        },
        label: "Switch to next app".into(),
        enabled: true,
    };
    assert_eq!(how_to_change(&tab), "built into macOS; it cannot be changed");
}

#[test]
fn doctor_checks_read_as_lines() {
    let c = accessibility_check(true);
    assert_eq!(check_line(&c), "Accessibility      granted        menu shortcuts of running apps can be read");
    assert_eq!(input_monitoring_check(PermissionStatus::Undetermined).status, "not asked yet");
    let live: Result<SourceScan, ScanError> = Ok(SourceScan {
        bindings: vec![system(64, ' ', "Spotlight")],
        warnings: vec![ScanWarning::Skipped {
            path: "p.plist".into(),
            message: "io error reading p.plist".into(),
        }],
    });
    let c = system_shortcuts_check(&live);
    assert_eq!(c.status, "partial");
    assert_eq!(
        c.detail,
        "1 entries from the live table; skipped p.plist: io error reading p.plist"
    );
    let failed: Result<SourceScan, ScanError> = Err(ScanError::Io {
        path: "p".into(),
        message: "x".into(),
    });
    assert_eq!(system_shortcuts_check(&failed).status, "failed");
    assert_eq!(preferences_check(&None, false).status, "unknown");
    assert_eq!(preferences_check(&Some("/p".into()), false).status, "missing");

    let mut idx = HotkeyIndex::scan(vec![(
        "accessibility".to_string(),
        Ok(SourceScan {
            bindings: vec![menu("Safari", 'w', "Close"), menu("Safari", 'n', "New")],
            warnings: vec![ScanWarning::Unresponsive { app: "Pages".into() }],
        }),
    )]);
    idx.push(menu("Mail", 'n', "New"));
    let c = running_apps_check(&idx);
    assert_eq!(c.status, "partial");
    assert_eq!(c.detail, "2 apps with shortcuts, 3 bindings, 1 unresponsive");
}

#[test]
fn source_names_are_checked_against_what_is_available() {
    let available: Vec<String> = ["symbolichotkeys", "nsuserkeyequivalents", "accessibility"]
        .iter()
        .map(|s| s.to_string())
        .collect();
    assert_eq!(unknown_source(&available, &vec![]), None);
    assert_eq!(unknown_source(&available, &vec!["accessibility".into()]), None);
    assert_eq!(
        unknown_source(&available, &vec!["accessibility".into(), "karabiner".into()]),
        Some(1)
    );
    assert!(keeps_source("accessibility", &vec![]));
    assert!(keeps_source("accessibility", &vec!["accessibility".into()]));
    assert!(!keeps_source("symbolichotkeys", &vec!["accessibility".into()]));
}
