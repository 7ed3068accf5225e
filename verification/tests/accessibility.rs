use tussle_core::sources::accessibility::{
    collect_walks, decode_ax_modifiers, dedupe_apple_menu, display_name, filter_running_apps,
    key_equivalent, keeps_running_app, matches_bundle_filter, menu_item_binding, resolve_retry,
    stalls, timed_out_walks, AxFailure, MenuBar, RunningApp, WalkResult, AX_MOD_CONTROL,
    AX_MOD_FN, AX_MOD_NO_COMMAND,
};
use tussle_core::{Binding, BindingSource, Key, KeyCombo, Modifiers, NamedKey};

fn lc(terms: &[&str]) -> Vec<String> {
    terms.iter().map(|s| s.to_string()).collect()
}

fn some(s: &str) -> Option<String> {
    Some(s.to_string())
}

#[test]
fn filter_matches_bundle_id_substring_case_insensitive() {
    let filter = lc(&["rustrover"]);
    assert!(matches_bundle_filter(&some("com.jetbrains.RustRover"), &None, &filter));
    assert!(matches_bundle_filter(&some("COM.JETBRAINS.RUSTROVER"), &None, &filter));
}

#[test]
fn filter_matches_app_name_substring_case_insensitive() {
    let filter = lc(&["chrome"]);
    assert!(matches_bundle_filter(
        &some("com.google.Chrome"),
        &some("Google Chrome"),
        &filter
    ));
    assert!(matches_bundle_filter(&None, &some("Google Chrome"), &filter));
}

#[test]
fn filter_misses_unrelated_app() {
    let filter = lc(&["webstorm"]);
    assert!(!matches_bundle_filter(
        &some("com.apple.finder"),
        &some("Finder"),
        &filter
    ));
}

#[test]
fn filter_or_semantics_across_multiple_terms() {
    let filter = lc(&["webstorm", "datagrip"]);
    assert!(matches_bundle_filter(&some("com.jetbrains.WebStorm"), &None, &filter));
    assert!(matches_bundle_filter(&some("com.jetbrains.datagrip"), &None, &filter));
    assert!(!matches_bundle_filter(&some("com.apple.finder"), &None, &filter));
}

fn walk(n: usize, timed_out: bool) -> WalkResult {
    WalkResult {
        bindings: (0..n)
            .map(|i| Binding {
                combo: KeyCombo {
                    modifiers: Modifiers::cmd(),
                    key: Key::Char('a'),
                },
                source: BindingSource::AppMenuItem {
                    bundle_id: "com.example".into(),
                    app_name: None,
                    menu_path: vec![],
                },
                label: format!("item {i}"),
                enabled: true,
            })
            .collect(),
        timed_out,
    }
}

#[test]
fn apple_menu_items_are_reported_once() {
    let lock = |label: &str| Binding {
        combo: KeyCombo {
            modifiers: Modifiers::ctrl().union(Modifiers::cmd()),
            key: Key::Char('q'),
        },
        source: BindingSource::AppleMenuItem {
            menu_path: vec!["Apple".into(), label.into()],
        },
        label: label.into(),
        enabled: true,
    };
    let mut app_item = walk(1, false).bindings.remove(0);
    app_item.label = "Quit".into();
    let out = dedupe_apple_menu(vec![
        lock("锁定屏幕"),
        app_item,
        lock("锁定屏幕"),
        lock("退出登录"),
    ]);
    assert_eq!(out.len(), 3);
}

#[test]
fn finished_retry_replaces_partial_first_walk() {
    let (best, unresponsive) = resolve_retry(walk(3, true), walk(40, false));
    assert_eq!(best.bindings.len(), 40);
    assert!(!best.timed_out);
    assert!(!unresponsive);
}

#[test]
fn app_that_times_out_twice_keeps_larger_partial_and_is_flagged() {
    let (best, unresponsive) = resolve_retry(walk(7, true), walk(2, true));
    assert_eq!(best.bindings.len(), 7);
    assert!(unresponsive);
    let (best, unresponsive) = resolve_retry(walk(0, true), walk(5, true));
    assert_eq!(best.bindings.len(), 5);
    assert!(unresponsive);
}

#[test]
fn empty_mask_is_implicit_cmd() {
    assert_eq!(decode_ax_modifiers(0), Modifiers::cmd());
}

#[test]
fn no_command_alone_is_empty() {
    assert_eq!(decode_ax_modifiers(AX_MOD_NO_COMMAND), Modifiers::empty());
}

#[test]
fn fn_bit_decodes_to_fn_modifier() {
    assert_eq!(
        decode_ax_modifiers(AX_MOD_FN | AX_MOD_NO_COMMAND),
        Modifiers::fn_key()
    );
}

#[test]
fn ctrl_with_implicit_cmd() {
    assert_eq!(
        decode_ax_modifiers(AX_MOD_CONTROL),
        Modifiers::ctrl().union(Modifiers::cmd())
    );
}

#[test]
fn key_equivalents_from_queries() {
    assert_eq!(key_equivalent(Err(AxFailure::Other), Ok(0)), Ok(None));
    assert_eq!(key_equivalent(Ok(String::new()), Ok(0)), Ok(None));
    assert_eq!(
        key_equivalent(Ok("W".into()), Err(AxFailure::Other)),
        Ok(Some(KeyCombo {
            modifiers: Modifiers::cmd(),
            key: Key::Char('w'),
        }))
    );
    assert_eq!(
        key_equivalent(Ok("\u{F704}".into()), Ok(AX_MOD_NO_COMMAND | AX_MOD_CONTROL)),
        Ok(Some(KeyCombo {
            modifiers: Modifiers::ctrl(),
            key: Key::Named(NamedKey::F1),
        }))
    );
    let slow = AxFailure::CannotComplete { timed_out: true };
    assert_eq!(key_equivalent(Err(slow), Ok(0)), Err(slow));
    assert!(stalls(slow));
    assert!(!stalls(AxFailure::CannotComplete { timed_out: false }));
    assert!(!stalls(AxFailure::Other));
}

fn app(pid: i32, bundle: Option<&str>, name: Option<&str>) -> RunningApp {
    RunningApp {
        pid,
        bundle_id: bundle.map(Into::into),
        app_name: name.map(Into::into),
    }
}

#[test]
fn running_apps_are_filtered_and_named() {
    assert!(keeps_running_app(false, &some("/Applications/Safari.app/Contents/MacOS/Safari")));
    assert!(!keeps_running_app(
        false,
        &some("/System/Library/Frameworks/WebKit.framework/XPCServices/com.apple.WebKit.WebContent.xpc/x")
    ));
    assert!(!keeps_running_app(true, &None));
    assert!(keeps_running_app(false, &None));

    assert_eq!(display_name(&app(7, Some("com.a"), Some("A"))), "A");
    assert_eq!(display_name(&app(7, Some("com.a"), None)), "com.a");
    assert_eq!(display_name(&app(-7, None, None)), "pid -7");

    let apps = vec![
        app(1, Some("com.jetbrains.WebStorm"), Some("WebStorm")),
        app(2, Some("com.apple.finder"), Some("Finder")),
    ];
    assert_eq!(filter_running_apps(apps.clone(), &vec![]).len(), 2);
    let kept = filter_running_apps(apps, &vec!["WEBSTORM".to_string()]);
    assert_eq!(kept.len(), 1);
    assert_eq!(kept[0].pid, 1);
}

#[test]
fn menu_items_become_bindings_by_menu_bar() {
    let pixpin = app(3, Some("com.pixpin.PixPin"), Some("PixPin"));
    let combo = KeyCombo {
        modifiers: Modifiers::ctrl(),
        key: Key::Char('1'),
    };
    let b = menu_item_binding(&pixpin, MenuBar::Extras, vec!["截图".into()], "截图", combo);
    assert!(matches!(b.source, BindingSource::StatusMenuItem { .. }));
    assert_eq!(b.source.owner(), "PixPin");
    let b = menu_item_binding(
        &pixpin,
        MenuBar::Main,
        vec!["Apple".into(), "Lock Screen".into()],
        "Lock Screen",
        combo,
    );
    assert!(matches!(b.source, BindingSource::AppleMenuItem { .. }));
    let nameless = app(4, None, None);
    let b = menu_item_binding(&nameless, MenuBar::Main, vec!["File".into()], "New", combo);
    match &b.source {
        BindingSource::AppMenuItem { bundle_id, app_name, menu_path } => {
            assert_eq!(bundle_id, "");
            assert!(app_name.is_none());
            assert_eq!(menu_path, &vec!["File".to_string()]);
        }
        other => panic!("unexpected {other:?}"),
    }
    assert_eq!(b.label, "New");
    assert!(b.enabled);
}

#[test]
fn walks_are_collected_and_retries_found() {
    let walks = vec![walk(2, false), walk(1, true), walk(0, true)];
    assert_eq!(timed_out_walks(&walks), vec![1, 2]);
    assert_eq!(collect_walks(walks).len(), 3);
}
