use tussle_core::capture::{
    input_source_change, build_captured, check_input_monitoring, classify_extended_vk, decode_cg_flags, new_windows,
    permission_from_access_type, reaction_order, Captured, PermissionStatus, ReactionKind,
    SystemActionKind, WatchState,
};
use tussle_core::{Key, KeyCombo, Modifiers, NamedKey, ScanError};

#[test]
fn classify_returns_none_for_standard_kvk_range() {
    assert!(classify_extended_vk(0x00).is_none());
    assert!(classify_extended_vk(0x7E).is_none());
    assert!(classify_extended_vk(0x7F).is_none());
}

#[test]
fn classify_returns_change_input_source_for_0xb3() {
    let action = classify_extended_vk(0xB3).expect("0xB3 must classify");
    assert_eq!(action.vk, 0xB3);
    assert_eq!(action.kind, SystemActionKind::ChangeInputSource);
}

#[test]
fn classify_returns_mission_control_for_0xa0() {
    let action = classify_extended_vk(0xA0).expect("0xA0 must classify");
    assert_eq!(action.vk, 0xA0);
    assert_eq!(action.kind, SystemActionKind::MissionControl);
}

#[test]
fn classify_returns_unknown_for_other_extended_codes() {
    let action = classify_extended_vk(0x90).expect("0x90 must classify");
    assert_eq!(action.vk, 0x90);
    assert_eq!(action.kind, SystemActionKind::Unknown);
}

#[test]
fn known_kinds_have_source_hint_and_unknown_does_not() {
    assert!(SystemActionKind::ChangeInputSource.source_hint().is_some());
    assert!(SystemActionKind::Unknown.source_hint().is_none());
    assert_eq!(SystemActionKind::MissionControl.name(), "Mission Control");
    assert_eq!(
        SystemActionKind::Unknown.name(),
        "unrecognized macOS extended keycode"
    );
}

fn windows(pairs: &[(u32, i32)]) -> Vec<(u32, i32)> {
    pairs.to_vec()
}

fn count_of(counts: &[(i32, usize)], pid: i32) -> Option<usize> {
    counts.iter().find(|(p, _)| *p == pid).map(|(_, n)| *n)
}

#[test]
fn new_windows_are_counted_per_owner_and_never_our_own() {
    let baseline = windows(&[(1, 100), (2, 100), (3, 200)]);
    let now = windows(&[(1, 100), (3, 200), (4, 300), (5, 300), (6, 999)]);
    let counts = new_windows(&baseline, &now, 999);
    assert_eq!(count_of(&counts, 300), Some(2));
    assert_eq!(count_of(&counts, 999), None);
    assert_eq!(count_of(&counts, 100), None);
}

#[test]
fn keydown_becomes_a_combo_or_a_system_action() {
    let cmd = decode_cg_flags(0x10_0000);
    assert_eq!(cmd, Modifiers::cmd());
    assert_eq!(
        build_captured(0x31, cmd),
        Captured::Combo(KeyCombo {
            modifiers: Modifiers::cmd(),
            key: Key::Named(NamedKey::Space),
        })
    );
    match build_captured(0xB3, Modifiers::empty()) {
        Captured::SystemAction(a) => assert_eq!(a.kind, SystemActionKind::ChangeInputSource),
        other => panic!("expected a system action, got {other:?}"),
    }
    let all = decode_cg_flags(0x2_0000 | 0x4_0000 | 0x8_0000 | 0x10_0000 | 0x80_0000);
    assert_eq!(all, Modifiers::all());
}

#[test]
fn permission_states_and_the_capture_gate() {
    assert_eq!(permission_from_access_type(0), PermissionStatus::Granted);
    assert_eq!(permission_from_access_type(1), PermissionStatus::Denied);
    assert_eq!(permission_from_access_type(2), PermissionStatus::Undetermined);
    assert!(check_input_monitoring(true).is_ok());
    match check_input_monitoring(false) {
        Err(ScanError::Schema { path, message }) => {
            assert_eq!(path, "");
            assert!(message.starts_with("Input Monitoring permission denied."));
        }
        other => panic!("unexpected {other:?}"),
    }
}

#[test]
fn watch_keeps_new_fronts_and_the_most_windows() {
    let mut w = WatchState::new();
    let baseline = windows(&[(1, 10)]);
    w.observe(Some(10), &baseline, Some(10), &windows(&[(1, 10)]), 5);
    assert!(w.activated.is_empty());
    w.observe(Some(10), &baseline, Some(20), &windows(&[(1, 10), (2, 30), (3, 30)]), 5);
    w.observe(Some(10), &baseline, Some(20), &windows(&[(1, 10), (2, 30), (4, 40)]), 5);
    w.observe(Some(10), &baseline, Some(5), &windows(&[(9, 5)]), 5);
    assert_eq!(w.activated, vec![20]);
    assert_eq!(count_of(&w.opened, 30), Some(2));
    assert_eq!(count_of(&w.opened, 40), Some(1));
    assert_eq!(count_of(&w.opened, 5), None);

    let order = reaction_order(&w.activated, &w.opened);
    assert_eq!(
        order,
        vec![
            (20, ReactionKind::Activated),
            (30, ReactionKind::NewWindows(2)),
            (40, ReactionKind::NewWindows(1)),
        ]
    );
}

#[test]
fn input_source_change_needs_two_different_readings() {
    assert_eq!(
        input_source_change(&Some("com.apple.keylayout.US".into()), Some("com.apple.inputmethod.SCIM".into())),
        Some(("com.apple.keylayout.US".to_string(), "com.apple.inputmethod.SCIM".to_string()))
    );
    assert_eq!(input_source_change(&Some("a".into()), Some("a".into())), None);
    assert_eq!(input_source_change(&None, Some("a".into())), None);
}
