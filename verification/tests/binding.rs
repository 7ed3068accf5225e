use tussle_core::{BindingSource, Layer, Scope, SystemDispatch};

fn spotlight() -> BindingSource {
    BindingSource::SystemSymbolicHotkey {
        id: Some(64),
        dispatch: SystemDispatch::BeforeApps,
    }
}

#[test]
fn owner_for_symbolic_hotkey_is_macos() {
    let s = spotlight();
    assert_eq!(s.owner(), "macOS");
}

#[test]
fn owner_for_app_menu_override_is_bundle_id() {
    let s = BindingSource::AppMenuOverride {
        bundle_id: "com.apple.TextEdit".into(),
        menu_item: "New".into(),
    };
    assert_eq!(s.owner(), "com.apple.TextEdit");
}

#[test]
fn owner_for_app_menu_item_prefers_app_name() {
    let s = BindingSource::AppMenuItem {
        bundle_id: "com.apple.Safari".into(),
        app_name: Some("Safari".into()),
        menu_path: vec!["File".into(), "New Window".into()],
    };
    assert_eq!(s.owner(), "Safari");
}

#[test]
fn owner_for_app_menu_item_falls_back_to_bundle_id() {
    let s = BindingSource::AppMenuItem {
        bundle_id: "com.example.unknown".into(),
        app_name: None,
        menu_path: vec!["Edit".into()],
    };
    assert_eq!(s.owner(), "com.example.unknown");
}

#[test]
fn bundle_id_is_none_for_system_hotkey() {
    let s = spotlight();
    assert!(s.bundle_id().is_none());
}

#[test]
fn bundle_id_returns_id_for_app_sources() {
    let menu = BindingSource::AppMenuItem {
        bundle_id: "com.apple.finder".into(),
        app_name: Some("访达".into()),
        menu_path: vec![],
    };
    assert_eq!(menu.bundle_id(), Some("com.apple.finder"));

    let override_ = BindingSource::AppMenuOverride {
        bundle_id: "com.apple.TextEdit".into(),
        menu_item: "New".into(),
    };
    assert_eq!(override_.bundle_id(), Some("com.apple.TextEdit"));
}

#[test]
fn layers_are_ordered_first_to_last() {
    assert!(Layer::Driver < Layer::EventTap);
    assert!(Layer::EventTap < Layer::System);
    assert!(Layer::System < Layer::GlobalHotkey);
    assert!(Layer::GlobalHotkey < Layer::AppMenu);
}

#[test]
fn only_app_menu_layer_is_app_scoped() {
    assert_eq!(Layer::AppMenu.scope(), Scope::App);
    for layer in [
        Layer::Driver,
        Layer::EventTap,
        Layer::System,
        Layer::GlobalHotkey,
    ] {
        assert_eq!(layer.scope(), Scope::Global, "{layer:?}");
    }
}

#[test]
fn sources_map_to_layers() {
    assert_eq!(spotlight().layer(), Layer::System);
    let override_ = BindingSource::AppMenuOverride {
        bundle_id: "com.apple.TextEdit".into(),
        menu_item: "New".into(),
    };
    assert_eq!(override_.layer(), Layer::AppMenu);
    assert_eq!(override_.scope(), Scope::App);
    let item = BindingSource::AppMenuItem {
        bundle_id: "com.apple.Safari".into(),
        app_name: None,
        menu_path: vec![],
    };
    assert_eq!(item.layer(), Layer::AppMenu);
}

#[test]
fn status_menu_items_are_global_hotkeys_and_standard_items_are_app_menus() {
    let status = BindingSource::StatusMenuItem {
        bundle_id: "com.pixpin.PixPin".into(),
        app_name: Some("PixPin".into()),
        menu_path: vec!["截图".into()],
    };
    assert_eq!(status.layer(), Layer::GlobalHotkey);
    assert_eq!(status.owner(), "PixPin");
    let minimize = BindingSource::SystemSymbolicHotkey {
        id: None,
        dispatch: SystemDispatch::StandardMenuItem,
    };
    assert_eq!(minimize.layer(), Layer::AppMenu);
    let apple = BindingSource::AppleMenuItem {
        menu_path: vec!["Apple".into(), "Lock Screen".into()],
    };
    assert_eq!(apple.owner(), "macOS");
    assert!(apple.bundle_id().is_none());
    assert_eq!(Layer::GlobalHotkey.name(), "global-hotkey");
    assert_eq!(Layer::GlobalHotkey.rank(), 3);
}
