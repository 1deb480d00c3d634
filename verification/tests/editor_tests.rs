use world_editor::asset_browser::AssetBrowserUiState;
use world_editor::config::ClientRuntimeConfig;
use world_editor::decimal::u64_to_decimal;
use world_editor::flycam::FlyCamActive;
use world_editor::players::{PlayerIdentity, PlayerTable, identity_connected, identity_disconnected, init};
use world_editor::transform_tools::{ActiveTransformTool, TransformToolMode, mode_after_hotkeys};

#[test]
fn decimal_rendering() {
    assert_eq!(u64_to_decimal(0), "0");
    assert_eq!(u64_to_decimal(7), "7");
    assert_eq!(u64_to_decimal(10), "10");
    assert_eq!(u64_to_decimal(42), "42");
    assert_eq!(u64_to_decimal(1000), "1000");
    assert_eq!(u64_to_decimal(1234567890123456789), "1234567890123456789");
    assert_eq!(u64_to_decimal(u64::MAX), "18446744073709551615");
}

#[test]
fn config_defaults_when_unset() {
    let c = ClientRuntimeConfig::from_env_values(None, None, None);
    assert_eq!(c.spacetime_url, "ws://127.0.0.1:3000");
    assert_eq!(c.spacetime_name, "default");
    assert!(c.asset_path.is_none());
}

#[test]
fn config_takes_set_values() {
    let c = ClientRuntimeConfig::from_env_values(
        Some(String::from("ws://example:9000")),
        Some(String::from("my_world")),
        Some(String::from("shared/assets")),
    );
    assert_eq!(c.spacetime_url, "ws://example:9000");
    assert_eq!(c.spacetime_name, "my_world");
    assert_eq!(c.asset_path.as_deref(), Some("shared/assets"));
}

#[test]
fn config_filters_empty_asset_override() {
    let c = ClientRuntimeConfig::from_env_values(None, None, Some(String::new()));
    assert!(c.asset_path.is_none());
}

#[test]
fn asset_root_defaults_under_crate_dir() {
    let c = ClientRuntimeConfig::from_env_values(None, None, None);
    assert_eq!(c.asset_root_for_bevy("/work/client"), "/work/client/assets");
    assert_eq!(c.asset_root_for_listing("/work/client"), "/work/client/assets");
}

#[test]
fn asset_root_joins_relative_override() {
    let c = ClientRuntimeConfig::from_env_values(None, None, Some(String::from("shared")));
    assert_eq!(c.asset_root_for_bevy("/work/client"), "/work/client/shared");
}

#[test]
fn asset_root_keeps_absolute_override() {
    let unix = ClientRuntimeConfig::from_env_values(None, None, Some(String::from("/opt/assets")));
    assert_eq!(unix.asset_root_for_bevy("/work/client"), "/opt/assets");
    let windows = ClientRuntimeConfig::from_env_values(None, None, Some(String::from("C:\\assets")));
    assert_eq!(windows.asset_root_for_listing("/work/client"), "C:\\assets");
}

#[test]
fn transform_tool_labels_and_hotkeys() {
    assert_eq!(TransformToolMode::Translate.label(), "Move");
    assert_eq!(TransformToolMode::Rotate.label(), "Rotate");
    assert_eq!(TransformToolMode::Scale.label(), "Scale");
    assert_eq!(TransformToolMode::Translate.hotkey(), "W");
    assert_eq!(TransformToolMode::Rotate.hotkey(), "E");
    assert_eq!(TransformToolMode::Scale.hotkey(), "R");
}

#[test]
fn transform_tool_defaults_to_translate() {
    assert_eq!(ActiveTransformTool::default().mode, TransformToolMode::Translate);
}

#[test]
fn hotkeys_switch_tools_unless_gated() {
    let cur = TransformToolMode::Translate;
    assert_eq!(mode_after_hotkeys(cur, false, false, false, true, false), TransformToolMode::Rotate);
    assert_eq!(mode_after_hotkeys(cur, false, false, false, false, true), TransformToolMode::Scale);
    assert_eq!(
        mode_after_hotkeys(TransformToolMode::Scale, false, false, true, false, false),
        TransformToolMode::Translate
    );
    // no key pressed: unchanged
    assert_eq!(mode_after_hotkeys(TransformToolMode::Rotate, false, false, false, false, false), TransformToolMode::Rotate);
    // gated by flycam or UI focus
    assert_eq!(mode_after_hotkeys(cur, true, false, false, true, false), cur);
    assert_eq!(mode_after_hotkeys(cur, false, true, false, true, false), cur);
    // W wins over E and R in the same frame
    assert_eq!(mode_after_hotkeys(cur, false, false, true, true, true), TransformToolMode::Translate);
}

#[test]
fn flycam_capture_rules() {
    let mut a = FlyCamActive::default();
    assert!(!a.0);
    // press outside UI captures
    a.update(true, false, false);
    assert!(a.0);
    // nothing happening keeps the state
    a.update(false, false, false);
    assert!(a.0);
    // release stops the capture
    a.update(false, true, false);
    assert!(!a.0);
    // press over the UI does not capture
    a.update(true, false, true);
    assert!(!a.0);
    // press and release in the same frame: release wins
    a.update(true, true, false);
    assert!(!a.0);
}

#[test]
fn asset_browser_starts_visible() {
    assert!(AssetBrowserUiState::default().visible);
}

#[test]
fn init_records_the_installing_player() {
    let mut db = PlayerTable::new();
    let sender = PlayerIdentity { hi: 0xABCD, lo: 0x1234 };
    init(&mut db, sender);
    assert_eq!(db.len(), 1);
    assert_eq!(db.row_at(0).identity, sender);
    assert_eq!(db.row_at(0).name, "Player");
}

#[test]
fn connection_reducers_record_nothing() {
    let mut db = PlayerTable::new();
    init(&mut db, PlayerIdentity { hi: 1, lo: 2 });
    identity_connected(&mut db);
    identity_disconnected(&mut db);
    assert_eq!(db.len(), 1);
}
