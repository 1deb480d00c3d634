use world_editor::asset_path::{is_absolute_path, is_valid_relative_asset_path, normalize_asset_path};

#[test]
fn accepts_plain_file_name() {
    assert!(is_valid_relative_asset_path("FlightHelmet.gltf"));
}

#[test]
fn accepts_nested_relative_path() {
    assert!(is_valid_relative_asset_path("models/FlightHelmet.gltf"));
    assert!(is_valid_relative_asset_path("images/branding/logo.png"));
}

#[test]
fn accepts_backslash_separated_relative_path() {
    assert!(is_valid_relative_asset_path("models\\alien.glb"));
}

#[test]
fn accepts_path_with_surrounding_whitespace() {
    // the validator checks the trimmed string
    assert!(is_valid_relative_asset_path("  models/a.glb  "));
}

#[test]
fn accepts_dots_inside_a_segment() {
    // `..` must be a whole segment to be a traversal
    assert!(is_valid_relative_asset_path("a..b/c.glb"));
    assert!(is_valid_relative_asset_path("archive.tar.gz"));
}

#[test]
fn rejects_empty_and_whitespace_only() {
    assert!(!is_valid_relative_asset_path(""));
    assert!(!is_valid_relative_asset_path("   "));
    assert!(!is_valid_relative_asset_path("\t\r\n"));
}

#[test]
fn rejects_unix_absolute_path() {
    assert!(!is_valid_relative_asset_path("/etc/passwd"));
    assert!(!is_valid_relative_asset_path("/"));
}

#[test]
fn rejects_windows_drive_letter() {
    assert!(!is_valid_relative_asset_path("C:\\evil.glb"));
    assert!(!is_valid_relative_asset_path("c:/evil.glb"));
    assert!(!is_valid_relative_asset_path("Z:stream"));
}

#[test]
fn rejects_unc_path() {
    assert!(!is_valid_relative_asset_path("\\\\server\\share\\a.glb"));
}

#[test]
fn rejects_traversal_segments() {
    assert!(!is_valid_relative_asset_path(".."));
    assert!(!is_valid_relative_asset_path("../../etc/passwd"));
    assert!(!is_valid_relative_asset_path("a/../b"));
    assert!(!is_valid_relative_asset_path("a\\..\\b"));
    assert!(!is_valid_relative_asset_path("a/.."));
}

#[test]
fn rejects_empty_segments() {
    assert!(!is_valid_relative_asset_path("foo//bar"));
    assert!(!is_valid_relative_asset_path("foo/"));
    assert!(!is_valid_relative_asset_path("\\foo"));
    assert!(!is_valid_relative_asset_path("foo\\"));
}

#[test]
fn normalize_rewrites_backslashes() {
    assert_eq!(normalize_asset_path("models\\alien.glb"), "models/alien.glb");
    assert_eq!(normalize_asset_path("a\\b\\c"), "a/b/c");
    assert_eq!(normalize_asset_path("models/a.glb"), "models/a.glb");
    assert_eq!(normalize_asset_path(""), "");
}

#[test]
fn absolute_path_shapes() {
    assert!(is_absolute_path("/opt/assets"));
    assert!(is_absolute_path("C:\\assets"));
    assert!(is_absolute_path("d:/assets"));
    assert!(is_absolute_path("\\\\server\\assets"));
    assert!(!is_absolute_path("assets"));
    assert!(!is_absolute_path("models/a.glb"));
    assert!(!is_absolute_path(""));
}
