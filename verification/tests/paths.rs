use hyprfocus::errors::FocusError;
use hyprfocus::paths::{
    is_shader_file_name, join_path, select_shader_files, shader_dir_from, shader_file_name,
    state_path_from,
};

#[test]
fn state_path_uses_xdg() {
    let path = state_path_from(Some("/home/u/.local/state"), Some("/home/u"));
    assert!(path.ends_with("hypr-vogix/state.toml"));
}

#[test]
fn state_path_falls_back_on_home_then_tmp() {
    assert_eq!(
        state_path_from(Some("/xdg"), Some("/home/u")),
        "/xdg/hypr-vogix/state.toml"
    );
    assert_eq!(
        state_path_from(None, Some("/home/u")),
        "/home/u/.local/state/hypr-vogix/state.toml"
    );
    assert_eq!(state_path_from(None, None), "/tmp/.local/state/hypr-vogix/state.toml");
    assert_eq!(
        state_path_from(Some("/xdg/"), None),
        "/xdg/hypr-vogix/state.toml"
    );
}

#[test]
fn join_adds_one_separator() {
    assert_eq!(join_path("/a", "b"), "/a/b");
    assert_eq!(join_path("/a/", "b"), "/a/b");
    assert_eq!(join_path("", "b"), "b");
}

#[test]
fn shader_dir_returns_path() {
    let dir = shader_dir_from(None, false, true).unwrap();
    assert!(dir.ends_with("/hyprfocus"));
}

#[test]
fn shader_dir_prefers_runtime_dir_and_falls_back_on_tmp() {
    assert_eq!(
        shader_dir_from(Some("/run/user/1000"), true, true).unwrap(),
        "/run/user/1000/hyprfocus"
    );
    assert_eq!(
        shader_dir_from(Some("/run/user/1000/"), true, false).unwrap(),
        "/run/user/1000/hyprfocus"
    );
    assert_eq!(shader_dir_from(Some("/missing"), false, true).unwrap(), "/tmp/hyprfocus");
    assert_eq!(shader_dir_from(None, false, true).unwrap(), "/tmp/hyprfocus");
    assert!(matches!(shader_dir_from(Some("/missing"), false, false), Err(FocusError::NoRuntimeDir)));
    assert!(matches!(shader_dir_from(None, false, false), Err(FocusError::NoRuntimeDir)));
}

#[test]
fn shader_file_names_are_recognised_by_cleanup() {
    let name = shader_file_name("military", "80", "100", "150");
    assert_eq!(name, "hyprfocus-military-i80-b100-s150.glsl");
    assert!(is_shader_file_name(&name));
}

#[test]
fn cleanup_selects_only_shader_files() {
    assert!(is_shader_file_name("hyprfocus-.glsl"));
    assert!(!is_shader_file_name("hyprfocus-x.glsl.bak"));
    assert!(!is_shader_file_name("other-x.glsl"));
    assert!(!is_shader_file_name("hyprfocus.glsl"));
    let names = vec![
        Some("hyprfocus-amber-i100-b100-s100.glsl".to_string()),
        Some("notes.txt".to_string()),
        None,
        Some("hyprfocus-cyber-i50-b100-s100.glsl".to_string()),
        Some("hyprfocus-cyber".to_string()),
    ];
    assert_eq!(select_shader_files(&names), vec![0, 3]);
    assert!(select_shader_files(&Vec::new()).is_empty());
}
