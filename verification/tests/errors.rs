use hyprfocus::errors::FocusError;

#[test]
fn error_display_messages() {
    let err = FocusError::HyprctlNotFound;
    assert!(err.message().contains("hyprctl not found"));

    let err = FocusError::HyprlandNotRunning;
    assert!(err.message().contains("HYPRLAND_INSTANCE_SIGNATURE"));

    let err = FocusError::UnknownTheme("foo".into());
    assert!(err.message().contains("foo"));

    let err = FocusError::HyprctlFailed {
        code: 1,
        detail: "bad".into(),
    };
    assert!(err.message().contains("exit code 1"));
}

#[test]
fn every_error_reads_in_full() {
    assert_eq!(
        FocusError::HyprctlNotFound.message(),
        "hyprctl not found in PATH -- is Hyprland installed?"
    );
    assert_eq!(
        FocusError::HyprlandNotRunning.message(),
        "Hyprland is not running (HYPRLAND_INSTANCE_SIGNATURE not set)"
    );
    assert_eq!(
        FocusError::HyprctlFailed { code: -12, detail: "no socket".into() }.message(),
        "hyprctl failed with exit code -12: no socket"
    );
    assert_eq!(
        FocusError::HyprctlFailed { code: i32::MIN, detail: "x".into() }.message(),
        "hyprctl failed with exit code -2147483648: x"
    );
    assert_eq!(
        FocusError::HyprctlFailed { code: 0, detail: String::new() }.message(),
        "hyprctl failed with exit code 0: "
    );
    assert_eq!(
        FocusError::UnknownTheme("neon".into()).message(),
        "unknown theme 'neon' -- use --list to see available themes"
    );
    assert_eq!(
        FocusError::ShaderWriteFailed { path: "/tmp/hyprfocus".into(), source: "denied".into() }
            .message(),
        "failed to write shader to /tmp/hyprfocus: denied"
    );
    assert_eq!(
        FocusError::ShaderRemoveFailed { path: "/a.glsl".into(), source: "busy".into() }.message(),
        "failed to remove shader /a.glsl: busy"
    );
    assert_eq!(
        FocusError::StateWriteFailed { path: "/s.toml".into(), source: "full".into() }.message(),
        "failed to write state to /s.toml: full"
    );
    assert_eq!(
        FocusError::StateReadFailed { path: "/s.toml".into(), source: "bad toml".into() }
            .message(),
        "failed to read state from /s.toml: bad toml"
    );
    assert_eq!(
        FocusError::NoRuntimeDir.message(),
        "no runtime directory available (XDG_RUNTIME_DIR not set, /tmp fallback failed)"
    );
}
