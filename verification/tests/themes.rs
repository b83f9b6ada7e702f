use hyprfocus::status::{status_text, StatusFigures};
use hyprfocus::themes::{builtin_themes, find_theme, find_theme_index, theme_at, themes_listing};

#[test]
fn every_theme_is_found_by_its_name() {
    let themes = builtin_themes();
    assert_eq!(themes.len(), 14);
    for (i, t) in themes.iter().enumerate() {
        assert_eq!(find_theme_index(t.name), Some(i));
        assert_eq!(find_theme(t.name).unwrap().name, t.name);
        assert_eq!(theme_at(i).name, t.name);
    }
}

#[test]
fn unknown_names_are_not_themes() {
    assert!(find_theme("nonexistent").is_none());
    assert!(find_theme("").is_none());
    assert!(find_theme("Military").is_none());
    assert!(find_theme("militar").is_none());
}

#[test]
fn amber_band() {
    let t = find_theme("amber").unwrap();
    assert_eq!(t.wavelength_range, (598, 608));
    assert_eq!(t.description, "Classic P3 amber CRT");
}

#[test]
fn listing_lays_out_columns() {
    let text = themes_listing();
    assert!(text.starts_with("Available themes:\n\n"));
    assert!(text.contains("  military     530-560 nm     Night-vision, tactical\n"));
    assert!(text.contains("  white        380-700 nm     Classic P4 white CRT\n"));
    assert!(text.ends_with(
        "\nUsage: hypr-vogix --theme <NAME> [--opacity] [--brightness] [--saturation] [--invert ALGO]\n       hypr-vogix --restore --theme <NAME> [--opacity] [--brightness] [--saturation]\n"
    ));
    for t in builtin_themes() {
        assert!(text.contains(t.name));
    }
}

#[test]
fn status_report_for_saved_and_none() {
    let saved = Some(StatusFigures {
        theme: "cyber".into(),
        opacity: "0.5".into(),
        brightness: "1.0".into(),
        saturation: "1.2".into(),
        invert: false,
    });
    assert_eq!(
        status_text(&saved),
        "Active overlay:\n\n  theme:      cyber\n  opacity:    0.5\n  brightness: 1.0\n  saturation: 1.2\n"
    );
    let inverted = Some(StatusFigures {
        theme: "void".into(),
        opacity: "1.0".into(),
        brightness: "1.0".into(),
        saturation: "1.0".into(),
        invert: true,
    });
    assert!(status_text(&inverted).ends_with("  invert:     true\n"));
    assert_eq!(status_text(&None), "No active overlay.\n");
}
