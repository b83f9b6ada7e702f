use hyprfocus::shader::{render_shader, ShaderFigures};

fn figures(color: (f32, f32, f32), intensity: f32, brightness: f32) -> ShaderFigures {
    figures_inverted(color, intensity, brightness, false)
}

fn figures_inverted(
    color: (f32, f32, f32),
    intensity: f32,
    brightness: f32,
    invert: bool,
) -> ShaderFigures {
    ShaderFigures {
        red: format!("{:.4}", color.0),
        green: format!("{:.4}", color.1),
        blue: format!("{:.4}", color.2),
        intensity: format!("{:.4}", intensity),
        brightness: format!("{:.4}", brightness),
        invert,
    }
}

const GREEN: (f32, f32, f32) = (0.0, 1.0, 0.0);
const AMBER: (f32, f32, f32) = (1.0, 0.71, 0.0);

#[test]
fn generate_contains_version() {
    let src = render_shader(&figures(GREEN, 1.0, 1.0));
    assert!(src.starts_with("#version 300 es"));
}

#[test]
fn generate_contains_theme_color() {
    let src = render_shader(&figures(GREEN, 1.0, 1.0));
    assert!(src.contains("vec3(0.0000, 1.0000, 0.0000)"));
}

#[test]
fn generate_contains_intensity() {
    let src = render_shader(&figures(GREEN, 0.8, 1.0));
    assert!(src.contains("const float intensity = 0.8000;"));
}

#[test]
fn generate_full_intensity() {
    let src = render_shader(&figures(GREEN, 1.0, 1.0));
    assert!(src.contains("const float intensity = 1.0000;"));
}

#[test]
fn generate_zero_intensity() {
    let src = render_shader(&figures(GREEN, 0.0, 1.0));
    assert!(src.contains("const float intensity = 0.0000;"));
}

#[test]
fn generate_has_valid_glsl_structure() {
    let src = render_shader(&figures(GREEN, 1.0, 1.0));
    assert!(src.contains("void main()"));
    assert!(src.contains("fragColor ="));
    assert!(src.contains("texture(tex, v_texcoord)"));
    assert!(src.contains("luminance"));
}

#[test]
fn generate_brightness_default() {
    let src = render_shader(&figures(GREEN, 1.0, 1.0));
    assert!(src.contains("const float brightness = 1.0000;"));
}

#[test]
fn generate_brightness_dim() {
    let src = render_shader(&figures(GREEN, 1.0, 0.5));
    assert!(src.contains("const float brightness = 0.5000;"));
}

#[test]
fn generate_brightness_boost() {
    let src = render_shader(&figures(GREEN, 1.0, 1.8));
    assert!(src.contains("const float brightness = 1.8000;"));
}

#[test]
fn generate_amber_color() {
    let src = render_shader(&figures(AMBER, 1.0, 1.0));
    assert!(src.contains("vec3(1.0000, 0.7100, 0.0000)"));
}

#[test]
fn shader_source_in_full() {
    let src = render_shader(&figures(AMBER, 0.5, 1.2));
    let expected = "#version 300 es
precision highp float;

in vec2 v_texcoord;
uniform sampler2D tex;
out vec4 fragColor;

// Hyprfocus monochromatic shader
const vec3 themeColor = vec3(1.0000, 0.7100, 0.0000);
const float intensity = 0.5000;
const float brightness = 1.2000;

void main() {
    vec4 pixColor = texture(tex, v_texcoord);

    // Rec. 709 luminance
    float luminance = dot(pixColor.rgb, vec3(0.2126, 0.7152, 0.0722));

    // Luminance mapped to theme color, scaled by brightness
    vec3 mono = luminance * themeColor * brightness;

    // Blend original and monochromatic
    vec3 result = mix(pixColor.rgb, mono, intensity);

    fragColor = vec4(result, pixColor.a);
}
";
    assert_eq!(src, expected);
}

#[test]
fn shader_uses_rec709_luminance() {
    let src = render_shader(&figures(GREEN, 1.0, 1.0));
    assert!(src.contains("float luminance = dot(pixColor.rgb, vec3(0.2126, 0.7152, 0.0722));"));
}

#[test]
fn shader_blends_and_keeps_alpha() {
    let src = render_shader(&figures(AMBER, 0.3, 1.0));
    assert!(src.contains("vec3 mono = luminance * themeColor * brightness;"));
    assert!(src.contains("vec3 result = mix(pixColor.rgb, mono, intensity);"));
    assert!(src.contains("fragColor = vec4(result, pixColor.a);"));
}

#[test]
fn inverted_shader_maps_dark_to_the_theme_colour() {
    let src = render_shader(&figures_inverted(GREEN, 1.0, 1.0, true));
    assert!(src.contains("vec3 mono = (1.0 - luminance) * themeColor * brightness;"));
    assert!(!src.contains("vec3 mono = luminance * themeColor"));
    let plain = render_shader(&figures(GREEN, 1.0, 1.0));
    assert!(!plain.contains("(1.0 - luminance)"));
    assert_eq!(
        src.replace("(1.0 - luminance)", "luminance"),
        plain
    );
}
