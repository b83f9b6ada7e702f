//! The GLSL fragment shader that maps every pixel's luminance to the theme
//! colour and blends it with the original.

use vstd::prelude::*;
use crate::text::{has_prefix, occurs_in};

verus! {

/// The first line of every shader.
pub const VERSION_LINE: &'static str = "#version 300 es";

/// The declarations between the version line and the constants.
pub const DECLARATIONS: &'static str = "\nprecision highp float;\n\nin vec2 v_texcoord;\nuniform sampler2D tex;\nout vec4 fragColor;\n\n// Hyprfocus monochromatic shader\n";

/// The start of the line that declares the theme colour.
pub const COLOR_LEAD: &'static str = "const vec3 themeColor = ";

/// The start of the line that declares the blend intensity.
pub const INTENSITY_LEAD: &'static str = "const float intensity = ";

/// The start of the line that declares the brightness.
pub const BRIGHTNESS_LEAD: &'static str = "const float brightness = ";

/// The opening of `main`, up to the luminance line.
pub const MAIN_OPENING: &'static str = "\nvoid main() {\n    vec4 pixColor = texture(tex, v_texcoord);\n\n    // Rec. 709 luminance\n";

/// The Rec. 709 weight of red in luminance.
pub const LUMA_RED: &'static str = "0.2126";

/// The Rec. 709 weight of green in luminance.
pub const LUMA_GREEN: &'static str = "0.7152";

/// The Rec. 709 weight of blue in luminance.
pub const LUMA_BLUE: &'static str = "0.0722";

/// The start of the line that computes the luminance.
pub const LUMINANCE_LEAD: &'static str = "    float luminance = dot(pixColor.rgb, ";

/// The comment before the line that maps luminance to the theme colour.
pub const MONO_COMMENT: &'static str = "\n    // Luminance mapped to theme color, scaled by brightness\n";

/// The line that maps luminance to the theme colour: dark stays dark.
pub const MONO_LINE: &'static str = "    vec3 mono = luminance * themeColor * brightness;\n";

/// The line that maps inverted luminance to the theme colour: dark becomes
/// the theme colour, light becomes dark.
pub const INVERTED_MONO_LINE: &'static str = "    vec3 mono = (1.0 - luminance) * themeColor * brightness;\n";

/// The comment before the blend.
pub const BLEND_COMMENT: &'static str = "\n    // Blend original and monochromatic\n";

/// The line that blends the original colour with the monochromatic one by
/// the intensity.
pub const BLEND_LINE: &'static str = "    vec3 result = mix(pixColor.rgb, mono, intensity);\n";

/// The line that writes the blended colour, keeping the pixel's alpha.
pub const OUTPUT_LINE: &'static str = "\n    fragColor = vec4(result, pixColor.a);\n";

/// The end of `main`.
pub const MAIN_END: &'static str = "}\n";

/// The figures a shader is made from: the theme colour, the intensity and the
/// brightness, each already written out as text (the caller formats them to
/// four decimals), and whether luminance is inverted.
pub struct ShaderFigures {
    pub red: String,
    pub green: String,
    pub blue: String,
    pub intensity: String,
    pub brightness: String,
    pub invert: bool,
}

/// `vec3(x, y, z)` with the three components as given.
pub open spec fn vec3_text(x: Seq<char>, y: Seq<char>, z: Seq<char>) -> Seq<char> {
    "vec3("@ + x + ", "@ + y + ", "@ + z + ")"@
}

/// The line that declares the theme colour.
pub open spec fn color_line(f: ShaderFigures) -> Seq<char> {
    COLOR_LEAD@ + vec3_text(f.red@, f.green@, f.blue@) + ";\n"@
}

/// The line that declares the blend intensity.
pub open spec fn intensity_line(f: ShaderFigures) -> Seq<char> {
    INTENSITY_LEAD@ + f.intensity@ + ";\n"@
}

/// The line that declares the brightness.
pub open spec fn brightness_line(f: ShaderFigures) -> Seq<char> {
    BRIGHTNESS_LEAD@ + f.brightness@ + ";\n"@
}

/// The Rec. 709 luminance weights, as a `vec3`.
pub open spec fn rec709_weights() -> Seq<char> {
    vec3_text(LUMA_RED@, LUMA_GREEN@, LUMA_BLUE@)
}

/// The line that computes a pixel's luminance with the Rec. 709 weights.
pub open spec fn luminance_line() -> Seq<char> {
    LUMINANCE_LEAD@ + rec709_weights() + ");\n"@
}

/// The line that maps luminance to the theme colour: inverted luminance
/// when `invert` is set, luminance as it is otherwise.
pub open spec fn mono_line(f: ShaderFigures) -> Seq<char> {
    if f.invert {
        INVERTED_MONO_LINE@
    } else {
        MONO_LINE@
    }
}

/// The whole shader source for the given figures.
pub open spec fn shader_source(f: ShaderFigures) -> Seq<char> {
    VERSION_LINE@ + DECLARATIONS@ + color_line(f) + intensity_line(f) + brightness_line(f)
        + MAIN_OPENING@ + luminance_line() + MONO_COMMENT@ + mono_line(f) + BLEND_COMMENT@
        + BLEND_LINE@ + OUTPUT_LINE@ + MAIN_END@
}

fn push_vec3(out: &mut String, x: &str, y: &str, z: &str)
    ensures
        final(out)@ == old(out)@ + vec3_text(x@, y@, z@),
{
    let ghost start = out@;
    out.append("vec3(");
    out.append(x);
    out.append(", ");
    out.append(y);
    out.append(", ");
    out.append(z);
    out.append(")");
    assert(out@ =~= start + vec3_text(x@, y@, z@));
}

/// Returns the shader source for the given figures.
pub fn render_shader(f: &ShaderFigures) -> (r: String)
    ensures
        r@ == shader_source(*f),
{
    let mut out = String::from_str(VERSION_LINE);
    out.append(DECLARATIONS);
    out.append(COLOR_LEAD);
    push_vec3(&mut out, f.red.as_str(), f.green.as_str(), f.blue.as_str());
    out.append(";\n");
    out.append(INTENSITY_LEAD);
    out.append(f.intensity.as_str());
    out.append(";\n");
    out.append(BRIGHTNESS_LEAD);
    out.append(f.brightness.as_str());
    out.append(";\n");
    out.append(MAIN_OPENING);
    out.append(LUMINANCE_LEAD);
    push_vec3(&mut out, LUMA_RED, LUMA_GREEN, LUMA_BLUE);
    out.append(");\n");
    out.append(MONO_COMMENT);
    if f.invert {
        out.append(INVERTED_MONO_LINE);
    } else {
        out.append(MONO_LINE);
    }
    out.append(BLEND_COMMENT);
    out.append(BLEND_LINE);
    out.append(OUTPUT_LINE);
    out.append(MAIN_END);
    proof {
        assert(out@ =~= shader_source(*f));
    }
    out
}

proof fn occurs_between(a: Seq<char>, t: Seq<char>, b: Seq<char>)
    ensures
        occurs_in(t, a + t + b),
{
    assert((a + t + b).subrange(a.len() as int, (a.len() + t.len()) as int) =~= t);
}

/// Every shader begins with its version line.
pub proof fn shader_begins_with_its_version(f: ShaderFigures)
    ensures
        has_prefix(shader_source(f), "#version 300 es"@),
{
    let s = shader_source(f);
    let rest = DECLARATIONS@ + color_line(f) + intensity_line(f) + brightness_line(f) + MAIN_OPENING@
        + luminance_line() + MONO_COMMENT@ + mono_line(f) + BLEND_COMMENT@ + BLEND_LINE@
        + OUTPUT_LINE@ + MAIN_END@;
    assert(s =~= VERSION_LINE@ + rest);
    assert(s.subrange(0, VERSION_LINE@.len() as int) =~= VERSION_LINE@);
}

proof fn color_line_occurs(f: ShaderFigures)
    ensures
        occurs_in(color_line(f), shader_source(f)),
        occurs_in(vec3_text(f.red@, f.green@, f.blue@), shader_source(f)),
{
    let a = VERSION_LINE@ + DECLARATIONS@;
    let c = color_line(f);
    let after = intensity_line(f) + brightness_line(f) + MAIN_OPENING@ + luminance_line()
        + MONO_COMMENT@ + mono_line(f) + BLEND_COMMENT@ + BLEND_LINE@ + OUTPUT_LINE@ + MAIN_END@;
    assert(shader_source(f) =~= a + c + after);
    occurs_between(a, c, after);
    let v = vec3_text(f.red@, f.green@, f.blue@);
    assert(shader_source(f) =~= (a + COLOR_LEAD@) + v + (";\n"@ + after));
    occurs_between(a + COLOR_LEAD@, v, ";\n"@ + after);
}

proof fn intensity_line_occurs(f: ShaderFigures)
    ensures
        occurs_in(intensity_line(f), shader_source(f)),
{
    let a = VERSION_LINE@ + DECLARATIONS@ + color_line(f);
    let after = brightness_line(f) + MAIN_OPENING@ + luminance_line() + MONO_COMMENT@ + mono_line(f)
        + BLEND_COMMENT@ + BLEND_LINE@ + OUTPUT_LINE@ + MAIN_END@;
    assert(shader_source(f) =~= a + intensity_line(f) + after);
    occurs_between(a, intensity_line(f), after);
}

proof fn brightness_line_occurs(f: ShaderFigures)
    ensures
        occurs_in(brightness_line(f), shader_source(f)),
{
    let a = VERSION_LINE@ + DECLARATIONS@ + color_line(f) + intensity_line(f);
    let after = MAIN_OPENING@ + luminance_line() + MONO_COMMENT@ + mono_line(f) + BLEND_COMMENT@
        + BLEND_LINE@ + OUTPUT_LINE@ + MAIN_END@;
    assert(shader_source(f) =~= a + brightness_line(f) + after);
    occurs_between(a, brightness_line(f), after);
}

/// Every shader declares the theme colour, the intensity and the brightness
/// it was made with, each on a line of its own.
pub proof fn shader_declares_its_figures(f: ShaderFigures)
    ensures
        occurs_in(
            "const vec3 themeColor = "@ + "vec3("@ + f.red@ + ", "@ + f.green@ + ", "@ + f.blue@
                + ")"@ + ";\n"@,
            shader_source(f),
        ),
        occurs_in("vec3("@ + f.red@ + ", "@ + f.green@ + ", "@ + f.blue@ + ")"@, shader_source(f)),
        occurs_in("const float intensity = "@ + f.intensity@ + ";\n"@, shader_source(f)),
        occurs_in("const float brightness = "@ + f.brightness@ + ";\n"@, shader_source(f)),
        has_prefix(shader_source(f), "#version 300 es"@),
        occurs_in(luminance_line(), shader_source(f)),
        occurs_in(rec709_weights(), shader_source(f)),
        occurs_in(mono_line(f), shader_source(f)),
        occurs_in(BLEND_LINE@, shader_source(f)),
        occurs_in(OUTPUT_LINE@, shader_source(f)),
{
    shader_begins_with_its_version(f);
    luminance_line_occurs(f);
    mono_line_occurs(f);
    blend_and_output_occur(f);
    color_line_occurs(f);
    intensity_line_occurs(f);
    brightness_line_occurs(f);
    assert(color_line(f) =~= "const vec3 themeColor = "@ + "vec3("@ + f.red@ + ", "@ + f.green@
        + ", "@ + f.blue@ + ")"@ + ";\n"@);
    assert(vec3_text(f.red@, f.green@, f.blue@) =~= "vec3("@ + f.red@ + ", "@ + f.green@ + ", "@
        + f.blue@ + ")"@);
}

proof fn luminance_line_occurs(f: ShaderFigures)
    ensures
        occurs_in(luminance_line(), shader_source(f)),
        occurs_in(rec709_weights(), shader_source(f)),
{
    let h = VERSION_LINE@ + DECLARATIONS@ + color_line(f) + intensity_line(f) + brightness_line(f)
        + MAIN_OPENING@;
    let after = MONO_COMMENT@ + mono_line(f) + BLEND_COMMENT@ + BLEND_LINE@ + OUTPUT_LINE@
        + MAIN_END@;
    assert(shader_source(f) =~= h + luminance_line() + after);
    occurs_between(h, luminance_line(), after);
    assert(shader_source(f) =~= (h + LUMINANCE_LEAD@) + rec709_weights() + (");\n"@ + after));
    occurs_between(h + LUMINANCE_LEAD@, rec709_weights(), ");\n"@ + after);
}

proof fn mono_line_occurs(f: ShaderFigures)
    ensures
        occurs_in(mono_line(f), shader_source(f)),
{
    let h = VERSION_LINE@ + DECLARATIONS@ + color_line(f) + intensity_line(f) + brightness_line(f)
        + MAIN_OPENING@ + luminance_line() + MONO_COMMENT@;
    let after = BLEND_COMMENT@ + BLEND_LINE@ + OUTPUT_LINE@ + MAIN_END@;
    assert(shader_source(f) =~= h + mono_line(f) + after);
    occurs_between(h, mono_line(f), after);
}

proof fn blend_and_output_occur(f: ShaderFigures)
    ensures
        occurs_in(BLEND_LINE@, shader_source(f)),
        occurs_in(OUTPUT_LINE@, shader_source(f)),
{
    let h = VERSION_LINE@ + DECLARATIONS@ + color_line(f) + intensity_line(f) + brightness_line(f)
        + MAIN_OPENING@ + luminance_line() + MONO_COMMENT@ + mono_line(f) + BLEND_COMMENT@;
    assert(shader_source(f) =~= h + BLEND_LINE@ + (OUTPUT_LINE@ + MAIN_END@));
    occurs_between(h, BLEND_LINE@, OUTPUT_LINE@ + MAIN_END@);
    assert(shader_source(f) =~= (h + BLEND_LINE@) + OUTPUT_LINE@ + MAIN_END@);
    occurs_between(h + BLEND_LINE@, OUTPUT_LINE@, MAIN_END@);
}

/// Every shader weighs luminance with the Rec. 709 coefficients 0.2126,
/// 0.7152 and 0.0722; maps luminance (inverted when asked: dark becomes the
/// theme colour, light becomes dark) to the theme colour scaled by the
/// brightness; blends that with the original by the intensity; and keeps
/// each pixel's alpha.
pub proof fn shader_maps_luminance(f: ShaderFigures)
    ensures
        occurs_in(
            "    float luminance = dot(pixColor.rgb, "@ + "vec3("@ + "0.2126"@ + ", "@ + "0.7152"@
                + ", "@ + "0.0722"@ + ")"@ + ");\n"@,
            shader_source(f),
        ),
        occurs_in("vec3("@ + "0.2126"@ + ", "@ + "0.7152"@ + ", "@ + "0.0722"@ + ")"@, shader_source(f)),
        f.invert ==> occurs_in(
            "    vec3 mono = (1.0 - luminance) * themeColor * brightness;\n"@,
            shader_source(f),
        ),
        !f.invert ==> occurs_in(
            "    vec3 mono = luminance * themeColor * brightness;\n"@,
            shader_source(f),
        ),
        occurs_in("    vec3 result = mix(pixColor.rgb, mono, intensity);\n"@, shader_source(f)),
        occurs_in("\n    fragColor = vec4(result, pixColor.a);\n"@, shader_source(f)),
{
    luminance_line_occurs(f);
    mono_line_occurs(f);
    blend_and_output_occur(f);
    assert(luminance_line() =~= "    float luminance = dot(pixColor.rgb, "@ + "vec3("@ + "0.2126"@
        + ", "@ + "0.7152"@ + ", "@ + "0.0722"@ + ")"@ + ");\n"@);
    assert(rec709_weights() =~= "vec3("@ + "0.2126"@ + ", "@ + "0.7152"@ + ", "@ + "0.0722"@
        + ")"@);
}

} // verus!
