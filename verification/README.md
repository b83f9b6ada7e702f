# hyprfocus

Monochromatic screen overlay for Hyprland: it writes a GLSL fragment shader
that maps every pixel's Rec. 709 luminance to a theme colour and applies it
with `hyprctl keyword decoration:screen_shader`.

## Layout

- `src/` — the verified library (Verus):
  - `flow.rs`: what a run does for its command line, as a state machine
    (`Runner`) that the program drives step by step, with its laws;
  - `themes.rs`: the built-in themes, lookup by name, the `--list` text;
  - `shader.rs`: the shader source, from its figures written out as text;
  - `paths.rs`: the state file path, the shader directory, shader file names
    and which directory entries cleanup removes;
  - `status.rs`: the `--status` report;
  - `errors.rs`: the errors and the text each one reads as;
  - `text.rs`: decimal numbers, padding and comparisons on strings.
- `app/` — the program: command-line parsing (clap), floating-point figures
  and theme colours, the state file (serde, toml), files, `hyprctl`.
- `tests/` — tests of the library.
