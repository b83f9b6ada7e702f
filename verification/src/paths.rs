//! Where hyprfocus keeps its files: the shader directory, the shader file
//! names, and the state file.

use vstd::prelude::*;
use crate::errors::FocusError;
use crate::text::{ends_with, has_prefix, has_suffix, starts_with};

verus! {

/// `base` with the relative component `rel` appended, as `Path::join` lays it
/// out on Unix: a `/` goes between the two unless `base` is empty or already
/// ends with one.
pub open spec fn joined(base: Seq<char>, rel: Seq<char>) -> Seq<char> {
    if base.len() == 0 || base.last() == '/' {
        base + rel
    } else {
        base + seq!['/'] + rel
    }
}

/// Appends the relative component `rel` to the path `base`.
pub fn join_path(base: &str, rel: &str) -> (r: String)
    ensures
        r@ == joined(base@, rel@),
{
    let mut out = String::from_str(base);
    let n = base.unicode_len();
    if n > 0 && base.get_char(n - 1) != '/' {
        proof { reveal_strlit("/"); }
        out.append("/");
    }
    out.append(rel);
    out
}

/// The directory under which the state file lives: `$XDG_STATE_HOME` when it
/// is set, else `$HOME/.local/state`, else `/tmp/.local/state`.
pub open spec fn state_base(xdg_state_home: Option<Seq<char>>, home: Option<Seq<char>>) -> Seq<char> {
    match xdg_state_home {
        Some(x) => x,
        None => match home {
            Some(h) => joined(h, ".local/state"@),
            None => joined("/tmp"@, ".local/state"@),
        },
    }
}

/// The state file path, given the values of `XDG_STATE_HOME` and `HOME`
/// (`None` where the variable is unset or not valid Unicode).
pub open spec fn state_file(xdg_state_home: Option<Seq<char>>, home: Option<Seq<char>>) -> Seq<char> {
    joined(state_base(xdg_state_home, home), "hypr-vogix/state.toml"@)
}

/// The view of an optional string.
pub open spec fn opt_view(o: Option<&str>) -> Option<Seq<char>> {
    match o {
        Some(s) => Some(s@),
        None => None,
    }
}

/// Returns the state file path: `$XDG_STATE_HOME/hypr-vogix/state.toml`,
/// falling back to `$HOME/.local/state/hypr-vogix/state.toml` and then to
/// `/tmp/.local/state/hypr-vogix/state.toml`.
pub fn state_path_from(xdg_state_home: Option<&str>, home: Option<&str>) -> (r: String)
    ensures
        r@ == state_file(opt_view(xdg_state_home), opt_view(home)),
{
    let base = match xdg_state_home {
        Some(x) => String::from_str(x),
        None => match home {
            Some(h) => join_path(h, ".local/state"),
            None => join_path("/tmp", ".local/state"),
        },
    };
    join_path(base.as_str(), "hypr-vogix/state.toml")
}

/// The shader directory, given the value of `XDG_RUNTIME_DIR` and whether
/// that directory and `/tmp` exist: `$XDG_RUNTIME_DIR/hyprfocus` when the
/// variable names an existing directory, else `/tmp/hyprfocus` when `/tmp`
/// exists, else no directory at all.
pub open spec fn shader_dir_choice(
    xdg_runtime_dir: Option<Seq<char>>,
    xdg_exists: bool,
    tmp_exists: bool,
) -> Option<Seq<char>> {
    if xdg_runtime_dir is Some && xdg_exists {
        Some(joined(xdg_runtime_dir.unwrap(), "hyprfocus"@))
    } else if tmp_exists {
        Some(joined("/tmp"@, "hyprfocus"@))
    } else {
        None
    }
}

/// Returns the shader directory: `$XDG_RUNTIME_DIR/hyprfocus` when the
/// variable is set and names an existing directory, falling back to
/// `/tmp/hyprfocus`, and `NoRuntimeDir` when `/tmp` does not exist either.
/// `xdg_exists` tells whether the directory the variable names exists, and
/// `tmp_exists` whether `/tmp` does.
pub fn shader_dir_from(xdg_runtime_dir: Option<&str>, xdg_exists: bool, tmp_exists: bool) -> (r:
    Result<String, FocusError>)
    ensures
        shader_dir_choice(opt_view(xdg_runtime_dir), xdg_exists, tmp_exists) matches Some(d) ==> (
        r matches Ok(p) && p@ == d),
        shader_dir_choice(opt_view(xdg_runtime_dir), xdg_exists, tmp_exists) is None ==> r == Err::<
            String,
            FocusError,
        >(FocusError::NoRuntimeDir),
{
    match xdg_runtime_dir {
        Some(x) => {
            if xdg_exists {
                return shader_dir_in(x, true);
            }
        },
        None => {},
    }
    shader_dir_in("/tmp", tmp_exists)
}

/// Returns the shader directory `<base>/hyprfocus`, or `NoRuntimeDir` when
/// `base` does not exist.
fn shader_dir_in(base: &str, base_exists: bool) -> (r: Result<String, FocusError>)
    ensures
        base_exists ==> (r matches Ok(d) && d@ == joined(base@, "hyprfocus"@)),
        !base_exists ==> r == Err::<String, FocusError>(FocusError::NoRuntimeDir),
{
    if !base_exists {
        return Err(FocusError::NoRuntimeDir);
    }
    Ok(join_path(base, "hyprfocus"))
}

/// The file name of a shader, from the theme's name and the intensity,
/// brightness and saturation as whole percentages, written out.
pub open spec fn shader_file(
    theme: Seq<char>,
    intensity: Seq<char>,
    brightness: Seq<char>,
    saturation: Seq<char>,
) -> Seq<char> {
    "hyprfocus-"@ + theme + "-i"@ + intensity + "-b"@ + brightness + "-s"@ + saturation
        + ".glsl"@
}

/// Returns the file name `hyprfocus-<theme>-i<intensity>-b<brightness>-s<saturation>.glsl`.
pub fn shader_file_name(theme: &str, intensity: &str, brightness: &str, saturation: &str) -> (r:
    String)
    ensures
        r@ == shader_file(theme@, intensity@, brightness@, saturation@),
{
    let mut out = String::from_str("hyprfocus-");
    out.append(theme);
    out.append("-i");
    out.append(intensity);
    out.append("-b");
    out.append(brightness);
    out.append("-s");
    out.append(saturation);
    out.append(".glsl");
    out
}

/// Whether a file name is one of hyprfocus's shader files.
pub open spec fn is_shader_file(name: Seq<char>) -> bool {
    has_prefix(name, "hyprfocus-"@) && has_suffix(name, ".glsl"@)
}

/// Returns whether `name` is the name of one of hyprfocus's shader files:
/// it begins with `hyprfocus-` and ends with `.glsl`.
pub fn is_shader_file_name(name: &str) -> (r: bool)
    ensures
        r == is_shader_file(name@),
{
    starts_with(name, "hyprfocus-") && ends_with(name, ".glsl")
}

/// The positions, in order, of the entries whose name is a shader file's name.
/// An entry without a name (one that is not valid Unicode) is never chosen.
pub open spec fn shader_entries(names: Seq<Option<String>>) -> Seq<int>
    decreases names.len(),
{
    if names.len() == 0 {
        Seq::empty()
    } else {
        let rest = shader_entries(names.drop_last());
        match names.last() {
            Some(n) => if is_shader_file(n@) { rest.push(names.len() - 1) } else { rest },
            None => rest,
        }
    }
}

/// Returns the positions, in order, of the directory entries that cleanup
/// removes: those whose name is a shader file's name.
pub fn select_shader_files(names: &Vec<Option<String>>) -> (r: Vec<usize>)
    ensures
        r@.len() == shader_entries(names@).len(),
        forall|k: int| 0 <= k < r@.len() ==> r@[k] as int == #[trigger] shader_entries(names@)[k],
{
    let mut out: Vec<usize> = Vec::new();
    let mut i: usize = 0;
    while i < names.len()
        invariant
            i <= names@.len(),
            out@.len() == shader_entries(names@.subrange(0, i as int)).len(),
            forall|k: int|
                0 <= k < out@.len() ==> out@[k] as int == #[trigger] shader_entries(
                    names@.subrange(0, i as int),
                )[k],
        decreases names.len() - i,
    {
        let ghost before = names@.subrange(0, i as int);
        let ghost after = names@.subrange(0, i + 1);
        assert(after.drop_last() =~= before);
        assert(after.last() == names@[i as int]);
        match &names[i] {
            Some(n) => {
                if is_shader_file_name(n.as_str()) {
                    out.push(i);
                }
            },
            None => {},
        }
        i = i + 1;
    }
    assert(names@.subrange(0, names@.len() as int) =~= names@);
    out
}

/// A shader file name is always recognised as one by the cleanup that
/// removes shader files, whatever the theme and the figures in it.
pub proof fn written_shaders_are_cleaned_up(
    theme: Seq<char>,
    intensity: Seq<char>,
    brightness: Seq<char>,
    saturation: Seq<char>,
)
    ensures
        is_shader_file(shader_file(theme, intensity, brightness, saturation)),
{
    let name = shader_file(theme, intensity, brightness, saturation);
    let head = "hyprfocus-"@;
    let tail = ".glsl"@;
    let middle = theme + "-i"@ + intensity + "-b"@ + brightness + "-s"@ + saturation;
    assert(name =~= head + middle + tail);
    assert((head + middle + tail).subrange(0, head.len() as int) =~= head);
    assert((head + middle + tail).subrange(
        (head + middle + tail).len() - tail.len(),
        (head + middle + tail).len() as int,
    ) =~= tail);
}

/// The shader directory is always named `hyprfocus`: its path ends with
/// `/hyprfocus` whatever the base it lies in, provided the base is not empty.
pub proof fn shader_dir_ends_with_name(base: Seq<char>)
    requires
        base.len() > 0,
    ensures
        has_suffix(joined(base, "hyprfocus"@), "/hyprfocus"@),
{
    reveal_strlit("hyprfocus");
    reveal_strlit("/hyprfocus");
    let d = joined(base, "hyprfocus"@);
    if base.last() == '/' {
        assert(d.subrange(d.len() - 10, d.len() as int) =~= "/hyprfocus"@);
    } else {
        assert(d.subrange(d.len() - 10, d.len() as int) =~= "/hyprfocus"@);
    }
}

/// The state file is always `hypr-vogix/state.toml` under its base directory,
/// whichever of the environment variables supplied that base.
pub proof fn state_file_ends_with_name(xdg_state_home: Option<Seq<char>>, home: Option<Seq<char>>)
    ensures
        has_suffix(state_file(xdg_state_home, home), "hypr-vogix/state.toml"@),
{
    let base = state_base(xdg_state_home, home);
    let tail = "hypr-vogix/state.toml"@;
    let p = state_file(xdg_state_home, home);
    assert(p.subrange(p.len() - tail.len(), p.len() as int) =~= tail);
}

/// The state file lies under `$XDG_STATE_HOME` when that is set, else under
/// `$HOME/.local/state`, else under `/tmp/.local/state`.
pub proof fn state_file_prefers_xdg_then_home(x: Seq<char>, h: Seq<char>)
    ensures
        state_file(Some(x), Some(h)) == joined(x, "hypr-vogix/state.toml"@),
        state_file(Some(x), None) == joined(x, "hypr-vogix/state.toml"@),
        state_file(None, Some(h)) == joined(joined(h, ".local/state"@), "hypr-vogix/state.toml"@),
        state_file(None, None) == "/tmp/.local/state/hypr-vogix/state.toml"@,
{
    reveal_strlit("/tmp");
    reveal_strlit(".local/state");
    reveal_strlit("hypr-vogix/state.toml");
    reveal_strlit("/tmp/.local/state/hypr-vogix/state.toml");
    assert(joined("/tmp"@, ".local/state"@) =~= "/tmp/.local/state"@) by {
        reveal_strlit("/tmp/.local/state");
    }
    assert(state_file(None, None) =~= "/tmp/.local/state/hypr-vogix/state.toml"@);
}

/// The shader directory is `hyprfocus` inside `$XDG_RUNTIME_DIR` when that
/// names an existing directory, else `/tmp/hyprfocus` when `/tmp` exists, and
/// there is none otherwise.
pub proof fn shader_dir_prefers_runtime_dir(x: Seq<char>, x_exists: bool, tmp_exists: bool)
    ensures
        x_exists ==> (shader_dir_choice(Some(x), x_exists, tmp_exists) matches Some(d)
            && has_prefix(d, x) && (x.len() > 0 ==> has_suffix(d, "/hyprfocus"@))),
        !x_exists && tmp_exists ==> shader_dir_choice(Some(x), x_exists, tmp_exists) == Some(
            "/tmp/hyprfocus"@,
        ),
        tmp_exists ==> shader_dir_choice(None, x_exists, tmp_exists) == Some("/tmp/hyprfocus"@),
        !tmp_exists ==> shader_dir_choice(None, x_exists, tmp_exists) is None,
        !x_exists && !tmp_exists ==> shader_dir_choice(Some(x), x_exists, tmp_exists) is None,
{
    reveal_strlit("/tmp");
    reveal_strlit("hyprfocus");
    reveal_strlit("/tmp/hyprfocus");
    assert(joined("/tmp"@, "hyprfocus"@) =~= "/tmp/hyprfocus"@);
    if x_exists {
        let d = joined(x, "hyprfocus"@);
        assert(d.subrange(0, x.len() as int) =~= x);
        if x.len() > 0 {
            shader_dir_ends_with_name(x);
        }
    }
}

/// Cleanup chooses each directory entry whose name is a shader file's name,
/// once, in the order of the entries, and no other entry.
pub proof fn cleanup_chooses_exactly_the_shader_files(names: Seq<Option<String>>)
    ensures
        forall|k: int|
            0 <= k < shader_entries(names).len() ==> 0 <= #[trigger] shader_entries(names)[k]
                < names.len(),
        forall|k: int|
            0 <= k < shader_entries(names).len() ==> (names[#[trigger] shader_entries(names)[k]]
                matches Some(n) && is_shader_file(n@)),
        forall|i: int|
            0 <= i < names.len() && (#[trigger] names[i] matches Some(n) && is_shader_file(n@))
                ==> shader_entries(names).contains(i),
        forall|j: int, k: int|
            0 <= j < k < shader_entries(names).len() ==> #[trigger] shader_entries(names)[j]
                < #[trigger] shader_entries(names)[k],
    decreases names.len(),
{
    if names.len() > 0 {
        let init = names.drop_last();
        cleanup_chooses_exactly_the_shader_files(init);
        let e = shader_entries(names);
        let p = shader_entries(init);
        assert forall|i: int|
            0 <= i < names.len() && (#[trigger] names[i] matches Some(n) && is_shader_file(n@))
                implies e.contains(i) by {
            if i < names.len() - 1 {
                assert(init[i] == names[i]);
                let k = choose|k: int| 0 <= k < p.len() && p[k] == i;
                assert(e[k] == i);
            } else {
                assert(e[e.len() - 1] == i);
            }
        }
        assert forall|k: int| 0 <= k < e.len() implies (names[#[trigger] e[k]] matches Some(n)
            && is_shader_file(n@)) by {
            if k < p.len() {
                assert(e[k] == p[k]);
                assert(init[p[k]] == names[p[k]]);
            }
        }
    }
}

} // verus!
