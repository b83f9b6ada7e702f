//! The errors of hyprfocus and the text each one reads as.

use vstd::prelude::*;
use crate::text::{occurs_in, push_signed_decimal, signed_decimal};

verus! {

/// What can go wrong while applying, clearing or inspecting an overlay.
///
/// Paths are held as the text they display as, and the cause of a failed
/// file operation as the text of the underlying I/O error.
#[derive(Debug)]
pub enum FocusError {
    HyprctlNotFound,
    HyprlandNotRunning,
    HyprctlFailed { code: i32, detail: String },
    UnknownTheme(String),
    ShaderWriteFailed { path: String, source: String },
    ShaderRemoveFailed { path: String, source: String },
    StateWriteFailed { path: String, source: String },
    StateReadFailed { path: String, source: String },
    NoRuntimeDir,
}

/// A result whose error is a [`FocusError`].
pub type Result<T> = std::result::Result<T, FocusError>;

/// The message that each error reads as.
pub open spec fn error_text(e: FocusError) -> Seq<char> {
    match e {
        FocusError::HyprctlNotFound => "hyprctl not found in PATH -- is Hyprland installed?"@,
        FocusError::HyprlandNotRunning =>
            "Hyprland is not running (HYPRLAND_INSTANCE_SIGNATURE not set)"@,
        FocusError::HyprctlFailed { code, detail } =>
            "hyprctl failed with exit code "@ + signed_decimal(code as int) + ": "@ + detail@,
        FocusError::UnknownTheme(name) =>
            "unknown theme '"@ + name@ + "' -- use --list to see available themes"@,
        FocusError::ShaderWriteFailed { path, source } =>
            "failed to write shader to "@ + path@ + ": "@ + source@,
        FocusError::ShaderRemoveFailed { path, source } =>
            "failed to remove shader "@ + path@ + ": "@ + source@,
        FocusError::StateWriteFailed { path, source } =>
            "failed to write state to "@ + path@ + ": "@ + source@,
        FocusError::StateReadFailed { path, source } =>
            "failed to read state from "@ + path@ + ": "@ + source@,
        FocusError::NoRuntimeDir =>
            "no runtime directory available (XDG_RUNTIME_DIR not set, /tmp fallback failed)"@,
    }
}

fn path_message(lead: &str, path: &String, source: &String) -> (r: String)
    ensures
        r@ == lead@ + path@ + ": "@ + source@,
{
    let mut out = String::from_str(lead);
    out.append(path.as_str());
    out.append(": ");
    out.append(source.as_str());
    out
}

impl FocusError {
    /// The message this error reads as.
    pub fn message(&self) -> (r: String)
        ensures
            r@ == error_text(*self),
    {
        match self {
            FocusError::HyprctlNotFound => String::from_str(
                "hyprctl not found in PATH -- is Hyprland installed?",
            ),
            FocusError::HyprlandNotRunning => String::from_str(
                "Hyprland is not running (HYPRLAND_INSTANCE_SIGNATURE not set)",
            ),
            FocusError::HyprctlFailed { code, detail } => {
                let mut out = String::from_str("hyprctl failed with exit code ");
                push_signed_decimal(&mut out, *code);
                out.append(": ");
                out.append(detail.as_str());
                out
            },
            FocusError::UnknownTheme(name) => {
                let mut out = String::from_str("unknown theme '");
                out.append(name.as_str());
                out.append("' -- use --list to see available themes");
                out
            },
            FocusError::ShaderWriteFailed { path, source } => path_message(
                "failed to write shader to ",
                path,
                source,
            ),
            FocusError::ShaderRemoveFailed { path, source } => path_message(
                "failed to remove shader ",
                path,
                source,
            ),
            FocusError::StateWriteFailed { path, source } => path_message(
                "failed to write state to ",
                path,
                source,
            ),
            FocusError::StateReadFailed { path, source } => path_message(
                "failed to read state from ",
                path,
                source,
            ),
            FocusError::NoRuntimeDir => String::from_str(
                "no runtime directory available (XDG_RUNTIME_DIR not set, /tmp fallback failed)",
            ),
        }
    }
}

proof fn occurs_after(a: Seq<char>, t: Seq<char>, b: Seq<char>)
    ensures
        occurs_in(t, a + t + b),
{
    assert((a + t + b).subrange(a.len() as int, (a.len() + t.len()) as int) =~= t);
}

/// Each message names what it is about: the unknown theme's name; the exit
/// code and output of a failed `hyprctl`; the path and the cause of a failed
/// file operation.
pub proof fn messages_name_their_subject(e: FocusError)
    ensures
        e matches FocusError::UnknownTheme(n) ==> occurs_in(n@, error_text(e)),
        e matches FocusError::HyprctlFailed { code, detail } ==> occurs_in(
            "exit code "@ + signed_decimal(code as int),
            error_text(e),
        ) && occurs_in(detail@, error_text(e)),
        e matches FocusError::ShaderWriteFailed { path, source } ==> occurs_in(path@, error_text(e))
            && occurs_in(source@, error_text(e)),
        e matches FocusError::ShaderRemoveFailed { path, source } ==> occurs_in(path@, error_text(e))
            && occurs_in(source@, error_text(e)),
        e matches FocusError::StateWriteFailed { path, source } ==> occurs_in(path@, error_text(e))
            && occurs_in(source@, error_text(e)),
        e matches FocusError::StateReadFailed { path, source } ==> occurs_in(path@, error_text(e))
            && occurs_in(source@, error_text(e)),
{
    let t = error_text(e);
    match e {
        FocusError::UnknownTheme(n) => {
            occurs_after("unknown theme '"@, n@, "' -- use --list to see available themes"@);
        },
        FocusError::HyprctlFailed { code, detail } => {
            reveal_strlit("hyprctl failed with exit code ");
            reveal_strlit("hyprctl failed with ");
            reveal_strlit("exit code ");
            let x = "exit code "@ + signed_decimal(code as int);
            assert("hyprctl failed with exit code "@ =~= "hyprctl failed with "@ + "exit code "@);
            assert(t =~= "hyprctl failed with "@ + x + (": "@ + detail@));
            occurs_after("hyprctl failed with "@, x, ": "@ + detail@);
            assert(t =~= ("hyprctl failed with exit code "@ + signed_decimal(code as int) + ": "@)
                + detail@ + Seq::<char>::empty());
            occurs_after(
                "hyprctl failed with exit code "@ + signed_decimal(code as int) + ": "@,
                detail@,
                Seq::<char>::empty(),
            );
        },
        FocusError::ShaderWriteFailed { path, source } => {
            let lead = "failed to write shader to "@;
            assert(t =~= lead + path@ + (": "@ + source@));
            occurs_after(lead, path@, ": "@ + source@);
            assert(t =~= (lead + path@ + ": "@) + source@ + Seq::<char>::empty());
            occurs_after(lead + path@ + ": "@, source@, Seq::<char>::empty());
        },
        FocusError::ShaderRemoveFailed { path, source } => {
            let lead = "failed to remove shader "@;
            assert(t =~= lead + path@ + (": "@ + source@));
            occurs_after(lead, path@, ": "@ + source@);
            assert(t =~= (lead + path@ + ": "@) + source@ + Seq::<char>::empty());
            occurs_after(lead + path@ + ": "@, source@, Seq::<char>::empty());
        },
        FocusError::StateWriteFailed { path, source } => {
            let lead = "failed to write state to "@;
            assert(t =~= lead + path@ + (": "@ + source@));
            occurs_after(lead, path@, ": "@ + source@);
            assert(t =~= (lead + path@ + ": "@) + source@ + Seq::<char>::empty());
            occurs_after(lead + path@ + ": "@, source@, Seq::<char>::empty());
        },
        FocusError::StateReadFailed { path, source } => {
            let lead = "failed to read state from "@;
            assert(t =~= lead + path@ + (": "@ + source@));
            occurs_after(lead, path@, ": "@ + source@);
            assert(t =~= (lead + path@ + ": "@) + source@ + Seq::<char>::empty());
            occurs_after(lead + path@ + ": "@, source@, Seq::<char>::empty());
        },
        _ => {},
    }
}

} // verus!
