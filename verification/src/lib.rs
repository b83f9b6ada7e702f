//! Verified core of hyprfocus, a monochromatic screen overlay for Hyprland.

pub mod text;
pub mod errors;
pub mod paths;
pub mod shader;
pub mod themes;
pub mod status;
pub mod flow;
