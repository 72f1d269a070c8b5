//! Window-manager adapters: verified decision logic.
pub mod backend;
pub mod capability;
pub mod error;
pub mod hyprland;
pub mod i3;
pub mod ids;
pub mod macos;
pub mod mangowc;
pub mod niri;
pub mod process;
pub mod select;
pub mod session;
pub mod text;
pub mod topology;
