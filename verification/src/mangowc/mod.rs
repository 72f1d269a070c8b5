//! mangowc, a window manager for Wayland.
pub mod adapter;
pub mod mmsg;
pub mod pid;
pub mod toplevel;
