//! The native macOS backend.
pub mod accessibility;
pub mod app_identity;
pub mod environment;
pub mod input;
pub mod message;
pub mod outer;
pub mod property_list;
pub mod raise;
pub mod raw_topology;
pub mod same_space_focus;
pub mod scan;
pub mod session;
pub mod snapshot;
pub mod space_switch;
pub mod types;
pub mod window_focus;
