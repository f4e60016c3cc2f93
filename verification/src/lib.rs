//! Verified core of OyasumiVR for Linux: the decisions, parsers and state
//! machines of the desktop core and of the overlay sidecar, separated from
//! the I/O that drives them.
pub mod audio;
pub mod notifications;
pub mod osc;
pub mod overlay_config;
pub mod overlay_ipc;
pub mod power;
pub mod sidecar;
pub mod system;
pub mod vr;
pub mod text;
