//! Idle/activity monitor core: a tri-state activity classification
//! (Idle / Active / Alert) driven by input-device polling, with a
//! status-snapshot renderer for an external status-bar widget.

pub mod devices;
pub mod laws;
pub mod machine;
pub mod status;
pub mod user;
