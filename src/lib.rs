//! Live status-bar panels: the data, rules and state machines behind each
//! panel's update and draw pipeline, with their contracts.

pub mod attrs;
pub mod ramp;
pub mod clock;
pub mod trigger;
pub mod relay;
pub mod text;
pub mod custom;
pub mod pulseaudio;
pub mod workspaces;
