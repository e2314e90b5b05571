//! Bridges the volume control of a speaker set to the volume and mute state of
//! the host's active audio output.
//!
//! - [`command`] decodes the input reports of the device.
//! - [`volume`] holds the volume level and its two transitions.
//! - [`session`] decides, event by event, what a session does next.
//! - [`sink`] converts between levels and the raw volumes of the sound server.

pub mod command;
pub mod session;
pub mod sink;
pub mod volume;
