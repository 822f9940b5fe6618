//! Decision logic of a voice-agent runtime.

pub mod asyncai;
pub mod brain;
pub mod clock;
pub mod config;
pub mod decode;
pub mod engine;
pub mod events;
pub mod graph;
pub mod interpolate;
pub mod json;
pub mod kitten;
pub mod laws;
pub mod payload;
pub mod plivo;
pub mod run;
pub mod server;
pub mod session;
pub mod socket;
pub mod text;
pub mod webrtc;
