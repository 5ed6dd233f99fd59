//! A noise gate: an audio processor that mutes a signal below a loudness
//! threshold and passes it above another, with hysteresis and timed
//! transitions to avoid chattering at the threshold boundary.
//!
//! Samples and thresholds are fixed-point amplitudes held in `i32`; the host
//! pipeline chooses the scale and converts its sample format at the edge.

pub mod level;
pub mod state;
pub mod gate;

pub use gate::Gate;
pub use level::SampleLevel;
pub use state::GateState;
