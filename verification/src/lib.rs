//! Runtime core of a small real-time engine: a fixed-timestep frame clock,
//! a renderer resource state machine, an input edge-state aggregator, and an
//! engine that wires them to a pluggable game capability.

pub mod clock;
pub mod engine;
pub mod input;
pub mod renderer;
pub mod window;

pub use clock::FrameClock;
pub use engine::{Engine, Game};
