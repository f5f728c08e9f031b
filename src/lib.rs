//! Input-to-protocol mapping engine: joystick controls in, MIDI channel
//! messages out.
//!
//! - `state`: the last observed value of every control of every device.
//! - `binding`: which control drives which protocol target.
//! - `convert`: scaling of raw samples into seven-bit values.
//! - `midi`: wire encoding of channel messages.
//! - `engine`: the per-event translation step.
//! - `router`: the selected output endpoint.
//! - `graph`: the bindings as a navigable graph.
//! - `discovery`, `clock`: device selection and timestamps for the program
//!   around the library.

pub mod binding;
pub mod clock;
pub mod convert;
pub mod discovery;
pub mod engine;
pub mod graph;
pub mod midi;
pub mod router;
pub mod state;
