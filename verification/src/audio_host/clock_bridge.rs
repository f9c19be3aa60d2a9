//! Bridges between the Wave capture, `PipeWire` graph, and Wave playback clocks.

pub mod attempt;
pub mod boundary;
pub mod capture;
pub mod config;
pub mod errors;
pub mod graph;
pub mod observation;
pub mod order;
pub mod parts;
pub mod playback;
pub mod rate;
pub mod spsc;
