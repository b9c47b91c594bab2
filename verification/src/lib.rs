//! Control logic of a small web application that streams a sampled signal
//! to browser clients over a WebSocket: when a generator keeps sampling,
//! which client commands retune it, and when each half of a connection ends.

pub mod command;
pub mod signals;
pub mod socket;
