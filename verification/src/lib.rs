//! Event extraction and status coalescing for a game client's text log.
//!
//! The library classifies log lines into gameplay events, filters out the
//! level-ups of other players, keeps the latest class and area state, and
//! decides, step by step, what a monitoring loop has to do next.

pub mod capture;
pub mod class;
mod clock;
pub mod event;
pub mod filter;
pub mod grammar;
pub mod laws;
pub mod monitor;
pub mod pattern;
pub mod process;
pub mod status;
pub mod text;
pub mod tracker;
pub mod translations;
