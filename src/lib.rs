//! A Pomodoro countdown engine: a fixed cycle of focus and break phases, a
//! state machine driven by user commands and clock ticks, overrun accounting
//! and session statistics. Terminal input, rendering and audio playback are
//! left to the driver, which performs the actions the engine hands back.
pub mod phase;
pub mod stats;
pub mod engine;
pub mod display;
pub mod laws;
