//! A countdown-timer engine for a Pomodoro-style tool: a two-state machine
//! (idle or ticking) that accounts for elapsed time in milliseconds, resets
//! on cancel and on completion, and takes its length from typed text.
pub mod engine;
pub mod laws;
pub mod parse;
