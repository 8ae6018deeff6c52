//! Countdown timer engine: the countdown state machine, the manual `MM:SS`
//! entry buffer, the timer display text and colour, the dispatch of clicks
//! and keys onto them, the configuration that drives them, and the messages
//! of the scene-switch helper.

pub mod display;
pub mod countdown;
pub mod text_entry;
pub mod config;
pub mod controls;
pub mod scene;
