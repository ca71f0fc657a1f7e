//! Verified core of a taskbar-clock tooltip augmenter: window-target
//! location strategy, hit testing, hook-event dispatch, cooldown-gated
//! tooltip mutation, and lifecycle control.
pub mod calendar;
pub mod classes;
pub mod compose;
pub mod geometry;
pub mod hook;
pub mod lifecycle;
pub mod locator;
pub mod mutator;
pub mod text;
pub mod wide;
