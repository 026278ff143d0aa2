//! A terminal stopwatch core: the stopwatch state machine, the key-event
//! classification, the per-frame driver step, and the elapsed-time text
//! formatting, all with verified contracts. Terminal input and drawing live
//! outside this crate and only hand plain values in and out.

pub mod event;
pub mod format;
pub mod state;
pub mod theme;
