//! Core of a Pomodoro interval timer: a phase state machine that tracks
//! remaining time and lap/loop counters, together with the cooperative
//! cancellation protocol of the background countdown worker.
//!
//! The engine itself never sleeps, spawns or blocks.  A thin shell owns the
//! real clock and threads; it feeds the engine events (worker ticks, the
//! worker's completion flag) and carries out the actions the engine decides
//! on (start a worker, set its cancellation flag, join it, show a
//! notification).

pub mod config;
pub mod engine;
pub mod laws;
pub mod notify;
pub mod worker;
