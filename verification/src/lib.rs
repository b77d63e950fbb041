//! A live terminal dashboard core, verified: a generator task appends
//! timestamped samples to a shared append-only buffer at a fixed
//! cadence, while a render/input loop snapshots the buffer, plans a
//! header-plus-chart frame, and interprets keystrokes as transitions of
//! a small interaction state machine until the user quits.
//!
//! The library holds the logic: the sample log and its snapshot
//! discipline ([`buffer`]), the generator's tick ([`generator`]), and
//! the event mapping, state machine, layout and render planning of the
//! dashboard ([`dashboard`]). The thin embedding that owns the real
//! terminal, the timers and the task plumbing lives outside and drives
//! these functions.

pub mod buffer;
pub mod dashboard;
pub mod generator;
pub mod sample;
