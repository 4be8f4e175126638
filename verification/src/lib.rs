//! Burst-gauge team simulator.
//!
//! The library compares 5-member team compositions of a frame-based game:
//! each character contributes to a shared burst gauge at each of 150 discrete
//! frames (30 frames per second over a 5 second window), and the simulator
//! reports the first frame at which the accumulated contribution of a full
//! team reaches the burst threshold.
//!
//! All gauge quantities are fixed-point integers: gauge values and burst
//! contributions are stored in thousandths of a gauge unit, reload times in
//! milliseconds, and charge bonuses in thousandths of a percent. This keeps
//! every computation exact and lets each function carry a precise contract.

pub mod character;
pub mod roster;
pub mod simulator;
pub mod adjuster;
