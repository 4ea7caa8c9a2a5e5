//! Fan control for a single-board computer: a temperature/speed curve is
//! compiled into a duty-cycle table with one entry per degree, and a fan
//! applies that table to a software PWM pin or a hardware PWM channel.
//!
//! The library decides; it touches no hardware. Each operation that needs
//! the outside world returns a description of what to do, and takes back
//! what came of it.

pub mod binary32;
pub mod fan;
pub mod poll;
pub mod temp;
