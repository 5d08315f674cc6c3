//! A closed-loop speed controller for a rotating actuator, verified with
//! Verus. A proximity sensor's samples run through a hysteresis state
//! machine that counts revolutions into a sliding window of time bins; a
//! discrete PID law tracks a target frequency supplied through a shared
//! register table that a fieldbus-style server exposes to remote clients.
//!
//! Register values are 32-bit floats and travel as IEEE-754 bit patterns
//! in `u32`: everything exact on bit patterns — the register table and its
//! bounds, the word-swapped wire codec, revolution counting, the window
//! estimate's exact ratio, the schedule, the limiter's deadzone and clamp
//! decisions, and the anti-windup guard on the feedback memory — is
//! verified here. Float arithmetic itself, and all hardware and network
//! access, live in the unverified shell around the library.

pub mod controller;
pub mod float_bits;
pub mod perf;
pub mod pid;
pub mod proximity;
pub mod registers;
pub mod ring;
pub mod scheduler;
pub mod server;
pub mod window;
pub mod wire;
