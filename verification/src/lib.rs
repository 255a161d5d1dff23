//! Decoding engine for a game controller's raw input reports.
//!
//! Raw byte reports arrive over a wired (serial) or wireless (Bluetooth LE)
//! transport. The decoder turns each report into a typed controller state:
//! two analog sticks, a directional pad and a fixed button set. A small
//! acquisition model describes how a blocking read source is bridged to a
//! consumer over an ordered channel: every successfully read report is
//! decoded and published exactly once, in order, until the first read
//! failure ends the loop.

pub mod connection;
pub mod controller;
pub mod interface;
