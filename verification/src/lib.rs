//! Electrical-distribution simulation for an A320-family aircraft.
//!
//! A deterministic, tick-driven model that, given the current state of the
//! power sources (two engine-driven generators, an APU generator, an external
//! ground-power receptacle, an emergency generator, two batteries) and the
//! positions of the cockpit overhead pushbuttons, computes the energization
//! state and the ultimate upstream source of every electrical bus and
//! transformer-rectifier in the network.

pub mod a320;
pub mod electrical;
pub mod laws;
pub mod overhead;
pub mod shared;
