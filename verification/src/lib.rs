//! Core of a small real-time multiplayer control plane.
//!
//! Remote clients send discrete movement commands; a single authoritative
//! simulation drains those commands once per tick, folds them into a registry
//! of per-player state, and then integrates the physics of every player.
//!
//! All coordinates are kept in integer fixed point so that every tick is an
//! exact, reproducible function of the previous state and the time delta:
//! positions are in millionths of a world unit, velocities in thousandths of
//! a world unit per second, and time deltas in milliseconds.

use vstd::prelude::*;

pub mod channel;
pub mod command;
pub mod player;
pub mod registry;
pub mod tick;
pub mod wire;

verus! {

/// Body of the greeting route served by the host's HTTP side.
pub fn index() -> (r: &'static str)
    ensures
        r@ == "Hello, Rocket!"@,
{
    "Hello, Rocket!"
}

} // verus!
