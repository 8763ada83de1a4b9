//! A turn-based monster-battling engine.
//!
//! The heart of the crate is the battle backend: it owns the state of a
//! two-sided battle, consumes exactly one command per side per turn, resolves
//! the turn deterministically against a pluggable source of randomness, and
//! hands back an ordered log of battle events.  Everything chance-based goes
//! through the [`rng::BattleRng`] abstraction, so a battle can be driven
//! either by a live uniform generator or by a scripted double that records
//! which probabilities were requested.
//!
//! A few small overworld helpers (directions, map coordinate conversions and
//! plain descriptions of scripted game events) live beside the backend; the
//! rendering layer that consumes them is out of scope here.

pub mod backend;
pub mod common;
pub mod coordinates;
pub mod damage;
pub mod events;
pub mod game_events;
pub mod moves;
pub mod pokemon;
pub mod rng;
