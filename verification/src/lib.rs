//! Deterministic per-combatant simulation core of a two-player fighting game.
//!
//! Everything here is fixed-timestep integer arithmetic over plain value
//! state: 1-D interval geometry for hit/hurtboxes, frame-indexed move
//! tables, a small input-buffer primitive, and the per-combatant state
//! machine that ties them together.  Determinism is the point: identical
//! input sequences must reproduce identical states, so there is no float,
//! no clock and no hidden global anywhere in this crate.

pub mod cbox;
pub mod framedata;
pub mod input;
pub mod player;
