//! Core logic of a small 2D fighting-game prototype: the warrior
//! position-state machine, its hitbox geometry, sprite-frame selection,
//! the generic completion-timer framework, the input-to-intent mapper and
//! the attack/damage resolver.
//!
//! The host engine (rendering, physics integration, input polling, entity
//! scheduling) is an external collaborator: it hands this crate plain
//! values (elapsed milliseconds, key states, contact lists, a grounded
//! flag) and receives plain values back (movement intents, collider
//! half-extents, an atlas frame index).
//!
//! All lengths are measured in subpixels, ninths of a screen pixel, so
//! that every hitbox fraction of the sprite sheet is an exact integer;
//! all durations are measured in milliseconds.

pub mod assets;
pub mod attack;
pub mod hitbox;
pub mod player;
pub mod sprites;
pub mod states;
pub mod stats;
pub mod warrior;
