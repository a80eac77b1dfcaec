//! Discrete decision logic of an explosive-propelled projectile calculator:
//! cardinal directions and corner layouts, the per-version ordering of a
//! physics tick, collision outcome flags, and the bookkeeping that turns
//! analytically derived charge candidates into a ranked result list.

pub mod direction;
pub mod layout_direction;
pub mod corners;
pub mod movement;
pub mod entity;
pub mod candidates;
pub mod ticks;
pub mod ranking;
pub mod settings;
