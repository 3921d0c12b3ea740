//! Decision logic of a grapple game's boss fights: part health and phase
//! gating, the per-boss attack cycles, the arena bookkeeping, and the run's
//! scoring rules. Positions and rendering stay with the engine; everything
//! here is integer state stepped one tick at a time.

pub mod arena;
pub mod backdrop;
pub mod buff;
pub mod colossus;
pub mod level;
pub mod parts;
pub mod pause;
pub mod picture;
pub mod pools;
pub mod roster;
pub mod run;
pub mod serpent;
pub mod single;
pub mod sun_devourer;
pub mod tech_bounce;
