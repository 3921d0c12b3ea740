//! The bosses of a run and which fight loop drives each one.

use vstd::prelude::*;

verus! {

/// The bosses.
#[derive(Clone, Copy, PartialEq, Eq, Debug, Structural)]
pub enum BossKind {
    Colossus,
    Serpent,
    SunDevourer,
    FlareTitan,
    GravityWeaver,
    Magnetar,
    Conductor,
}

/// The fight loop that runs a boss this tick.
#[derive(Clone, Copy, PartialEq, Eq, Debug, Structural)]
pub enum FightLoop {
    /// The Serpent's chain: head health wins, the body can be tethered.
    Serpent,
    /// The shared loop of bosses built from parts (the Colossus).
    Parts,
    FlareTitan,
    GravityWeaver,
    Magnetar,
    Conductor,
    /// The single-body loop: movement, bolts, darkness, generators, barrier
    /// and the final lunges.
    SunDevourer,
}

/// Which fight loop runs this tick. A boss made of parts runs the Serpent's
/// loop or the shared part loop; a single body runs its own loop, and any
/// other boss the single-body one.
pub fn tick_boss(kind: BossKind, has_parts: bool) -> (l: FightLoop)
    ensures
        has_parts ==> l == if kind == BossKind::Serpent { FightLoop::Serpent } else { FightLoop::Parts },
        !has_parts ==> l == match kind {
            BossKind::FlareTitan => FightLoop::FlareTitan,
            BossKind::GravityWeaver => FightLoop::GravityWeaver,
            BossKind::Magnetar => FightLoop::Magnetar,
            BossKind::Conductor => FightLoop::Conductor,
            _ => FightLoop::SunDevourer,
        },
{
    if has_parts {
        if kind == BossKind::Serpent {
            FightLoop::Serpent
        } else {
            FightLoop::Parts
        }
    } else {
        match kind {
            BossKind::FlareTitan => FightLoop::FlareTitan,
            BossKind::GravityWeaver => FightLoop::GravityWeaver,
            BossKind::Magnetar => FightLoop::Magnetar,
            BossKind::Conductor => FightLoop::Conductor,
            _ => FightLoop::SunDevourer,
        }
    }
}

/// Only the Sun Devourer's arena gets the generators and the barrier.
pub fn has_generators(kind: BossKind) -> (g: bool)
    ensures
        g == (kind == BossKind::SunDevourer),
{
    kind == BossKind::SunDevourer
}

} // verus!
