//! The arena flow around every fight: entry, the one-shot clear of the level,
//! the stasis orbit before and after the fight, defeat and completion.

use vstd::prelude::*;
use crate::parts::{
    all_dead_before, all_parts_down, boss_total_hp, gate_phases, gated, law_beaten_boss_has_no_health,
    law_gating_exposes_next, lemma_total_hp_le, lemma_total_hp_nonneg, part_hp, total_hp, BossPart,
};
use crate::colossus::{
    colossus_hits, dec, hits_upto, lemma_hits_lower_health, tick_frame_counters, ColossusCounters,
};
use crate::buff::{spent, Buff};
use crate::parts::{hit_part, PartId};
use crate::roster::BossKind;
use crate::serpent::{
    contact_cut, contact_for, dec as tick_down, first_strikeable, serpent_damage, strike_player, Cut, SerpentClock,
    SerpentTuning,
};
use crate::single::{beat_step, conductor_tick, core_hit, law_beat_keeps_time, law_resonance_bounded, Conductor, ConductorTuning};
use crate::sun_devourer::{clear_darkness, player_hits_boss, recall_bolts, BodyHit, BoltPool, Darkness, Lunge, SunTuning};

verus! {

/// The arena's tuning.
#[derive(Clone, Copy, PartialEq, Eq, Debug, Structural)]
pub struct ArenaTuning {
    pub max_hp: i32,
    pub shoot_interval: u32,
    /// Ticks after entry before the boss appears.
    pub entry_delay: u32,
    /// Coins awarded for a kill.
    pub coin_reward: u32,
}

/// The integer state of the boss flow.
#[derive(Clone, Copy, PartialEq, Eq, Debug, Structural)]
pub struct Fight {
    /// An arena is active (from entry until the player tethers out after victory).
    pub active: bool,
    /// The boss has appeared.
    pub spawned: bool,
    /// The level has been cleared for this fight.
    pub cleared: bool,
    /// The player is held in the stasis orbit.
    pub stasis: bool,
    pub stasis_ticks: u32,
    pub entry_ticks: u32,
    pub hp: i32,
    pub killed: bool,
    /// Fights completed this run: which fight comes next.
    pub index: u32,
    pub barrier_up: bool,
    pub final_phase: bool,
    /// The approach markers for the coming fight have been revealed.
    pub approach_shown: bool,
    pub shoot_timer: u32,
    pub coins: u32,
    /// The boss of the current (or last) fight.
    pub kind: BossKind,
}

pub open spec fn sat_add(a: u32, b: u32) -> u32 {
    if a + b > u32::MAX { u32::MAX } else { (a + b) as u32 }
}

/// Reveal the approach markers once, as the player nears the threshold of the
/// next fight.
pub fn approach_due(f: &mut Fight, near: bool) -> (shown: bool)
    ensures
        shown == (!old(f).active && !old(f).approach_shown && near),
        shown ==> *final(f) == (Fight { approach_shown: true, ..*old(f) }),
        !shown ==> *final(f) == *old(f),
{
    let shown = !f.active && !f.approach_shown && near;
    if shown {
        f.approach_shown = true;
    }
    shown
}

/// Entering the arena (the threshold reached, or a forced warp): the fight is
/// armed at full health, the level not yet cleared, and the approach markers
/// re-armed for the next fight. Returns whether the fight began.
pub fn enter_arena(f: &mut Fight, reached: bool, forced: bool, t: &ArenaTuning) -> (entered: bool)
    ensures
        entered == (!old(f).active && (reached || forced)),
        entered ==> *final(f) == (Fight {
            active: true,
            cleared: false,
            entry_ticks: 0,
            hp: t.max_hp,
            shoot_timer: t.shoot_interval,
            approach_shown: false,
            ..*old(f)
        }),
        !entered ==> *final(f) == *old(f),
{
    if f.active || !(reached || forced) {
        return false;
    }
    f.approach_shown = false;
    f.active = true;
    f.cleared = false;
    f.entry_ticks = 0;
    f.hp = t.max_hp;
    f.shoot_timer = t.shoot_interval;
    true
}

/// The one-shot clear of the level on the first tick inside the arena.
pub fn begin_clear(f: &mut Fight) -> (clear_now: bool)
    ensures
        clear_now == (old(f).active && !old(f).cleared),
        clear_now ==> *final(f) == (Fight { cleared: true, ..*old(f) }),
        !clear_now ==> *final(f) == *old(f),
{
    if f.active && !f.cleared {
        f.cleared = true;
        true
    } else {
        false
    }
}

/// Return every live object of a pool to its free list, in order.
pub fn release_all<T>(live: &mut Vec<T>, free: &mut Vec<T>)
    ensures
        final(free)@ == old(free)@ + old(live)@,
        final(live)@.len() == 0,
{
    free.append(live);
}

/// Drop the player into the stasis orbit: untethered, orbiting a safe node.
pub fn enter_stasis(f: &mut Fight, hooked: &mut bool)
    ensures
        *final(f) == (Fight { stasis: true, stasis_ticks: 0, ..*old(f) }),
        !*final(hooked),
{
    f.stasis = true;
    f.stasis_ticks = 0;
    *hooked = false;
}

/// What the stasis orbit did this tick.
#[derive(Clone, Copy, PartialEq, Eq, Debug, Structural)]
pub enum StasisTurn {
    /// No stasis in progress.
    Idle,
    /// Still orbiting.
    Orbit,
    /// The player tethered: the fight starts (the boss appears next tick).
    Begin,
    /// The player tethered out of the victory orbit: complete the fight.
    Victory,
}

pub open spec fn stasis_step(f: Fight, tether: bool, t: ArenaTuning) -> (Fight, StasisTurn) {
    if !f.active || !f.stasis {
        (f, StasisTurn::Idle)
    } else if tether {
        if f.hp <= 0 {
            (Fight { stasis: false, ..f }, StasisTurn::Victory)
        } else {
            (Fight { stasis: false, entry_ticks: t.entry_delay, ..f }, StasisTurn::Begin)
        }
    } else {
        (Fight { stasis_ticks: (f.stasis_ticks + 1) as u32, ..f }, StasisTurn::Orbit)
    }
}

/// One tick of the stasis orbit. Tethering a node (`tether`) ends it.
pub fn stasis_tick(f: &mut Fight, tether: bool, t: &ArenaTuning) -> (turn: StasisTurn)
    requires
        old(f).stasis_ticks < u32::MAX,
    ensures
        (*final(f), turn) == stasis_step(*old(f), tether, *t),
{
    if !f.active || !f.stasis {
        return StasisTurn::Idle;
    }
    if tether {
        let victory = f.hp <= 0;
        f.stasis = false;
        if !victory {
            f.entry_ticks = t.entry_delay;
            return StasisTurn::Begin;
        }
        return StasisTurn::Victory;
    }
    f.stasis_ticks = f.stasis_ticks + 1;
    StasisTurn::Orbit
}

/// The stasis orbit: outside it nothing happens; while orbiting untethered
/// the orbit clock counts one more tick and nothing else changes; a tether
/// ends the orbit, beginning the fight (the boss appears on the next tick,
/// its health kept) or, once the boss is beaten, completing the victory.
pub proof fn law_stasis_orbit(f: Fight, tether: bool, t: ArenaTuning)
    requires
        f.stasis_ticks < u32::MAX,
    ensures
        !(f.active && f.stasis) ==> stasis_step(f, tether, t) == (f, StasisTurn::Idle),
        f.active && f.stasis && !tether ==>
            stasis_step(f, tether, t) == (Fight { stasis_ticks: (f.stasis_ticks + 1) as u32, ..f }, StasisTurn::Orbit),
        f.active && f.stasis && tether ==> !stasis_step(f, tether, t).0.stasis
            && stasis_step(f, tether, t).0.hp == f.hp
            && (stasis_step(f, tether, t).1 == StasisTurn::Victory <==> f.hp <= 0)
            && (f.hp > 0 ==> stasis_step(f, tether, t).1 == StasisTurn::Begin
                && stasis_step(f, tether, t).0.entry_ticks == t.entry_delay),
{
}

/// After a fall in the arena the player goes back into the stasis orbit with
/// the boss's progress kept: it is only hidden until the player tethers again,
/// and any darkness is lifted so the orbit is visible.
pub fn reset_boss_after_fall(f: &mut Fight, dark: &mut Darkness, hooked: &mut bool)
    ensures
        *final(f) == (Fight { spawned: false, stasis: true, stasis_ticks: 0, ..*old(f) }),
        *final(dark) == (Darkness { active: false, ticks: 0, ..*old(dark) }),
        !*final(hooked),
{
    f.spawned = false;
    dark.active = false;
    dark.ticks = 0;
    enter_stasis(f, hooked);
}

/// The fight once the boss is defeated.
pub open spec fn finished(f: Fight, t: ArenaTuning) -> Fight {
    Fight {
        hp: 0,
        spawned: false,
        stasis: true,
        stasis_ticks: 0,
        entry_ticks: 0,
        barrier_up: false,
        final_phase: false,
        killed: true,
        coins: sat_add(f.coins, t.coin_reward),
        ..f
    }
}

/// The fight once it is complete: the arena closed, the next fight armed.
pub open spec fn completed(f: Fight) -> Fight {
    Fight {
        active: false,
        spawned: false,
        cleared: false,
        index: if f.index == u32::MAX { u32::MAX } else { (f.index + 1) as u32 },
        ..f
    }
}

/// A defeated boss is put away for good: no health, no barrier, not on
/// screen, the player in the victory orbit from its start, the kill
/// recorded, and the reward paid (capped at the top of the purse); the
/// arena stays open and the schedule is not advanced until completion.
/// Completing closes the arena and moves the schedule one fight on (it
/// stops at its end), keeping everything else.
pub proof fn law_finish_and_complete(f: Fight, t: ArenaTuning)
    ensures
        finished(f, t).hp == 0 && finished(f, t).killed && finished(f, t).stasis && !finished(f, t).spawned,
        finished(f, t).stasis_ticks == 0 && !finished(f, t).barrier_up && !finished(f, t).final_phase,
        finished(f, t).active == f.active && finished(f, t).index == f.index && finished(f, t).kind == f.kind,
        finished(f, t).coins == (if f.coins + t.coin_reward > u32::MAX { u32::MAX as int } else { f.coins + t.coin_reward }),
        !completed(f).active && !completed(f).spawned && !completed(f).cleared,
        f.index < u32::MAX ==> completed(f).index == f.index + 1,
        completed(f).hp == f.hp && completed(f).killed == f.killed && completed(f).coins == f.coins,
{
}

/// One buffed hit on a core takes four from the Flare Titan and two from any
/// other boss.
pub proof fn law_core_damage(kind: BossKind)
    ensures
        kind == BossKind::FlareTitan ==> core_damage(kind) == 4,
        kind != BossKind::FlareTitan ==> core_damage(kind) == 2,
{
}

/// The boss is defeated: it is put away with its generators, barrier, lunge
/// and darkness; the kill pays coins; and the player drops into the victory
/// orbit.
pub fn finish_boss(
    f: &mut Fight,
    lunge: &mut Lunge,
    dark: &mut Darkness,
    hooked: &mut bool,
    t: &ArenaTuning,
    st: &SunTuning,
)
    ensures
        *final(f) == finished(*old(f), *t),
        *final(lunge) == (Lunge { ticks: 0, telegraph: st.lunge_telegraph }),
        *final(dark) == (Darkness { active: false, ticks: 0, cooldown: st.dark_interval }),
        !*final(hooked),
{
    f.hp = 0;
    f.spawned = false;
    f.entry_ticks = 0;
    f.barrier_up = false;
    f.final_phase = false;
    lunge.ticks = 0;
    lunge.telegraph = st.lunge_telegraph;
    f.killed = true;
    clear_darkness(dark, st);
    f.coins = f.coins.saturating_add(t.coin_reward);
    enter_stasis(f, hooked);
}

/// The player tethered out of the victory orbit: the arena is put away and the
/// schedule advances, arming the next fight. Returns the new fight index.
pub fn complete_finish(f: &mut Fight, hooked: &mut bool) -> (index: u32)
    ensures
        *final(f) == completed(*old(f)),
        index == final(f).index,
        !*final(hooked),
{
    *hooked = false;
    f.active = false;
    f.spawned = false;
    f.cleared = false;
    f.index = f.index.saturating_add(1);
    f.index
}

/// The boss's entrance: once the entry delay has passed outside of stasis, it
/// appears. Returns whether it appears this tick.
pub fn appearance_tick(f: &mut Fight, t: &ArenaTuning) -> (appear: bool)
    ensures
        (!old(f).active || old(f).spawned || old(f).stasis) ==> *final(f) == *old(f) && !appear,
        (old(f).active && !old(f).spawned && !old(f).stasis) ==> {
            let e = if old(f).entry_ticks == u32::MAX { u32::MAX } else { (old(f).entry_ticks + 1) as u32 };
            &&& appear == (e >= t.entry_delay)
            &&& *final(f) == (Fight { entry_ticks: e, spawned: appear, ..*old(f) })
        },
{
    if !f.active || f.spawned || f.stasis {
        return false;
    }
    f.entry_ticks = f.entry_ticks.saturating_add(1);
    if f.entry_ticks < t.entry_delay {
        return false;
    }
    f.spawned = true;
    true
}

/// The boss is up and fighting.
pub fn fight_running(f: &Fight) -> (running: bool)
    ensures
        running == (f.active && f.spawned && f.hp > 0),
{
    f.active && f.spawned && f.hp > 0
}

/// The health bar is redrawn only when the health changed.
pub fn hud_dirty(hp: i32, last: &mut i32) -> (dirty: bool)
    ensures
        dirty == (hp != *old(last)),
        *final(last) == hp,
{
    let dirty = hp != *last;
    *last = hp;
    dirty
}

/// The arena's warp overlay counts down; it is hidden when it runs out.
pub fn warp_flash_tick(ticks: i32) -> (r: (i32, bool))
    ensures
        ticks <= 0 ==> r == (ticks, false),
        ticks > 0 ==> r.0 == ticks - 1 && r.1 == (ticks - 1 <= 0),
{
    if ticks <= 0 {
        return (ticks, false);
    }
    (ticks - 1, ticks - 1 <= 0)
}

/// The end of a part boss's tick: phase gating is applied, the health bar
/// is resynchronised with the parts, and when `won` the boss is finished.
fn settle(
    parts: &mut Vec<BossPart>,
    clear_post_attack: bool,
    won: bool,
    f: &mut Fight,
    lunge: &mut Lunge,
    dark: &mut Darkness,
    hooked: &mut bool,
    t: &ArenaTuning,
    st: &SunTuning,
)
    requires
        total_hp(old(parts)@) <= i32::MAX,
    ensures
        final(parts)@ == gated(old(parts)@, clear_post_attack),
        won ==> {
            &&& *final(f) == finished(*old(f), *t)
            &&& *final(lunge) == (Lunge { ticks: 0, telegraph: st.lunge_telegraph })
            &&& *final(dark) == (Darkness { active: false, ticks: 0, cooldown: st.dark_interval })
            &&& !*final(hooked)
        },
        !won ==> {
            &&& *final(f) == (Fight { hp: total_hp(old(parts)@) as i32, ..*old(f) })
            &&& *final(lunge) == *old(lunge)
            &&& *final(dark) == *old(dark)
            &&& *final(hooked) == *old(hooked)
        },
{
    gate_phases(parts, clear_post_attack);
    proof {
        law_gating_exposes_next(old(parts)@, clear_post_attack);
    }
    f.hp = boss_total_hp(parts);
    if won {
        finish_boss(f, lunge, dark, hooked, t, st);
    }
}

/// The end of the Serpent's tick: phase gating (a segment just uncovered
/// does not inherit an open post-attack window), the health bar follows the
/// parts, and once no part is alive the fight is won. Returns whether it was
/// won.
pub fn settle_serpent(
    parts: &mut Vec<BossPart>,
    f: &mut Fight,
    lunge: &mut Lunge,
    dark: &mut Darkness,
    hooked: &mut bool,
    t: &ArenaTuning,
    st: &SunTuning,
) -> (won: bool)
    requires
        total_hp(old(parts)@) <= i32::MAX,
    ensures
        final(parts)@ == gated(old(parts)@, true),
        won == all_dead_before(old(parts)@, old(parts)@.len() as int),
        won ==> {
            &&& *final(f) == finished(*old(f), *t)
            &&& *final(lunge) == (Lunge { ticks: 0, telegraph: st.lunge_telegraph })
            &&& *final(dark) == (Darkness { active: false, ticks: 0, cooldown: st.dark_interval })
            &&& !*final(hooked)
        },
        !won ==> {
            &&& *final(f) == (Fight { hp: total_hp(old(parts)@) as i32, ..*old(f) })
            &&& *final(lunge) == *old(lunge)
            &&& *final(dark) == *old(dark)
            &&& *final(hooked) == *old(hooked)
        },
{
    let won = all_parts_down(parts);
    settle(parts, true, won, f, lunge, dark, hooked, t, st);
    won
}

/// The end of the Colossus's tick: phase gating, the health bar follows the
/// parts, and the fight is won once no part was alive when the tick's frame
/// was taken (`frame`, the parts as they stood at the tick's start: a part
/// destroyed this tick ends the fight on the next). Returns whether it was
/// won.
pub fn settle_colossus(
    parts: &mut Vec<BossPart>,
    frame: &Vec<BossPart>,
    f: &mut Fight,
    lunge: &mut Lunge,
    dark: &mut Darkness,
    hooked: &mut bool,
    t: &ArenaTuning,
    st: &SunTuning,
) -> (won: bool)
    requires
        total_hp(old(parts)@) <= i32::MAX,
    ensures
        final(parts)@ == gated(old(parts)@, false),
        won == all_dead_before(frame@, frame@.len() as int),
        won ==> {
            &&& *final(f) == finished(*old(f), *t)
            &&& *final(lunge) == (Lunge { ticks: 0, telegraph: st.lunge_telegraph })
            &&& *final(dark) == (Darkness { active: false, ticks: 0, cooldown: st.dark_interval })
            &&& !*final(hooked)
        },
        !won ==> {
            &&& *final(f) == (Fight { hp: total_hp(old(parts)@) as i32, ..*old(f) })
            &&& *final(lunge) == *old(lunge)
            &&& *final(dark) == *old(dark)
            &&& *final(hooked) == *old(hooked)
        },
{
    let won = all_parts_down(frame);
    settle(parts, false, won, f, lunge, dark, hooked, t, st);
    won
}

/// The fight the schedule holds next: its boss and that boss's parts (none
/// for a single-body boss), and whether a debug override swaps in the Sun
/// Devourer whatever the schedule says.
pub struct Contender {
    pub scheduled: BossKind,
    pub scheduled_parts: Vec<BossPart>,
    pub sun_devourer_override: bool,
}

/// The boss an arena opens on.
pub open spec fn contender_kind(c: Contender) -> BossKind {
    if c.sun_devourer_override { BossKind::SunDevourer } else { c.scheduled }
}

/// The parts the boss starts with: the scheduled boss's parts, or none for
/// the single-body Sun Devourer.
pub open spec fn contender_parts(c: Contender) -> Seq<BossPart> {
    if c.sun_devourer_override { Seq::empty() } else { c.scheduled_parts@ }
}

/// Put the coming boss into the arena, with all its parts fresh.
pub fn arm_boss(f: &mut Fight, parts: &mut Vec<BossPart>, next: &Contender)
    ensures
        *final(f) == (Fight { kind: contender_kind(*next), ..*old(f) }),
        final(parts)@ == contender_parts(*next),
{
    if next.sun_devourer_override {
        f.kind = BossKind::SunDevourer;
        *parts = Vec::new();
    } else {
        f.kind = next.scheduled;
        *parts = next.scheduled_parts.clone();
    }
}

/// What one buffed hit on a single-body boss's open core takes: four from
/// the Flare Titan, two from the others.
pub open spec fn core_damage(kind: BossKind) -> i32 {
    if kind == BossKind::FlareTitan { 4 } else { 2 }
}

/// What a strike at a single-body boss's core did.
#[derive(Clone, Copy, PartialEq, Eq, Debug, Structural)]
pub struct CoreStrike {
    /// The hit landed on the open core.
    pub landed: bool,
    /// It took the boss's last health and the fight is won.
    pub won: bool,
}

/// A strike at the core of the Flare Titan, the Magnetar, the Gravity Weaver
/// or the Conductor: a buffed hit within reach while the weak-point window is
/// open costs the boss `core_damage` health (never below zero); a hit that
/// leaves it none wins the fight.
pub fn strike_core(
    f: &mut Fight,
    flash: &mut u32,
    window_open: bool,
    buffed: bool,
    in_reach: bool,
    lunge: &mut Lunge,
    dark: &mut Darkness,
    hooked: &mut bool,
    t: &ArenaTuning,
    st: &SunTuning,
) -> (s: CoreStrike)
    ensures
        s.landed == (window_open && buffed && in_reach),
        s.won == (s.landed && old(f).hp - core_damage(old(f).kind) <= 0),
        s.won ==> {
            &&& *final(f) == finished(*old(f), *t)
            &&& *final(flash) == 20
            &&& *final(lunge) == (Lunge { ticks: 0, telegraph: st.lunge_telegraph })
            &&& *final(dark) == (Darkness { active: false, ticks: 0, cooldown: st.dark_interval })
            &&& !*final(hooked)
        },
        s.landed && !s.won ==> {
            &&& *final(f) == (Fight { hp: (old(f).hp - core_damage(old(f).kind)) as i32, ..*old(f) })
            &&& *final(flash) == 20
        },
        !s.won ==> *final(lunge) == *old(lunge) && *final(dark) == *old(dark) && *final(hooked) == *old(hooked),
        !s.landed ==> *final(f) == *old(f) && *final(flash) == *old(flash),
{
    let damage: i32 = if f.kind == BossKind::FlareTitan { 4 } else { 2 };
    let landed = core_hit(&mut f.hp, flash, damage, window_open, buffed, in_reach);
    let won = landed && f.hp <= 0;
    if won {
        finish_boss(f, lunge, dark, hooked, t, st);
    }
    CoreStrike { landed, won }
}

/// The Conductor's strike: as any core strike, and a landed hit spends the
/// resonance, which must be built up again.
pub fn strike_conductor(
    c: &mut Conductor,
    f: &mut Fight,
    flash: &mut u32,
    window_open: bool,
    buffed: bool,
    in_reach: bool,
    lunge: &mut Lunge,
    dark: &mut Darkness,
    hooked: &mut bool,
    t: &ArenaTuning,
    st: &SunTuning,
) -> (s: CoreStrike)
    ensures
        s.landed == (window_open && buffed && in_reach),
        s.won == (s.landed && old(f).hp - core_damage(old(f).kind) <= 0),
        s.won ==> {
            &&& *final(f) == finished(*old(f), *t)
            &&& *final(flash) == 20
            &&& *final(lunge) == (Lunge { ticks: 0, telegraph: st.lunge_telegraph })
            &&& *final(dark) == (Darkness { active: false, ticks: 0, cooldown: st.dark_interval })
            &&& !*final(hooked)
        },
        s.landed && !s.won ==> {
            &&& *final(f) == (Fight { hp: (old(f).hp - core_damage(old(f).kind)) as i32, ..*old(f) })
            &&& *final(flash) == 20
        },
        !s.won ==> *final(lunge) == *old(lunge) && *final(dark) == *old(dark) && *final(hooked) == *old(hooked),
        !s.landed ==> *final(f) == *old(f) && *final(flash) == *old(flash),
        s.landed ==> *final(c) == (Conductor { resonance: 0, ..*old(c) }),
        !s.landed ==> *final(c) == *old(c),
{
    let s = strike_core(f, flash, window_open, buffed, in_reach, lunge, dark, hooked, t, st);
    if s.landed {
        c.resonance = 0;
    }
    s
}

/// One tick of the Conductor's fight, which runs only as `part_tick_runs`
/// says: the beat (`conductor_tick`, with the tether as it is now), then a
/// strike at the core while its window is armed and the resonance full
/// (`strike_conductor`). The resonance stays within its requirement; the
/// boss loses two health or none (never going below zero); and a beat that
/// lands starts the next bar at the tempo the health calls for. Returns
/// whether a beat landed, and the strike.
pub fn conductor_round(
    c: &mut Conductor,
    f: &mut Fight,
    flash: &mut u32,
    buffed: bool,
    in_reach: bool,
    dead: bool,
    lunge: &mut Lunge,
    dark: &mut Darkness,
    hooked: &mut bool,
    ct: &ConductorTuning,
    t: &ArenaTuning,
    st: &SunTuning,
) -> (r: (bool, CoreStrike))
    requires
        old(c).resonance <= ct.resonance_required,
        ct.resonance_required < u32::MAX,
        ct.max_hp >= 0,
        old(f).kind == BossKind::Conductor,
    ensures
        !part_tick_runs(*old(f), dead) ==> {
            &&& r == (false, CoreStrike { landed: false, won: false })
            &&& *final(c) == *old(c) && *final(f) == *old(f) && *final(flash) == *old(flash)
            &&& *final(lunge) == *old(lunge) && *final(dark) == *old(dark) && *final(hooked) == *old(hooked)
        },
        part_tick_runs(*old(f), dead) ==> {
            let (c1, beat) = beat_step(*old(c), *old(hooked), old(f).hp, *ct);
            let s = r.1;
            &&& r.0 == beat
            &&& s.landed == (c1.window > 0 && c1.resonance >= ct.resonance_required && buffed && in_reach)
            &&& s.landed ==> *final(c) == (Conductor { resonance: 0, ..c1 })
            &&& !s.landed ==> *final(c) == c1
            &&& final(c).resonance <= ct.resonance_required
            &&& final(f).hp == (if s.landed { if old(f).hp - 2 > 0 { old(f).hp - 2 } else { 0 } } else { old(f).hp as int })
            &&& s.won == (s.landed && old(f).hp - 2 <= 0)
            &&& s.won ==> *final(f) == finished(*old(f), *t) && !*final(hooked)
            &&& s.landed && !s.won ==> *final(f) == (Fight { hp: (old(f).hp - 2) as i32, ..*old(f) })
            &&& !s.landed ==> *final(f) == *old(f)
            &&& !s.won ==> *final(hooked) == *old(hooked)
            &&& beat ==> {
                &&& final(c).beat_interval == (if old(f).hp <= ct.max_hp / 2 { 30u32 } else { 36u32 })
                &&& final(c).beat_ticks == final(c).beat_interval
            }
        },
{
    if !(f.active && !dead && !f.stasis) {
        return (false, CoreStrike { landed: false, won: false });
    }
    proof {
        law_beat_keeps_time(*c, *hooked, f.hp, *ct);
        law_resonance_bounded(*c, *hooked, f.hp, *ct);
    }
    let beat = conductor_tick(c, *hooked, f.hp, ct);
    let window_open = c.window > 0 && c.resonance >= ct.resonance_required;
    let s = strike_conductor(c, f, flash, window_open, buffed, in_reach, lunge, dark, hooked, t, st);
    (beat, s)
}

/// The player reaches the Sun Devourer while it is up (the arena active, the
/// boss appeared and alive; otherwise nothing happens). The contact is as
/// `player_hits_boss` decides; a hit that takes the boss's last health wins
/// the fight, and every bolt still in flight is recalled. Returns the contact
/// and whether the fight was won.
pub fn sun_body_strike(
    f: &mut Fight,
    pool: &mut BoltPool,
    flash: &mut u32,
    hooked: &mut bool,
    touching: bool,
    buffed: bool,
    near_weakpoint: bool,
    generators_down: bool,
    lunge: &mut Lunge,
    dark: &mut Darkness,
    t: &ArenaTuning,
    st: &SunTuning,
) -> (r: (BodyHit, bool))
    requires
        old(pool).wf(),
    ensures
        final(pool).wf(),
        final(pool).slots() == old(pool).slots(),
        !(old(f).active && old(f).spawned && old(f).hp > 0) ==> {
            &&& r == (BodyHit { damaged: false, unhooked: false, lose_heart: false, pushed: false }, false)
            &&& *final(f) == *old(f) && *final(pool) == *old(pool) && *final(flash) == *old(flash)
            &&& *final(hooked) == *old(hooked) && *final(lunge) == *old(lunge) && *final(dark) == *old(dark)
        },
        old(f).active && old(f).spawned && old(f).hp > 0 ==> {
            let h = r.0;
            &&& h.pushed == touching
            &&& h.damaged == (touching && buffed && near_weakpoint && generators_down)
            &&& h.unhooked == (touching && !h.damaged && *old(hooked))
            &&& h.lose_heart == (touching && !h.damaged && !buffed)
            &&& r.1 == (h.damaged && old(f).hp == 1)
            &&& h.damaged ==> *final(flash) == 20
            &&& !h.damaged ==> *final(flash) == *old(flash)
            &&& r.1 ==> {
                &&& *final(f) == finished(*old(f), *t)
                &&& final(pool).live@.len() == 0
                &&& final(pool).free@ == old(pool).free@ + crate::sun_devourer::live_ids(old(pool).live@)
                &&& *final(lunge) == (Lunge { ticks: 0, telegraph: st.lunge_telegraph })
                &&& *final(dark) == (Darkness { active: false, ticks: 0, cooldown: st.dark_interval })
                &&& !*final(hooked)
            }
            &&& !r.1 ==> {
                &&& *final(f) == (Fight { hp: if h.damaged { (old(f).hp - 1) as i32 } else { old(f).hp }, ..*old(f) })
                &&& *final(pool) == *old(pool)
                &&& *final(lunge) == *old(lunge) && *final(dark) == *old(dark)
                &&& touching && !h.damaged ==> !*final(hooked)
                &&& (!touching || h.damaged) ==> *final(hooked) == *old(hooked)
            }
        },
{
    let none = BodyHit { damaged: false, unhooked: false, lose_heart: false, pushed: false };
    if !(f.active && f.spawned && f.hp > 0) {
        return (none, false);
    }
    let h = player_hits_boss(&mut f.hp, flash, hooked, touching, buffed, near_weakpoint, generators_down);
    if f.hp <= 0 {
        recall_bolts(pool);
        finish_boss(f, lunge, dark, hooked, t, st);
        return (h, true);
    }
    (h, false)
}

/// A part boss's tick runs only while its arena is open, the player is alive
/// and no stasis holds the fight; otherwise it does nothing at all.
pub open spec fn part_tick_runs(f: Fight, dead: bool) -> bool {
    f.active && !dead && !f.stasis
}

/// The start of a Colossus tick: when the tick runs, the frame's countdowns
/// advance (the invulnerability after a kill among them, before any hit).
/// Returns whether the tick runs.
pub fn colossus_frame_start(f: &Fight, dead: bool, c: &mut ColossusCounters) -> (runs: bool)
    ensures
        runs == part_tick_runs(*f, dead),
        runs ==> *final(c) == (ColossusCounters {
            pattern_cooldown: dec(old(c).pattern_cooldown),
            part_invuln: dec(old(c).part_invuln),
            meteor_lock: dec(old(c).meteor_lock),
            ..*old(c)
        }),
        !runs ==> *final(c) == *old(c),
{
    let runs = f.active && !dead && !f.stasis;
    if runs {
        tick_frame_counters(c);
    }
    runs
}

/// The end of a Colossus tick, which runs only as `part_tick_runs` says:
/// the player's hits (`colossus_hits`), then phase gating, the health bar
/// following the parts, and the win once no part was alive in the tick's
/// frame (`frame`, the parts as the tick began). After it, every living part
/// whose predecessors are all destroyed is unshielded, and the health bar
/// shows the parts' health (none, once won). Returns whether it was won.
pub fn colossus_tick_end(
    parts: &mut Vec<BossPart>,
    frame: &Vec<BossPart>,
    open: &Vec<bool>,
    reach: &Vec<bool>,
    buffed: bool,
    c: &mut ColossusCounters,
    flash: &mut u32,
    invuln_ticks: u32,
    f: &mut Fight,
    dead: bool,
    lunge: &mut Lunge,
    dark: &mut Darkness,
    hooked: &mut bool,
    t: &ArenaTuning,
    st: &SunTuning,
) -> (won: bool)
    requires
        open@.len() == old(parts)@.len(),
        reach@.len() == old(parts)@.len(),
        forall|j: int| 0 <= j < old(parts)@.len() ==> #[trigger] old(parts)@[j].hp > i32::MIN,
        total_hp(old(parts)@) <= i32::MAX,
    ensures
        !part_tick_runs(*old(f), dead) ==> {
            &&& !won
            &&& final(parts)@ == old(parts)@ && *final(c) == *old(c) && *final(flash) == *old(flash)
            &&& *final(f) == *old(f) && *final(lunge) == *old(lunge) && *final(dark) == *old(dark)
            &&& *final(hooked) == *old(hooked)
        },
        part_tick_runs(*old(f), dead) ==> {
            let r = hits_upto((old(parts)@, old(c).part_invuln, *old(flash)), open@, reach@, buffed, invuln_ticks, old(parts)@.len());
            &&& *final(c) == (ColossusCounters { part_invuln: r.1, ..*old(c) })
            &&& *final(flash) == r.2
            &&& final(parts)@ == gated(r.0, false)
            &&& won == all_dead_before(frame@, frame@.len() as int)
            &&& forall|i: int| 0 < i < final(parts)@.len() && all_dead_before(final(parts)@, i)
                    && #[trigger] final(parts)@[i].alive ==> !final(parts)@[i].shielded
            &&& won ==> {
                &&& *final(f) == finished(*old(f), *t)
                &&& *final(lunge) == (Lunge { ticks: 0, telegraph: st.lunge_telegraph })
                &&& *final(dark) == (Darkness { active: false, ticks: 0, cooldown: st.dark_interval })
                &&& !*final(hooked)
            }
            &&& !won ==> {
                &&& *final(f) == (Fight { hp: total_hp(r.0) as i32, ..*old(f) })
                &&& final(f).hp == total_hp(final(parts)@)
                &&& *final(lunge) == *old(lunge) && *final(dark) == *old(dark)
                &&& *final(hooked) == *old(hooked)
            }
        },
{
    if !(f.active && !dead && !f.stasis) {
        return false;
    }
    proof {
        lemma_hits_lower_health(parts@, open@, reach@, buffed, c.part_invuln, *flash, invuln_ticks);
        lemma_total_hp_nonneg(parts@);
    }
    let mut invuln = c.part_invuln;
    colossus_hits(parts, open, reach, buffed, &mut invuln, flash, invuln_ticks);
    c.part_invuln = invuln;
    let ghost hit = parts@;
    proof {
        law_gating_exposes_next(hit, false);
        lemma_total_hp_nonneg(hit);
    }
    settle_colossus(parts, frame, f, lunge, dark, hooked, t, st)
}

/// What the end of a Serpent tick did to the player and the fight.
#[derive(Clone, Copy, PartialEq, Eq, Debug, Structural)]
pub struct SerpentTickEnd {
    /// The player loses a heart.
    pub lose_heart: bool,
    /// The fight is won.
    pub won: bool,
}

/// The end of a Serpent tick, which runs only as `part_tick_runs` says: the
/// player's buffed hit on the first living, unshielded, open piece in reach
/// (`serpent_damage`), the body's contact with the player (`touched`, the
/// piece touched), then phase gating, the health bar following the parts,
/// and the win once no part is alive. After it, every living part whose
/// predecessors are all destroyed is unshielded, and the health bar shows the
/// parts' health.
pub fn serpent_tick_end(
    parts: &mut Vec<BossPart>,
    open: &Vec<bool>,
    reach: &Vec<bool>,
    touched: Option<PartId>,
    buffed: bool,
    clock: &mut SerpentClock,
    buff: &mut Buff,
    invuln: &mut u32,
    flash: &mut u32,
    f: &mut Fight,
    dead: bool,
    lunge: &mut Lunge,
    dark: &mut Darkness,
    hooked: &mut bool,
    t: &SerpentTuning,
    at: &ArenaTuning,
    st: &SunTuning,
) -> (e: SerpentTickEnd)
    requires
        open@.len() == old(parts)@.len(),
        reach@.len() == old(parts)@.len(),
        forall|j: int| 0 <= j < old(parts)@.len() ==> #[trigger] old(parts)@[j].hp > i32::MIN,
        total_hp(old(parts)@) <= i32::MAX,
    ensures
        !part_tick_runs(*old(f), dead) ==> {
            &&& e == (SerpentTickEnd { lose_heart: false, won: false })
            &&& final(parts)@ == old(parts)@ && *final(clock) == *old(clock) && *final(buff) == *old(buff)
            &&& *final(invuln) == *old(invuln) && *final(flash) == *old(flash)
            &&& *final(f) == *old(f) && *final(lunge) == *old(lunge) && *final(dark) == *old(dark)
            &&& *final(hooked) == *old(hooked)
        },
        part_tick_runs(*old(f), dead) ==> {
            let lands = buffed && *old(invuln) == 0 && exists|i: int| first_strikeable(old(parts)@, open@, reach@, i);
            let cut = contact_for(old(clock).contact_cooldown, false, touched);
            &&& lands ==> exists|i: int| {
                &&& first_strikeable(old(parts)@, open@, reach@, i)
                &&& final(parts)@ == gated(old(parts)@.update(i, hit_part(old(parts)@[i])), true)
                &&& *final(invuln) == tick_down(if hit_part(old(parts)@[i]).hp <= 0 { t.part_invuln } else { 0u32 })
                &&& *final(flash) == 20
            }
            &&& !lands ==> {
                &&& final(parts)@ == gated(old(parts)@, true)
                &&& *final(invuln) == tick_down(*old(invuln))
                &&& *final(flash) == *old(flash)
            }
            &&& cut is None ==> *final(clock) == *old(clock) && *final(buff) == *old(buff) && !e.lose_heart
            &&& cut is Some ==> {
                &&& *final(clock) == (SerpentClock { contact_cooldown: t.contact_cooldown, ..*old(clock) })
                &&& *final(buff) == (if buffed { spent(*old(buff)) } else { *old(buff) })
                &&& e.lose_heart == !buffed
            }
            &&& e.won == all_dead_before(final(parts)@, final(parts)@.len() as int)
            &&& forall|i: int| 0 < i < final(parts)@.len() && all_dead_before(final(parts)@, i)
                    && #[trigger] final(parts)@[i].alive ==> !final(parts)@[i].shielded
            &&& e.won ==> {
                &&& *final(f) == finished(*old(f), *at)
                &&& *final(lunge) == (Lunge { ticks: 0, telegraph: st.lunge_telegraph })
                &&& *final(dark) == (Darkness { active: false, ticks: 0, cooldown: st.dark_interval })
                &&& !*final(hooked)
            }
            &&& !e.won ==> {
                &&& final(f).hp == total_hp(final(parts)@)
                &&& *final(f) == (Fight { hp: final(f).hp, ..*old(f) })
                &&& *final(lunge) == *old(lunge) && *final(dark) == *old(dark)
                &&& *final(hooked) == (*old(hooked) && cut != Some(Cut::Rope))
            }
        },
{
    let none = SerpentTickEnd { lose_heart: false, won: false };
    if !(f.active && !dead && !f.stasis) {
        return none;
    }
    let ghost p0 = parts@;
    serpent_damage(parts, open, reach, buffed, invuln, flash, t);
    let ghost hit = parts@;
    proof {
        if hit != p0 {
            let i = choose|i: int| first_strikeable(p0, open@, reach@, i) && hit == p0.update(i, hit_part(p0[i]));
            assert forall|j: int| 0 <= j < hit.len() implies part_hp(#[trigger] hit[j]) <= part_hp(p0[j]) by {
                if j == i {
                    assert(p0[j].hp > i32::MIN);
                }
            }
        }
        lemma_total_hp_le(hit, p0);
        lemma_total_hp_nonneg(hit);
        law_gating_exposes_next(hit, true);
    }
    let mut lose_heart = false;
    let cut = contact_cut(clock.contact_cooldown, false, touched);
    if let Some(c) = cut {
        let mut cd = clock.contact_cooldown;
        lose_heart = strike_player(&mut cd, hooked, buff, c, buffed, false, t);
        clock.contact_cooldown = cd;
    }
    let won = settle_serpent(parts, f, lunge, dark, hooked, at, st);
    proof {
        assert forall|j: int| 0 <= j < hit.len() implies (#[trigger] parts@[j]).alive == hit[j].alive by {}
        if all_dead_before(hit, hit.len() as int) {
            assert forall|j: int| 0 <= j < parts@.len() implies !(#[trigger] parts@[j]).alive by {
                assert(!hit[j].alive);
            }
        }
        if all_dead_before(parts@, parts@.len() as int) {
            assert forall|j: int| 0 <= j < hit.len() implies !(#[trigger] hit[j]).alive by {
                assert(!parts@[j].alive);
            }
        }
    }
    SerpentTickEnd { lose_heart, won }
}

/// What the arena entry did this tick.
#[derive(Clone, Copy, PartialEq, Eq, Debug, Structural)]
pub struct ZoneEntry {
    /// Reveal the approach markers ahead of the coming fight.
    pub approach: bool,
    /// The arena opened this tick.
    pub entered: bool,
    /// Clear the level (the first tick inside).
    pub clear: bool,
    /// Keep the player inside the walls: the fight is on and the boss alive.
    pub confine: bool,
}

/// The arena's entry flow for one tick. `scheduled` is whether a fight lies
/// ahead in this run (or one is forced), `held` whether the player is in space
/// or dead, `near` whether they are within reach of the threshold, `reached`
/// whether they crossed it, and `forced` a forced warp.
pub fn zone_entry_tick(
    f: &mut Fight,
    parts: &mut Vec<BossPart>,
    next: &Contender,
    scheduled: bool,
    held: bool,
    near: bool,
    reached: bool,
    forced: bool,
    t: &ArenaTuning,
) -> (z: ZoneEntry)
    ensures
        !scheduled || held ==> *final(f) == *old(f) && z == (ZoneEntry { approach: false, entered: false, clear: false, confine: false }),
        !z.entered ==> final(parts)@ == old(parts)@,
        z.entered ==> final(f).kind == contender_kind(*next) && final(parts)@ == contender_parts(*next),
        scheduled && !held ==> {
            let approach = !old(f).active && !old(f).approach_shown && near;
            let entered = !old(f).active && (reached || forced);
            let clear = old(f).active && !old(f).cleared;
            &&& z.approach == approach
            &&& z.entered == entered
            &&& z.clear == clear
            &&& z.confine == (old(f).active && old(f).cleared && old(f).hp > 0)
            &&& entered ==> *final(f) == (Fight {
                    active: true,
                    cleared: false,
                    entry_ticks: 0,
                    hp: t.max_hp,
                    shoot_timer: t.shoot_interval,
                    approach_shown: false,
                    kind: contender_kind(*next),
                    ..*old(f)
                })
            &&& clear ==> *final(f) == (Fight { cleared: true, ..*old(f) })
            &&& !entered && !clear ==> *final(f) == (Fight { approach_shown: old(f).approach_shown || approach, ..*old(f) })
        },
{
    let none = ZoneEntry { approach: false, entered: false, clear: false, confine: false };
    if !scheduled || held {
        return none;
    }
    let approach = approach_due(f, near);
    let entered = enter_arena(f, reached, forced, t);
    if entered {
        arm_boss(f, parts, next);
        return ZoneEntry { approach, entered: true, clear: false, confine: false };
    }
    if !f.active {
        return ZoneEntry { approach, ..none };
    }
    let clear = begin_clear(f);
    if clear {
        return ZoneEntry { approach, clear: true, ..none };
    }
    ZoneEntry { approach, confine: f.hp > 0, ..none }
}

/// Which fight overlays show this tick.
#[derive(Clone, Copy, PartialEq, Eq, Debug, Structural)]
pub struct Indicators {
    /// The boss's name banner.
    pub banner: bool,
    /// The edge arrow toward the boss, when it is off-screen.
    pub boss_arrow: bool,
    /// The edge arrows toward the generators, when they are off-screen.
    pub generator_arrows: bool,
}

/// The fight's overlays: none unless the boss is up; the generator arrows only
/// while the player is buffed and a generator still stands.
pub fn indicators(active: bool, spawned: bool, buffed: bool, generators_down: bool) -> (i: Indicators)
    ensures
        i == (Indicators {
            banner: active && spawned,
            boss_arrow: active && spawned,
            generator_arrows: active && spawned && buffed && !generators_down,
        }),
{
    let up = active && spawned;
    Indicators { banner: up, boss_arrow: up, generator_arrows: up && buffed && !generators_down }
}

// ── Laws ────────────────────────────────────────────────────────────────────

/// A kill always ends in a completed fight: once the boss is finished, the
/// first tether out of the victory orbit is the victory (never a restart),
/// and completing it closes the arena and arms the next fight, one further
/// on the schedule.
pub proof fn law_kill_arms_next_fight(f: Fight, t: ArenaTuning)
    requires
        f.active,
        f.index < u32::MAX,
    ensures
        stasis_step(finished(f, t), true, t).1 == StasisTurn::Victory,
        !completed(stasis_step(finished(f, t), true, t).0).active,
        completed(stasis_step(finished(f, t), true, t).0).index == f.index + 1,
        completed(stasis_step(finished(f, t), true, t).0).killed,
{
}

/// Before the victory, tethering out of stasis starts (or resumes) the fight
/// rather than ending it, and the boss appears on the next tick.
pub proof fn law_tether_starts_fight(f: Fight, t: ArenaTuning)
    requires
        f.active,
        f.stasis,
        f.hp > 0,
    ensures
        stasis_step(f, true, t).1 == StasisTurn::Begin,
        stasis_step(f, true, t).0.entry_ticks == t.entry_delay,
        stasis_step(f, true, t).0.hp == f.hp,
{
}

/// Each settled tick of a part boss leaves it consistent: every living part
/// whose predecessors are all destroyed has lost its shield, and the health
/// bar shows exactly the parts' remaining health, which is none once the
/// boss is beaten, when the fight is won (the boss killed, put away and the
/// player in the victory orbit).
pub proof fn law_settled_tick(parts: Seq<BossPart>, clear: bool, f: Fight, t: ArenaTuning)
    requires
        total_hp(parts) <= i32::MAX,
    ensures
        forall|i: int| 0 < i < parts.len() && all_dead_before(gated(parts, clear), i)
            && #[trigger] gated(parts, clear)[i].alive ==> !gated(parts, clear)[i].shielded,
        (Fight { hp: total_hp(parts) as i32, ..f }).hp == total_hp(gated(parts, clear)),
        all_dead_before(parts, parts.len() as int) ==> {
            &&& finished(f, t).hp == total_hp(gated(parts, clear))
            &&& finished(f, t).killed
            &&& finished(f, t).stasis
            &&& !finished(f, t).spawned
        },
{
    law_gating_exposes_next(parts, clear);
    lemma_total_hp_nonneg(parts);
    if all_dead_before(parts, parts.len() as int) {
        law_beaten_boss_has_no_health(parts);
    }
}

} // verus!
