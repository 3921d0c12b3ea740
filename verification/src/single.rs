//! The single-body bosses. Each runs one cycle that opens its core for a
//! window; a buffed hit on the open core damages it, and touching the body
//! costs a heart.

use vstd::prelude::*;
use crate::buff::{grant_solar_charge, Buff};

verus! {

pub open spec fn dec(x: u32) -> u32 {
    if x > 0 { (x - 1) as u32 } else { x }
}

/// A buffed hit on the open core: the boss loses `damage` health (never going
/// below zero) and the hit flash starts. Returns whether the hit landed.
pub fn core_hit(hp: &mut i32, flash: &mut u32, damage: i32, window_open: bool, buffed: bool, in_reach: bool) -> (landed: bool)
    requires
        damage >= 0,
    ensures
        landed == (window_open && buffed && in_reach),
        landed ==> *final(hp) == (if *old(hp) - damage > 0 { *old(hp) - damage } else { 0 }) && *final(flash) == 20,
        !landed ==> *final(hp) == *old(hp) && *final(flash) == *old(flash),
{
    let landed = window_open && buffed && in_reach;
    if landed {
        let h = if *hp >= i32::MIN + damage { *hp - damage } else { i32::MIN };
        *hp = if h > 0 { h } else { 0 };
        *flash = 20;
    }
    landed
}

/// Touching the body costs a heart (unless the player is already dead).
pub fn body_contact(touching: bool, dead: bool) -> (lose_heart: bool)
    ensures
        lose_heart == (touching && !dead),
{
    touching && !dead
}

// ── The Conductor ───────────────────────────────────────────────────────────

/// The Conductor's tuning.
#[derive(Clone, Copy, PartialEq, Eq, Debug, Structural)]
pub struct ConductorTuning {
    /// Ticks after a release that still count as on the beat.
    pub release_window: u32,
    /// Resonance stacks that arm the weakpoint.
    pub resonance_required: u32,
    pub max_hp: i32,
}

/// The Conductor's beat state.
#[derive(Clone, Copy, PartialEq, Eq, Debug, Structural)]
pub struct Conductor {
    pub beat_ticks: u32,
    pub beat_interval: u32,
    pub release_window: u32,
    pub resonance: u32,
    pub was_hooked: bool,
    /// The armed weakpoint window.
    pub window: u32,
}

/// One tick of the beat. Releasing the tether opens a short release window; when
/// the beat lands, a release inside the window earns a Resonance stack (up to
/// the requirement) and otherwise one is lost. Below half health the bar is
/// faster. At full Resonance the weakpoint arms.
pub open spec fn beat_step(c: Conductor, hooked: bool, hp: i32, t: ConductorTuning) -> (Conductor, bool) {
    let rw0 = if c.was_hooked && !hooked { t.release_window } else { c.release_window };
    let rw = dec(rw0);
    let bt = dec(c.beat_ticks);
    let c1 = Conductor { release_window: rw, was_hooked: hooked, beat_ticks: bt, ..c };
    if bt == 0 {
        let res = if rw > 0 {
            if c.resonance + 1 < t.resonance_required { (c.resonance + 1) as u32 } else { t.resonance_required }
        } else {
            dec(c.resonance)
        };
        let interval: u32 = if hp <= t.max_hp / 2 { 30 } else { 36 };
        (Conductor {
            resonance: res,
            beat_interval: interval,
            beat_ticks: interval,
            window: if res >= t.resonance_required { 180 } else { c.window },
            ..c1
        }, true)
    } else {
        (c1, false)
    }
}

pub fn conductor_tick(c: &mut Conductor, hooked: bool, hp: i32, t: &ConductorTuning) -> (beat: bool)
    requires
        old(c).resonance < u32::MAX,
        t.max_hp >= 0,
    ensures
        (*final(c), beat) == beat_step(*old(c), hooked, hp, *t),
{
    if c.was_hooked && !hooked {
        c.release_window = t.release_window;
    }
    c.was_hooked = hooked;
    if c.release_window > 0 {
        c.release_window = c.release_window - 1;
    }
    if c.beat_ticks > 0 {
        c.beat_ticks = c.beat_ticks - 1;
    }
    if c.beat_ticks == 0 {
        if c.release_window > 0 {
            let r = c.resonance + 1;
            c.resonance = if r < t.resonance_required { r } else { t.resonance_required };
        } else if c.resonance > 0 {
            c.resonance = c.resonance - 1;
        }
        let speedup = hp <= t.max_hp / 2;
        c.beat_interval = if speedup { 30 } else { 36 };
        c.beat_ticks = c.beat_interval;
        if c.resonance >= t.resonance_required {
            c.window = 180;
        }
        return true;
    }
    false
}

/// When the Conductor appears its beat starts a full bar away.
pub fn start_beat(c: &mut Conductor)
    ensures
        *final(c) == (Conductor { beat_ticks: old(c).beat_interval, ..*old(c) }),
{
    c.beat_ticks = c.beat_interval;
}

/// The Conductor's core is open while its window is armed and Resonance is full.
pub fn conductor_window_open(c: &Conductor, t: &ConductorTuning) -> (open: bool)
    ensures
        open == (c.window > 0 && c.resonance >= t.resonance_required),
{
    c.window > 0 && c.resonance >= t.resonance_required
}

/// Resonance never exceeds the requirement; an on-beat release gains a stack
/// and a missed beat loses one.
pub proof fn law_resonance_bounded(c: Conductor, hooked: bool, hp: i32, t: ConductorTuning)
    requires
        c.resonance <= t.resonance_required,
    ensures
        beat_step(c, hooked, hp, t).0.resonance <= t.resonance_required,
        beat_step(c, hooked, hp, t).1 && beat_step(c, hooked, hp, t).0.release_window > 0
            ==> beat_step(c, hooked, hp, t).0.resonance == (if c.resonance + 1 < t.resonance_required {
                c.resonance + 1
            } else {
                t.resonance_required as int
            }),
        beat_step(c, hooked, hp, t).1 && beat_step(c, hooked, hp, t).0.release_window == 0
            ==> beat_step(c, hooked, hp, t).0.resonance == dec(c.resonance),
        !beat_step(c, hooked, hp, t).1 ==> beat_step(c, hooked, hp, t).0.resonance == c.resonance,
{
}

/// The beat lands exactly when its bar runs out, and a landed beat starts
/// the next bar at the tempo the health calls for: faster once the Conductor
/// is down to half its health.
pub proof fn law_beat_keeps_time(c: Conductor, hooked: bool, hp: i32, t: ConductorTuning)
    ensures
        beat_step(c, hooked, hp, t).1 == (c.beat_ticks <= 1),
        beat_step(c, hooked, hp, t).1 ==> {
            &&& beat_step(c, hooked, hp, t).0.beat_interval == (if hp <= t.max_hp / 2 { 30u32 } else { 36u32 })
            &&& beat_step(c, hooked, hp, t).0.beat_ticks == beat_step(c, hooked, hp, t).0.beat_interval
        },
{
}

/// The release window opens only on a release: letting go of the tether
/// after holding it. Grabbing, holding or staying free only lets an open
/// window run down; a release opens it afresh (less this tick). The tether
/// state is remembered for the next tick.
pub proof fn law_window_opens_on_release(c: Conductor, hooked: bool, hp: i32, t: ConductorTuning)
    ensures
        beat_step(c, hooked, hp, t).0.was_hooked == hooked,
        !(c.was_hooked && !hooked) ==> beat_step(c, hooked, hp, t).0.release_window
            == (if c.release_window > 0 { c.release_window - 1 } else { 0 }),
        c.was_hooked && !hooked ==> beat_step(c, hooked, hp, t).0.release_window
            == (if t.release_window > 0 { t.release_window - 1 } else { 0 }),
{
}

/// What a landed beat does to the Resonance: a release in the window earns a
/// stack (capped at the requirement); without one — no release, or a grab —
/// a stack is lost, down to none. Between beats the Resonance, the armed
/// window and the tempo are left alone and the bar counts down.
pub proof fn law_beat_scores_releases(c: Conductor, hooked: bool, hp: i32, t: ConductorTuning)
    ensures
        ({
            let (n, beat) = beat_step(c, hooked, hp, t);
            let open = if c.was_hooked && !hooked { t.release_window > 1 } else { c.release_window > 1 };
            &&& beat && open ==> n.resonance == (if c.resonance + 1 < t.resonance_required { c.resonance + 1 } else { t.resonance_required as int })
            &&& beat && !open ==> n.resonance == (if c.resonance > 0 { c.resonance - 1 } else { 0 })
            &&& !c.was_hooked && c.release_window <= 1 && beat ==> n.resonance == (if c.resonance > 0 { c.resonance - 1 } else { 0 })
            &&& beat && n.resonance >= t.resonance_required ==> n.window == 180
            &&& beat && n.resonance < t.resonance_required ==> n.window == c.window
            &&& !beat ==> {
                &&& n.resonance == c.resonance
                &&& n.window == c.window
                &&& n.beat_interval == c.beat_interval
                &&& n.beat_ticks == c.beat_ticks - 1
            }
        }),
{
}

// ── The Magnetar ────────────────────────────────────────────────────────────

#[derive(Clone, Copy, PartialEq, Eq, Debug, Structural)]
pub struct MagnetarTuning {
    pub pull_interval: u32,
    pub pull_ticks: u32,
    pub window_ticks: u32,
}

/// The Magnetar's charge cycle: idle, then a pull, then the weakpoint window.
#[derive(Clone, Copy, PartialEq, Eq, Debug, Structural)]
pub struct Magnetar {
    pub window: u32,
    pub pull: u32,
    pub cooldown: u32,
}

pub open spec fn charge_step(m: Magnetar, t: MagnetarTuning) -> (Magnetar, bool) {
    if m.window > 0 {
        (Magnetar { window: (m.window - 1) as u32, ..m }, false)
    } else if m.pull > 0 {
        let p = (m.pull - 1) as u32;
        (Magnetar { pull: p, window: if p == 0 { t.window_ticks } else { m.window }, ..m }, true)
    } else if m.cooldown == 0 {
        (Magnetar { cooldown: t.pull_interval, pull: t.pull_ticks, ..m }, false)
    } else {
        (Magnetar { cooldown: (m.cooldown - 1) as u32, ..m }, false)
    }
}

/// `n` ticks of the charge cycle.
pub open spec fn charge_n(m: Magnetar, t: MagnetarTuning, n: nat) -> Magnetar
    decreases n,
{
    if n == 0 { m } else { charge_step(charge_n(m, t, (n - 1) as nat), t).0 }
}

/// The charge cycle's steps: an open window runs down without pulling; a
/// pull pulls every tick and, on its last, opens the window for its full
/// length; an idle Magnetar counts its cooldown down by one each tick and,
/// once it is out, re-arms the cooldown and starts a full pull.
pub proof fn law_charge_cycle(m: Magnetar, t: MagnetarTuning)
    ensures
        ({
            let (n, pulling) = charge_step(m, t);
            &&& m.window > 0 ==> !pulling && n == (Magnetar { window: (m.window - 1) as u32, ..m })
            &&& m.window == 0 && m.pull > 0 ==> pulling && n.pull == m.pull - 1 && n.cooldown == m.cooldown
                && n.window == (if m.pull == 1 { t.window_ticks } else { 0 })
            &&& m.window == 0 && m.pull == 0 ==> !pulling
            &&& m.window == 0 && m.pull == 0 && m.cooldown > 0 ==> n == (Magnetar { cooldown: (m.cooldown - 1) as u32, ..m })
            &&& m.window == 0 && m.pull == 0 && m.cooldown == 0 ==> n == (Magnetar { window: 0, pull: t.pull_ticks, cooldown: t.pull_interval })
        }),
{
}

/// An idle Magnetar pulls again: from a closed window and no pull, a full
/// pull is armed exactly `cooldown + 1` ticks later, and not before.
pub proof fn law_idle_magnetar_pulls_again(m: Magnetar, t: MagnetarTuning)
    requires
        m.window == 0,
        m.pull == 0,
    ensures
        charge_n(m, t, (m.cooldown + 1) as nat) == (Magnetar { window: 0, pull: t.pull_ticks, cooldown: t.pull_interval }),
        forall|k: nat| k <= m.cooldown ==> #[trigger] charge_n(m, t, k) == (Magnetar { cooldown: (m.cooldown - k) as u32, ..m }),
{
    assert forall|k: nat| k <= m.cooldown implies #[trigger] charge_n(m, t, k) == (Magnetar { cooldown: (m.cooldown - k) as u32, ..m }) by {
        lemma_charge_idle(m, t, k);
    }
    lemma_charge_idle(m, t, m.cooldown as nat);
}

proof fn lemma_charge_idle(m: Magnetar, t: MagnetarTuning, k: nat)
    requires
        m.window == 0,
        m.pull == 0,
        k <= m.cooldown,
    ensures
        charge_n(m, t, k) == (Magnetar { cooldown: (m.cooldown - k) as u32, ..m }),
    decreases k,
{
    if k > 0 {
        lemma_charge_idle(m, t, (k - 1) as nat);
    }
}

/// One tick of the charge cycle. Returns whether the Magnetar is pulling the
/// player toward its core this tick.
pub fn magnetar_tick(m: &mut Magnetar, t: &MagnetarTuning) -> (pulling: bool)
    ensures
        (*final(m), pulling) == charge_step(*old(m), *t),
{
    if m.window > 0 {
        m.window = m.window - 1;
        false
    } else if m.pull > 0 {
        m.pull = m.pull - 1;
        if m.pull == 0 {
            m.window = t.window_ticks;
        }
        true
    } else if m.cooldown == 0 {
        m.cooldown = t.pull_interval;
        m.pull = t.pull_ticks;
        false
    } else {
        m.cooldown = m.cooldown - 1;
        false
    }
}

/// Every pull is followed by the full weakpoint window, and the core is never
/// open while the Magnetar pulls.
pub proof fn law_window_follows_pull(m: Magnetar, t: MagnetarTuning)
    ensures
        m.window == 0 && m.pull == 1 ==> charge_step(m, t).0.window == t.window_ticks,
        charge_step(m, t).1 ==> m.window == 0,
{
}

// ── The Flare Titan ─────────────────────────────────────────────────────────

#[derive(Clone, Copy, PartialEq, Eq, Debug, Structural)]
pub struct FlareTitanTuning {
    pub interval: u32,
    pub telegraph_ticks: u32,
    pub active_ticks: u32,
    pub damage_interval: u32,
    pub window_ticks: u32,
}

/// The flare loop: idle → warning → flare → weakpoint window.
#[derive(Clone, Copy, PartialEq, Eq, Debug, Structural)]
pub struct FlareCycle {
    pub window: u32,
    pub active: bool,
    pub active_ticks: u32,
    pub damage_timer: u32,
    pub warn: u32,
    pub cooldown: u32,
}

/// What a flare tick does beyond its own state.
#[derive(Clone, Copy, PartialEq, Eq, Debug, Structural)]
pub struct FlareEvents {
    /// The warning is showing (only meaningful on a warning tick).
    pub warning: bool,
    /// This tick was a warning tick.
    pub warned: bool,
    /// The flare ignited this tick.
    pub ignited: bool,
    /// The sheltered player's Solar Charge was granted or refreshed.
    pub charged: bool,
    /// The flare caught the player in the open: rope cut and a heart lost.
    pub burned: bool,
}

pub open spec fn flare_step(f: FlareCycle, sheltered: bool, t: FlareTitanTuning) -> (FlareCycle, FlareEvents) {
    let none = FlareEvents { warning: false, warned: false, ignited: false, charged: false, burned: false };
    if f.window > 0 {
        (FlareCycle { window: (f.window - 1) as u32, ..f }, none)
    } else if f.active {
        let at = dec(f.active_ticks);
        let dt = dec(f.damage_timer);
        let fire = dt == 0;
        let f1 = FlareCycle { active_ticks: at, damage_timer: if fire { t.damage_interval } else { dt }, ..f };
        let ev = FlareEvents { charged: sheltered, burned: fire && !sheltered, ..none };
        if at == 0 {
            (FlareCycle { active: false, window: t.window_ticks, ..f1 }, ev)
        } else {
            (f1, ev)
        }
    } else if f.warn > 0 {
        let w = (f.warn - 1) as u32;
        if w == 0 {
            (FlareCycle { warn: w, active: true, active_ticks: t.active_ticks, damage_timer: t.damage_interval, ..f },
             FlareEvents { warned: true, warning: false, ignited: true, ..none })
        } else {
            (FlareCycle { warn: w, ..f }, FlareEvents { warned: true, warning: true, ..none })
        }
    } else if f.cooldown == 0 {
        (FlareCycle { cooldown: t.interval, warn: t.telegraph_ticks, ..f }, none)
    } else {
        (FlareCycle { cooldown: (f.cooldown - 1) as u32, ..f }, none)
    }
}

/// One tick of the flare loop. During a flare, sheltering on a shielded node
/// grants Solar Charge; each flare pulse burns a player who is not sheltered:
/// a heart is lost and the rope, if any, is cut.
pub fn flare_tick(f: &mut FlareCycle, buff: &mut Buff, sheltered: bool, hooked: &mut bool, t: &FlareTitanTuning) -> (ev: FlareEvents)
    ensures
        (*final(f), ev) == flare_step(*old(f), sheltered, *t),
        *final(hooked) == (*old(hooked) && !ev.burned),
        *final(buff) == (if ev.charged { Buff { level: 1, timer: 600, absorbs: 3, ..*old(buff) } } else { *old(buff) }),
{
    let mut ev = FlareEvents { warning: false, warned: false, ignited: false, charged: false, burned: false };
    if f.window > 0 {
        f.window = f.window - 1;
    } else if f.active {
        f.active_ticks = f.active_ticks.saturating_sub(1);
        f.damage_timer = f.damage_timer.saturating_sub(1);
        if sheltered {
            grant_solar_charge(buff);
            ev.charged = true;
        }
        if f.damage_timer == 0 {
            f.damage_timer = t.damage_interval;
            if !sheltered {
                ev.burned = true;
                *hooked = false;
            }
        }
        if f.active_ticks == 0 {
            f.active = false;
            f.window = t.window_ticks;
        }
    } else if f.warn > 0 {
        f.warn = f.warn - 1;
        ev.warned = true;
        ev.warning = f.warn > 0;
        if f.warn == 0 {
            f.active = true;
            f.active_ticks = t.active_ticks;
            f.damage_timer = t.damage_interval;
            ev.ignited = true;
        }
    } else if f.cooldown == 0 {
        f.cooldown = t.interval;
        f.warn = t.telegraph_ticks;
    } else {
        f.cooldown = f.cooldown - 1;
    }
    ev
}

/// The flare loop's steps: an open weakpoint window runs down and nothing
/// else happens; a flare counts down and, when its last active tick runs
/// out, ends and opens the weakpoint window for its full length; each pulse
/// re-arms the pulse timer; a warning counts down and ignites a full flare
/// on its last tick; an idle Titan counts its cooldown down, and once it is
/// out re-arms it and starts the warning.
pub proof fn law_flare_cycle(f: FlareCycle, sheltered: bool, t: FlareTitanTuning)
    ensures
        ({
            let (n, ev) = flare_step(f, sheltered, t);
            &&& f.window > 0 ==> n == (FlareCycle { window: (f.window - 1) as u32, ..f })
                && !ev.burned && !ev.charged && !ev.ignited && !ev.warned
            &&& f.window == 0 && f.active && f.active_ticks <= 1 ==> !n.active && n.window == t.window_ticks
            &&& f.window == 0 && f.active && f.active_ticks > 1 ==> n.active && n.window == 0 && n.active_ticks == f.active_ticks - 1
            &&& f.window == 0 && f.active && f.damage_timer <= 1 ==> n.damage_timer == t.damage_interval
            &&& f.window == 0 && f.active && f.damage_timer > 1 ==> n.damage_timer == f.damage_timer - 1 && !ev.burned
            &&& f.window == 0 && !f.active && f.warn > 0 ==> ev.warned && n.warn == f.warn - 1
                && (f.warn == 1 <==> ev.ignited)
                && (f.warn == 1 ==> n.active && n.active_ticks == t.active_ticks && n.damage_timer == t.damage_interval)
                && (f.warn > 1 ==> !n.active)
            &&& f.window == 0 && !f.active && f.warn == 0 && f.cooldown > 0 ==> n == (FlareCycle { cooldown: (f.cooldown - 1) as u32, ..f })
            &&& f.window == 0 && !f.active && f.warn == 0 && f.cooldown == 0 ==> n == (FlareCycle { cooldown: t.interval, warn: t.telegraph_ticks, ..f })
        }),
{
}

/// During a flare a player must shelter: a sheltered player is never burned
/// and is charged on every flare tick, and each pulse burns a player who is
/// not sheltered, tethered or not.
pub proof fn law_shelter_or_burn(f: FlareCycle, t: FlareTitanTuning)
    ensures
        !flare_step(f, true, t).1.burned,
        f.window == 0 && f.active ==> flare_step(f, true, t).1.charged,
        f.window == 0 && f.active && f.damage_timer <= 1 ==> flare_step(f, false, t).1.burned,
{
}

// ── The Gravity Weaver ──────────────────────────────────────────────────────

#[derive(Clone, Copy, PartialEq, Eq, Debug, Structural)]
pub struct WeaverTuning {
    pub window_ticks: u32,
    pub flip_interval: u32,
}

/// The flip cycle: the core opens for a window right after each flip.
#[derive(Clone, Copy, PartialEq, Eq, Debug, Structural)]
pub struct Weaver {
    pub window: u32,
    pub flip_ticks: u32,
}

pub open spec fn weave_step(w: Weaver, t: WeaverTuning) -> (Weaver, bool) {
    if w.window > 0 {
        (Weaver { window: (w.window - 1) as u32, ..w }, false)
    } else if w.flip_ticks > 0 {
        (Weaver { flip_ticks: (w.flip_ticks - 1) as u32, ..w }, false)
    } else {
        (Weaver { window: t.window_ticks, flip_ticks: t.flip_interval }, true)
    }
}

/// One tick of the flip cycle. Returns whether the world inverts this tick.
pub fn weaver_tick(w: &mut Weaver, t: &WeaverTuning) -> (flip: bool)
    ensures
        (*final(w), flip) == weave_step(*old(w), *t),
{
    if w.window > 0 {
        w.window = w.window - 1;
        false
    } else if w.flip_ticks > 0 {
        w.flip_ticks = w.flip_ticks - 1;
        false
    } else {
        w.window = t.window_ticks;
        w.flip_ticks = t.flip_interval;
        true
    }
}

/// Every flip opens the core for the full window.
pub proof fn law_flip_opens_core(w: Weaver, t: WeaverTuning)
    ensures
        weave_step(w, t).1 ==> weave_step(w, t).0.window == t.window_ticks,
        weave_step(w, t).1 <==> (w.window == 0 && w.flip_ticks == 0),
{
}

/// The flip cycle's steps: an open window runs down, then the flip clock;
/// when both are out the world flips, the core opens for the full window and
/// the next flip is a full interval away.
pub proof fn law_weave_cycle(w: Weaver, t: WeaverTuning)
    ensures
        w.window > 0 ==> weave_step(w, t) == (Weaver { window: (w.window - 1) as u32, ..w }, false),
        w.window == 0 && w.flip_ticks > 0 ==> weave_step(w, t) == (Weaver { flip_ticks: (w.flip_ticks - 1) as u32, ..w }, false),
        w.window == 0 && w.flip_ticks == 0 ==> weave_step(w, t) == (Weaver { window: t.window_ticks, flip_ticks: t.flip_interval }, true),
{
}

} // verus!
