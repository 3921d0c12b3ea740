//! The Colossus: four parts (two hands, torso, head), each running its own
//! Idle → Telegraph → Attack → Recover cycle, with a pattern director that
//! keeps them from starting attacks together.

use vstd::prelude::*;
use crate::parts::{damage_part, hit_part, hittable, lemma_total_hp_le, part_hp, total_hp, BossPart, PartId, PartState};

verus! {

/// The Colossus's timings, in ticks.
#[derive(Clone, Copy, PartialEq, Eq, Debug, Structural)]
pub struct ColossusTuning {
    pub idle_ticks: u32,
    pub head_vuln_after: u32,
    pub head_rearm_gap: u32,
    pub telegraph_ticks: u32,
    pub beam_ticks: u32,
    pub beam_gap_ticks: u32,
    pub storm_ticks: u32,
    pub vent_ticks: u32,
    pub hold_ticks: u32,
    pub recover_ticks: u32,
    pub vent_vuln_delay: u32,
    pub vent_vuln_after: u32,
    pub clap_vuln_after: u32,
    pub attack_vuln_delay: u32,
    pub vuln_after_ticks: u32,
    pub pattern_cooldown: u32,
    pub comet_warn_total: u32,
    pub vent_hit_cooldown: u32,
}

/// Length of one beam of the head's burst: the sweep plus the pause after it.
pub open spec fn shot_len(t: ColossusTuning) -> int {
    t.beam_ticks + t.beam_gap_ticks
}

/// Idle length of part `i`. The head (index 3) is timed against its own
/// vulnerability window; the others get a base plus a small per-part jitter so
/// they never attack in lockstep.
pub open spec fn idle_len(i: usize, t: ColossusTuning) -> int {
    if i == 3 {
        t.head_vuln_after + t.head_rearm_gap
    } else {
        let k = (i as u32) as int;
        t.idle_ticks + (k % 2) * 26 + (k * 7) % 17
    }
}

pub fn colossus_idle_len(i: usize, t: &ColossusTuning) -> (n: u32)
    requires
        idle_len(i, *t) <= u32::MAX,
        i != 3 ==> (i as u32) * 7 <= u32::MAX,
    ensures
        n == idle_len(i, *t),
{
    if i == 3 {
        return t.head_vuln_after + t.head_rearm_gap;
    }
    let k = i as u32;
    t.idle_ticks + (k % 2) * 26 + (k * 7) % 17
}

/// What one part's cycle step asks of the rest of the fight.
#[derive(Clone, Copy, PartialEq, Eq, Debug, Structural)]
pub struct PartEvents {
    /// The part committed to an attack this tick (its target is locked now).
    pub began_attack: bool,
    /// The torso committed: the torso's attack counter advances.
    pub next_torso_attack: bool,
    /// The left hand committed, deciding for the pair: the hands' counter advances.
    pub next_hand_attack: bool,
    /// The head fires a fresh beam: re-aim and roll its curve.
    pub roll_beam_shot: bool,
    /// The head starts a burst: roll how many beams it fires.
    pub roll_burst: bool,
    /// The torso starts a meteor storm.
    pub start_storm: bool,
}

pub open spec fn no_events() -> PartEvents {
    PartEvents {
        began_attack: false,
        next_torso_attack: false,
        next_hand_attack: false,
        roll_beam_shot: false,
        roll_burst: false,
        start_storm: false,
    }
}

/// How long the part's Attack lasts: the head fires its whole burst, the torso
/// its storm or vent, and a hand lunges (`arrival` ticks) and then holds.
pub open spec fn attack_duration(p: BossPart, torso_storm: bool, arrival: u32, t: ColossusTuning) -> int {
    if p.id == PartId::Head {
        p.beam_shots * shot_len(t)
    } else if p.id == PartId::Torso {
        if torso_storm { t.storm_ticks as int } else { t.vent_ticks as int }
    } else {
        arrival + t.hold_ticks
    }
}

/// One tick of a part's attack cycle.
///
/// `cooldown_ok` is whether the pattern director lets a part commit this tick;
/// `torso_storm` whether the torso's current attack is the meteor storm;
/// `arrival` the ticks the part's lunge takes at the speed cap.
pub open spec fn cycle_step(
    p: BossPart,
    i: usize,
    cooldown_ok: bool,
    torso_storm: bool,
    arrival: u32,
    t: ColossusTuning,
) -> (BossPart, PartEvents) {
    let n = p.state_ticks + 1;
    match p.state {
        PartState::Idle => {
            if cooldown_ok && n >= idle_len(i, t) {
                (BossPart { state: PartState::Telegraph, state_ticks: 0, post_attack: false, ..p },
                 PartEvents {
                    began_attack: true,
                    next_torso_attack: p.id == PartId::Torso,
                    next_hand_attack: p.id == PartId::HandL,
                    ..no_events()
                })
            } else {
                (BossPart { state_ticks: n as u32, ..p }, no_events())
            }
        },
        PartState::Telegraph => {
            if n >= t.telegraph_ticks {
                (BossPart { state: PartState::Attack, state_ticks: 0, beam_hit_done: false, ..p },
                 PartEvents {
                    roll_beam_shot: p.id == PartId::Head,
                    roll_burst: p.id == PartId::Head,
                    start_storm: p.id == PartId::Torso && torso_storm,
                    ..no_events()
                })
            } else {
                (BossPart { state_ticks: n as u32, ..p }, no_events())
            }
        },
        PartState::Attack => {
            let roll = p.id == PartId::Head && n % shot_len(t) == 0 && n / shot_len(t) < p.beam_shots as int;
            let ev = PartEvents { roll_beam_shot: roll, ..no_events() };
            let q = if roll { BossPart { beam_hit_done: false, ..p } } else { p };
            if n >= attack_duration(p, torso_storm, arrival, t) {
                (BossPart { state: PartState::Recover, state_ticks: 0, post_attack: true, ..q }, ev)
            } else {
                (BossPart { state_ticks: n as u32, ..q }, ev)
            }
        },
        PartState::Recover => {
            if n >= t.recover_ticks {
                (BossPart { state: PartState::Idle, state_ticks: 0, ..p }, no_events())
            } else {
                (BossPart { state_ticks: n as u32, ..p }, no_events())
            }
        },
    }
}

/// What the arithmetic of one cycle step needs to stay within `u32`.
pub open spec fn step_fits(p: BossPart, i: usize, arrival: u32, t: ColossusTuning) -> bool {
    &&& p.state_ticks < u32::MAX
    &&& p.state == PartState::Idle ==> idle_len(i, t) <= u32::MAX
        && (i != 3 ==> (i as u32) * 7 <= u32::MAX)
    &&& p.state == PartState::Attack && p.id == PartId::Head ==>
        0 < shot_len(t) <= u32::MAX && p.beam_shots * shot_len(t) <= u32::MAX
    &&& p.state == PartState::Attack && p.id != PartId::Head && p.id != PartId::Torso ==>
        arrival + t.hold_ticks <= u32::MAX
}

/// Advance one living, unshielded part by a tick.
pub fn step_part(
    p: &mut BossPart,
    i: usize,
    cooldown_ok: bool,
    torso_storm: bool,
    arrival: u32,
    t: &ColossusTuning,
) -> (ev: PartEvents)
    requires
        step_fits(*old(p), i, arrival, *t),
    ensures
        (*final(p), ev) == cycle_step(*old(p), i, cooldown_ok, torso_storm, arrival, *t),
{
    let n = p.state_ticks + 1;
    match p.state {
        PartState::Idle => {
            if cooldown_ok && n >= colossus_idle_len(i, t) {
                p.state = PartState::Telegraph;
                p.state_ticks = 0;
                p.post_attack = false;
                PartEvents {
                    began_attack: true,
                    next_torso_attack: p.id == PartId::Torso,
                    next_hand_attack: p.id == PartId::HandL,
                    roll_beam_shot: false,
                    roll_burst: false,
                    start_storm: false,
                }
            } else {
                p.state_ticks = n;
                PartEvents {
                    began_attack: false,
                    next_torso_attack: false,
                    next_hand_attack: false,
                    roll_beam_shot: false,
                    roll_burst: false,
                    start_storm: false,
                }
            }
        },
        PartState::Telegraph => {
            if n >= t.telegraph_ticks {
                p.state = PartState::Attack;
                p.state_ticks = 0;
                p.beam_hit_done = false;
                let head = p.id == PartId::Head;
                PartEvents {
                    began_attack: false,
                    next_torso_attack: false,
                    next_hand_attack: false,
                    roll_beam_shot: head,
                    roll_burst: head,
                    start_storm: p.id == PartId::Torso && torso_storm,
                }
            } else {
                p.state_ticks = n;
                PartEvents {
                    began_attack: false,
                    next_torso_attack: false,
                    next_hand_attack: false,
                    roll_beam_shot: false,
                    roll_burst: false,
                    start_storm: false,
                }
            }
        },
        PartState::Attack => {
            let head = p.id == PartId::Head;
            let mut roll = false;
            let duration: u32;
            if head {
                let shot = t.beam_ticks + t.beam_gap_ticks;
                roll = n % shot == 0 && n / shot < p.beam_shots;
                proof {
                    vstd::arithmetic::mul::lemma_mul_is_commutative(p.beam_shots as int, shot as int);
                }
                duration = p.beam_shots * shot;
            } else if p.id == PartId::Torso {
                duration = if torso_storm { t.storm_ticks } else { t.vent_ticks };
            } else {
                duration = arrival + t.hold_ticks;
            }
            if roll {
                p.beam_hit_done = false;
            }
            if n >= duration {
                p.state = PartState::Recover;
                p.state_ticks = 0;
                p.post_attack = true;
            } else {
                p.state_ticks = n;
            }
            PartEvents {
                began_attack: false,
                next_torso_attack: false,
                next_hand_attack: false,
                roll_beam_shot: roll,
                roll_burst: false,
                start_storm: false,
            }
        },
        PartState::Recover => {
            if n >= t.recover_ticks {
                p.state = PartState::Idle;
                p.state_ticks = 0;
            } else {
                p.state_ticks = n;
            }
            PartEvents {
                began_attack: false,
                next_torso_attack: false,
                next_hand_attack: false,
                roll_beam_shot: false,
                roll_burst: false,
                start_storm: false,
            }
        },
    }
}

/// Whether a part's weakpoint is open this tick.
///
/// * The torso is never hittable around a meteor storm (a pure dodge phase);
///   around a core vent it opens part-way into the rotation and stays open for
///   a while after, counted from the end of the vent.
/// * After a clap the hands open only once home, for a short window.
/// * Otherwise a lunging part opens a little after it arrives, stays open
///   through its recovery, and for a window after getting home. The head is
///   never open while it fires.
pub open spec fn weak_open(p: BossPart, torso_storm: bool, hand_clap: bool, arrival: u32, t: ColossusTuning) -> bool {
    let arr: int = if p.id == PartId::Head { 0 } else { arrival as int };
    let vuln_after: int = if p.id == PartId::Head { t.head_vuln_after as int } else { t.vuln_after_ticks as int };
    if p.id == PartId::Torso {
        if torso_storm {
            false
        } else {
            match p.state {
                PartState::Attack => p.state_ticks >= t.vent_vuln_delay,
                PartState::Recover => p.state_ticks < t.vent_vuln_after,
                PartState::Idle => p.post_attack && t.recover_ticks + p.state_ticks < t.vent_vuln_after,
                PartState::Telegraph => false,
            }
        }
    } else if p.id == PartId::HandL || p.id == PartId::HandR {
        if hand_clap {
            p.post_attack && p.state == PartState::Idle && p.state_ticks < t.clap_vuln_after
        } else {
            match p.state {
                PartState::Attack => p.state_ticks >= arr + t.attack_vuln_delay,
                PartState::Recover => true,
                PartState::Idle => p.post_attack && p.state_ticks < vuln_after,
                PartState::Telegraph => false,
            }
        }
    } else {
        match p.state {
            PartState::Attack => p.id != PartId::Head && p.state_ticks >= arr + t.attack_vuln_delay,
            PartState::Recover => true,
            PartState::Idle => p.post_attack && p.state_ticks < vuln_after,
            PartState::Telegraph => false,
        }
    }
}

pub fn weakpoint_open(p: &BossPart, torso_storm: bool, hand_clap: bool, arrival: u32, t: &ColossusTuning) -> (open: bool)
    ensures
        open == weak_open(*p, torso_storm, hand_clap, arrival, *t),
{
    let ticks = p.state_ticks as u64;
    let arr: u64 = if p.id == PartId::Head { 0 } else { arrival as u64 };
    let vuln_after: u64 = if p.id == PartId::Head { t.head_vuln_after as u64 } else { t.vuln_after_ticks as u64 };
    if p.id == PartId::Torso {
        if torso_storm {
            false
        } else {
            match p.state {
                PartState::Attack => p.state_ticks >= t.vent_vuln_delay,
                PartState::Recover => p.state_ticks < t.vent_vuln_after,
                PartState::Idle => p.post_attack && (t.recover_ticks as u64) + ticks < t.vent_vuln_after as u64,
                PartState::Telegraph => false,
            }
        }
    } else if p.id == PartId::HandL || p.id == PartId::HandR {
        if hand_clap {
            p.post_attack && p.state == PartState::Idle && p.state_ticks < t.clap_vuln_after
        } else {
            match p.state {
                PartState::Attack => ticks >= arr + t.attack_vuln_delay as u64,
                PartState::Recover => true,
                PartState::Idle => p.post_attack && ticks < vuln_after,
                PartState::Telegraph => false,
            }
        }
    } else {
        match p.state {
            PartState::Attack => p.id != PartId::Head && ticks >= arr + t.attack_vuln_delay as u64,
            PartState::Recover => true,
            PartState::Idle => p.post_attack && ticks < vuln_after,
            PartState::Telegraph => false,
        }
    }
}

/// What a shielded part does each tick: sit idle, closed, with no pending
/// post-attack window (so the tick its shield drops it is not already open).
pub open spec fn held(p: BossPart) -> BossPart {
    BossPart { weakpoint_open: false, state: PartState::Idle, state_ticks: 0, post_attack: false, ..p }
}

pub fn hold_shielded(p: &mut BossPart)
    ensures
        *final(p) == held(*old(p)),
{
    p.weakpoint_open = false;
    p.state = PartState::Idle;
    p.state_ticks = 0;
    p.post_attack = false;
}

/// The head's burst size: the rolled count, clamped to the allowed range.
pub fn set_burst(p: &mut BossPart, rolled: u32, min: u32, max: u32)
    requires
        min <= max,
    ensures
        *final(p) == (BossPart {
            beam_shots: if rolled < min { min } else if rolled > max { max } else { rolled },
            ..*old(p)
        }),
{
    p.beam_shots = if rolled < min { min } else if rolled > max { max } else { rolled };
}

/// What is drawn for a part this tick.
#[derive(Clone, Copy, PartialEq, Eq, Debug, Structural)]
pub struct PartFlags {
    /// The landing zone (or, for the head, its gravity well) is shown.
    pub zone_visible: bool,
    /// The zone is live: the strike is landing, or a beam is sweeping.
    pub zone_solid: bool,
    /// The attack path is telegraphed.
    pub path_visible: bool,
    /// The torso is summoning a meteor storm.
    pub storm: bool,
    /// The torso is venting.
    pub vent: bool,
    /// Head only: a beam of the burst is sweeping (not the gap between beams).
    pub beam_firing: bool,
}

pub open spec fn part_flags(p: BossPart, torso_storm: bool, t: ColossusTuning) -> PartFlags {
    let performing = p.state == PartState::Telegraph || p.state == PartState::Attack;
    let storm = p.id == PartId::Torso && torso_storm && performing;
    let vent = p.id == PartId::Torso && !torso_storm && performing;
    let torso_frame = storm || vent;
    let firing = p.id == PartId::Head && p.state == PartState::Attack && (p.state_ticks as int) % shot_len(t) < t.beam_ticks;
    PartFlags {
        zone_visible: !torso_frame && performing,
        zone_solid: !torso_frame && (if p.id == PartId::Head { firing } else { p.state == PartState::Attack }),
        path_visible: !torso_frame && (if p.id == PartId::Head {
            p.state == PartState::Telegraph || firing
        } else {
            p.state == PartState::Telegraph
        }),
        storm,
        vent,
        beam_firing: firing,
    }
}

/// What a part shows: nothing while idle or recovering; a telegraphing
/// part (other than the torso) shows its zone and its path; a lunging part
/// shows its zone live; the head's zone is live only while a beam of its
/// burst sweeps, which is the first `beam_ticks` of each shot; the torso
/// shows no zone, only whether it summons a storm or vents.
pub proof fn law_what_a_part_shows(p: BossPart, storm: bool, t: ColossusTuning)
    ensures
        ({
            let f = part_flags(p, storm, t);
            let performing = p.state == PartState::Telegraph || p.state == PartState::Attack;
            &&& !performing ==> !f.zone_visible && !f.zone_solid && !f.path_visible && !f.storm && !f.vent && !f.beam_firing
            &&& p.id == PartId::Torso ==> !f.zone_visible && !f.zone_solid && !f.path_visible
                && f.storm == (performing && storm) && f.vent == (performing && !storm)
            &&& p.id != PartId::Torso ==> !f.storm && !f.vent
            &&& p.id != PartId::Torso && p.state == PartState::Telegraph ==> f.zone_visible && f.path_visible && !f.zone_solid
            &&& p.id != PartId::Torso && p.id != PartId::Head && p.state == PartState::Attack
                ==> f.zone_visible && f.zone_solid && !f.path_visible
            &&& p.id == PartId::Head && p.state == PartState::Attack ==> f.zone_visible
                && f.zone_solid == f.beam_firing && f.path_visible == f.beam_firing
                && f.beam_firing == ((p.state_ticks as int) % (t.beam_ticks + t.beam_gap_ticks) < t.beam_ticks)
            &&& p.id != PartId::Head ==> !f.beam_firing
        }),
{
}

pub fn frame_flags(p: &BossPart, torso_storm: bool, t: &ColossusTuning) -> (f: PartFlags)
    requires
        p.id == PartId::Head && p.state == PartState::Attack ==> 0 < shot_len(*t) <= u32::MAX,
    ensures
        f == part_flags(*p, torso_storm, *t),
{
    let performing = p.state == PartState::Telegraph || p.state == PartState::Attack;
    let storm = p.id == PartId::Torso && torso_storm && performing;
    let vent = p.id == PartId::Torso && !torso_storm && performing;
    let torso_frame = storm || vent;
    let firing = if p.id == PartId::Head && p.state == PartState::Attack {
        p.state_ticks % (t.beam_ticks + t.beam_gap_ticks) < t.beam_ticks
    } else {
        false
    };
    PartFlags {
        zone_visible: !torso_frame && performing,
        zone_solid: !torso_frame && (if p.id == PartId::Head { firing } else { p.state == PartState::Attack }),
        path_visible: !torso_frame && (if p.id == PartId::Head {
            p.state == PartState::Telegraph || firing
        } else {
            p.state == PartState::Telegraph
        }),
        storm,
        vent,
        beam_firing: firing,
    }
}

/// The head's gravity well forces an untether only in its first half second,
/// and only while the beam is not yet live, so the player can re-tether.
pub fn well_unhooks(flags: &PartFlags, state_ticks: u32, hooked: bool) -> (cut: bool)
    ensures
        cut == (flags.zone_visible && !flags.zone_solid && state_ticks < 30 && hooked),
{
    flags.zone_visible && !flags.zone_solid && state_ticks < 30 && hooked
}

/// Whether a part's strike lands this tick, given whether its lunge has just
/// physically reached the telegraphed zone. The head and torso attack from
/// where they stand and never strike here; during a clap the left hand
/// resolves the hit for the pair.
pub open spec fn strikes(p: BossPart, hand_clap: bool, arrived: bool) -> bool {
    &&& p.state == PartState::Attack
    &&& p.id != PartId::Head
    &&& p.id != PartId::Torso
    &&& !(hand_clap && p.id == PartId::HandR)
    &&& arrived
}

/// Only a lunging part that has reached its zone strikes: the head and the
/// torso attack from where they stand and never strike this way, and in a
/// clap only the left hand's strike counts.
pub proof fn law_who_strikes(p: BossPart, hand_clap: bool, arrived: bool)
    ensures
        strikes(p, hand_clap, arrived) ==> p.state == PartState::Attack && arrived,
        p.id == PartId::Head || p.id == PartId::Torso ==> !strikes(p, hand_clap, arrived),
        hand_clap && p.id == PartId::HandR ==> !strikes(p, hand_clap, arrived),
        (p.id == PartId::HandL || p.id == PartId::Seg || p.id == PartId::Tail) && p.state == PartState::Attack && arrived
            ==> strikes(p, hand_clap, arrived),
{
}

pub fn part_strikes(p: &BossPart, hand_clap: bool, arrived: bool) -> (s: bool)
    ensures
        s == strikes(*p, hand_clap, arrived),
{
    p.state == PartState::Attack && p.id != PartId::Head && p.id != PartId::Torso
        && !(hand_clap && p.id == PartId::HandR) && arrived
}

/// What a hit does to the player.
#[derive(Clone, Copy, PartialEq, Eq, Debug, Structural)]
pub struct HitOutcome {
    /// The player is thrown hard.
    pub thrown: bool,
    /// The rope is cut.
    pub unhook: bool,
    /// The buff ate the hit: one absorption is spent.
    pub spend_absorb: bool,
    /// A heart is lost.
    pub lose_heart: bool,
}

/// A strike that caught the player (or missed): a buffed player is thrown,
/// torn off the rope and spends an absorption; an unbuffed one loses a heart.
pub fn resolve_strike(hit: bool, buffed: bool, hooked: bool) -> (o: HitOutcome)
    ensures
        o.thrown == hit,
        o.unhook == (hit && buffed && hooked),
        o.spend_absorb == (hit && buffed),
        o.lose_heart == (hit && !buffed),
{
    HitOutcome {
        thrown: hit,
        unhook: hit && buffed && hooked,
        spend_absorb: hit && buffed,
        lose_heart: hit && !buffed,
    }
}

/// The tick on which a clap lands: the later of the two hands' arrivals (the
/// nearer hand waits at the point and the second slams into it).
pub fn clap_tick(left: Option<u32>, right: Option<u32>) -> (n: u32)
    ensures
        n == (match (left, right) {
            (Some(a), Some(b)) => if a >= b { a } else { b },
            (Some(a), None) => a,
            (None, Some(b)) => b,
            (None, None) => 0u32,
        }),
{
    match (left, right) {
        (Some(a), Some(b)) => if a >= b { a } else { b },
        (Some(a), None) => a,
        (None, Some(b)) => b,
        (None, None) => 0,
    }
}

/// The hand clap takes two hands: both must be alive and unshielded.
pub open spec fn hand_ready(p: BossPart) -> bool {
    (p.id == PartId::HandL || p.id == PartId::HandR) && p.alive && !p.shielded
}

pub open spec fn count_ready_hands(parts: Seq<BossPart>) -> nat
    decreases parts.len(),
{
    if parts.len() == 0 {
        0
    } else {
        count_ready_hands(parts.drop_last()) + if hand_ready(parts.last()) { 1nat } else { 0nat }
    }
}

pub fn both_hands_ready(parts: &Vec<BossPart>) -> (ready: bool)
    ensures
        ready == (count_ready_hands(parts@) == 2),
{
    let mut count: usize = 0;
    let mut i: usize = 0;
    while i < parts.len()
        invariant
            0 <= i <= parts.len(),
            count == count_ready_hands(parts@.take(i as int)),
            count <= i,
        decreases parts.len() - i,
    {
        proof {
            assert(parts@.take(i + 1).drop_last() =~= parts@.take(i as int));
        }
        let p = parts[i];
        if (p.id == PartId::HandL || p.id == PartId::HandR) && p.alive && !p.shielded {
            count = count + 1;
        }
        i = i + 1;
    }
    proof {
        assert(parts@.take(parts.len() as int) =~= parts@);
    }
    count == 2
}

/// The Colossus's fight-wide counters.
#[derive(Clone, Copy, PartialEq, Eq, Debug, Structural)]
pub struct ColossusCounters {
    /// The pattern director: while non-zero no part may commit to an attack.
    pub pattern_cooldown: u32,
    pub part_invuln: u32,
    /// The body holds still while a storm's meteors are still to come.
    pub meteor_lock: u32,
    /// Which attack the torso is on (advanced at each torso commit).
    pub torso_attack: u32,
    /// Which attack the hands are on (advanced at each left-hand commit).
    pub hand_attack: u32,
    pub contact_cooldown: u32,
    pub vent_hit_cooldown: u32,
}

pub open spec fn dec(x: u32) -> u32 {
    if x > 0 { (x - 1) as u32 } else { x }
}

/// The per-tick countdowns at the start of a Colossus frame.
pub fn tick_frame_counters(c: &mut ColossusCounters)
    ensures
        *final(c) == (ColossusCounters {
            pattern_cooldown: dec(old(c).pattern_cooldown),
            part_invuln: dec(old(c).part_invuln),
            meteor_lock: dec(old(c).meteor_lock),
            ..*old(c)
        }),
{
    if c.pattern_cooldown > 0 {
        c.pattern_cooldown = c.pattern_cooldown - 1;
    }
    if c.part_invuln > 0 {
        c.part_invuln = c.part_invuln - 1;
    }
    if c.meteor_lock > 0 {
        c.meteor_lock = c.meteor_lock - 1;
    }
}

/// `x + 1`, wrapping to zero past the top of `u32`.
pub open spec fn wrap_inc(x: u32) -> u32 {
    if x == u32::MAX { 0 } else { (x + 1) as u32 }
}

/// The counters after a part's events are applied.
pub open spec fn counters_after(c: ColossusCounters, ev: PartEvents, t: ColossusTuning) -> ColossusCounters {
    ColossusCounters {
        torso_attack: if ev.next_torso_attack { wrap_inc(c.torso_attack) } else { c.torso_attack },
        hand_attack: if ev.next_hand_attack { wrap_inc(c.hand_attack) } else { c.hand_attack },
        pattern_cooldown: if ev.began_attack { t.pattern_cooldown } else { c.pattern_cooldown },
        meteor_lock: if ev.start_storm { (t.storm_ticks + t.comet_warn_total) as u32 } else { c.meteor_lock },
        ..c
    }
}

/// What a part's events do to the fight's counters: a torso commit moves
/// the torso to its next attack and a left-hand commit the hands to theirs
/// (each wrapping past the top); any commit arms the pattern director for
/// its full cooldown; a storm holds the body still for the storm and the
/// meteors' warnings. Nothing else changes.
pub proof fn law_events_drive_counters(c: ColossusCounters, ev: PartEvents, t: ColossusTuning)
    ensures
        ({
            let n = counters_after(c, ev, t);
            &&& n.torso_attack == (if ev.next_torso_attack { if c.torso_attack == u32::MAX { 0 } else { c.torso_attack + 1 } } else { c.torso_attack as int })
            &&& n.hand_attack == (if ev.next_hand_attack { if c.hand_attack == u32::MAX { 0 } else { c.hand_attack + 1 } } else { c.hand_attack as int })
            &&& n.pattern_cooldown == (if ev.began_attack { t.pattern_cooldown } else { c.pattern_cooldown })
            &&& ev.start_storm ==> n.meteor_lock == (t.storm_ticks + t.comet_warn_total) as u32
            &&& !ev.start_storm ==> n.meteor_lock == c.meteor_lock
            &&& n.part_invuln == c.part_invuln && n.contact_cooldown == c.contact_cooldown
            &&& n.vent_hit_cooldown == c.vent_hit_cooldown
        }),
{
}

/// Apply one part's events to the fight: advance the attack counters, arm the
/// pattern director, and hold the body still for a storm. Returns whether a
/// clap begins, which `hands_ready` and `clap_next` (whether the advanced hand
/// counter selects the clap) decide.
pub fn apply_part_events(
    c: &mut ColossusCounters,
    ev: &PartEvents,
    t: &ColossusTuning,
    hands_ready: bool,
    clap_next: bool,
) -> (begin_clap: bool)
    requires
        ev.start_storm ==> t.storm_ticks + t.comet_warn_total <= u32::MAX,
    ensures
        *final(c) == counters_after(*old(c), *ev, *t),
        begin_clap == (ev.next_hand_attack && hands_ready && clap_next),
{
    if ev.next_torso_attack {
        c.torso_attack = c.torso_attack.wrapping_add(1);
    }
    let mut begin_clap = false;
    if ev.next_hand_attack {
        c.hand_attack = c.hand_attack.wrapping_add(1);
        begin_clap = hands_ready && clap_next;
    }
    if ev.began_attack {
        c.pattern_cooldown = t.pattern_cooldown;
    }
    if ev.start_storm {
        c.meteor_lock = t.storm_ticks + t.comet_warn_total;
    }
    begin_clap
}

/// A clap drags the right hand into the left hand's telegraph on the same tick.
pub fn drag_into_clap(p: &mut BossPart)
    ensures
        *final(p) == (BossPart { state: PartState::Telegraph, state_ticks: 0, ..*old(p) }),
{
    p.state = PartState::Telegraph;
    p.state_ticks = 0;
}

/// Body contact: a part that is not open hurts to touch, but a cooldown keeps
/// one touch from draining every heart. Returns whether the touch counts.
pub fn contact_step(c: &mut ColossusCounters, touching: bool, dead: bool) -> (hit: bool)
    ensures
        hit == (dec(old(c).contact_cooldown) == 0 && !dead && touching),
        *final(c) == (ColossusCounters {
            contact_cooldown: if hit { 45 } else { dec(old(c).contact_cooldown) },
            ..*old(c)
        }),
{
    if c.contact_cooldown > 0 {
        c.contact_cooldown = c.contact_cooldown - 1;
    }
    let hit = c.contact_cooldown == 0 && !dead && touching;
    if hit {
        c.contact_cooldown = 45;
    }
    hit
}

/// A counted body contact: the player is pushed off; without the buff it costs
/// a heart, with it the rope is torn off instead.
pub fn contact_outcome(hit: bool, buffed: bool) -> (o: HitOutcome)
    ensures
        o == (HitOutcome { thrown: hit, unhook: hit && buffed, spend_absorb: false, lose_heart: hit && !buffed }),
{
    HitOutcome { thrown: hit, unhook: hit && buffed, spend_absorb: false, lose_heart: hit && !buffed }
}

/// The core vent's spokes damage on contact, with a cooldown. A hit throws the
/// player clear and cuts the rope; the buff spends an absorption instead of a
/// heart.
pub fn vent_step(
    c: &mut ColossusCounters,
    venting: bool,
    in_spokes: bool,
    buffed: bool,
    dead: bool,
    t: &ColossusTuning,
) -> (o: HitOutcome)
    ensures
        ({
            let cd = dec(old(c).vent_hit_cooldown);
            let hit = venting && in_spokes && cd == 0;
            &&& o == (HitOutcome { thrown: hit, unhook: hit, spend_absorb: hit && buffed, lose_heart: hit && !buffed && !dead })
            &&& *final(c) == (ColossusCounters {
                vent_hit_cooldown: if hit { t.vent_hit_cooldown } else { cd },
                ..*old(c)
            })
        }),
{
    if c.vent_hit_cooldown > 0 {
        c.vent_hit_cooldown = c.vent_hit_cooldown - 1;
    }
    let hit = venting && in_spokes && c.vent_hit_cooldown == 0;
    if hit {
        c.vent_hit_cooldown = t.vent_hit_cooldown;
    }
    HitOutcome { thrown: hit, unhook: hit, spend_absorb: hit && buffed, lose_heart: hit && !buffed && !dead }
}

/// The torso is venting: it is alive, unshielded and attacking, the vent is
/// its current attack, and the fight is running.
pub open spec fn venting(parts: Seq<BossPart>, fight_running: bool, vent_selected: bool) -> bool {
    &&& fight_running
    &&& vent_selected
    &&& exists|j: int| 0 <= j < parts.len() && torso_attacking(#[trigger] parts[j])
}

pub open spec fn torso_attacking(p: BossPart) -> bool {
    p.id == PartId::Torso && p.alive && !p.shielded && p.state == PartState::Attack
}

pub fn torso_venting(parts: &Vec<BossPart>, fight_running: bool, vent_selected: bool) -> (v: bool)
    ensures
        v == venting(parts@, fight_running, vent_selected),
{
    if !fight_running || !vent_selected {
        return false;
    }
    let mut i: usize = 0;
    while i < parts.len()
        invariant
            0 <= i <= parts.len(),
            fight_running && vent_selected,
            forall|j: int| 0 <= j < i ==> !torso_attacking(#[trigger] parts@[j]),
        decreases parts.len() - i,
    {
        let p = parts[i];
        if p.id == PartId::Torso && p.alive && !p.shielded && p.state == PartState::Attack {
            proof {
                assert(torso_attacking(parts@[i as int]));
            }
            return true;
        }
        i = i + 1;
    }
    false
}

// ── Laws ────────────────────────────────────────────────────────────────────

/// The pattern director: within one frame, once a part commits to an attack no
/// later part can commit by its own timer, so two parts never start together.
pub proof fn law_one_commit_per_frame(
    c: ColossusCounters,
    p1: BossPart, i1: usize, storm1: bool, arr1: u32,
    p2: BossPart, i2: usize, storm2: bool, arr2: u32,
    t: ColossusTuning,
)
    requires
        t.pattern_cooldown > 0,
        cycle_step(p1, i1, c.pattern_cooldown == 0, storm1, arr1, t).1.began_attack,
    ensures
        !cycle_step(p2, i2, counters_after(c, cycle_step(p1, i1, c.pattern_cooldown == 0, storm1, arr1, t).1, t)
            .pattern_cooldown == 0, storm2, arr2, t).1.began_attack,
{
}

/// A part only ever moves one step around Idle → Telegraph → Attack → Recover → Idle.
pub proof fn law_cycle_order(p: BossPart, i: usize, ok: bool, storm: bool, arr: u32, t: ColossusTuning)
    ensures
        ({
            let q = cycle_step(p, i, ok, storm, arr, t).0;
            q.state == p.state || match p.state {
                PartState::Idle => q.state == PartState::Telegraph,
                PartState::Telegraph => q.state == PartState::Attack,
                PartState::Attack => q.state == PartState::Recover,
                PartState::Recover => q.state == PartState::Idle,
            }
        }),
        cycle_step(p, i, ok, storm, arr, t).0.id == p.id,
        cycle_step(p, i, ok, storm, arr, t).0.hp == p.hp,
        cycle_step(p, i, ok, storm, arr, t).0.alive == p.alive,
        cycle_step(p, i, ok, storm, arr, t).0.shielded == p.shielded,
{
}

/// How long each phase of a part's cycle lasts, and what leaving it does.
/// An idle part commits once its idle time is up and the director allows,
/// dropping any post-attack window; a telegraph lasts `telegraph_ticks`, and
/// its end starts the attack (the torso's storm if that is its attack, the
/// head's burst and first beam); an attack lasts the hand's lunge and hold,
/// the torso's storm or vent, or the head's whole burst, and its end opens
/// the post-attack window; a recovery lasts `recover_ticks`. Short of its
/// end, a phase only counts one more tick.
pub proof fn law_cycle_timing(p: BossPart, i: usize, ok: bool, storm: bool, arr: u32, t: ColossusTuning)
    requires
        p.state_ticks < u32::MAX,
    ensures
        ({
            let (q, ev) = cycle_step(p, i, ok, storm, arr, t);
            let n = p.state_ticks + 1;
            let ends = match p.state {
                PartState::Idle => ok && n >= idle_len(i, t),
                PartState::Telegraph => n >= t.telegraph_ticks,
                PartState::Attack => n >= (if p.id == PartId::Head {
                    p.beam_shots * (t.beam_ticks + t.beam_gap_ticks)
                } else if p.id == PartId::Torso {
                    if storm { t.storm_ticks as int } else { t.vent_ticks as int }
                } else {
                    arr + t.hold_ticks
                }),
                PartState::Recover => n >= t.recover_ticks,
            };
            &&& ends ==> q.state_ticks == 0
            &&& !ends ==> q.state_ticks == n && q.state == p.state
            &&& ev.began_attack <==> (p.state == PartState::Idle && ends)
            &&& ev.next_torso_attack <==> (ev.began_attack && p.id == PartId::Torso)
            &&& ev.next_hand_attack <==> (ev.began_attack && p.id == PartId::HandL)
            &&& ev.start_storm <==> (p.state == PartState::Telegraph && ends && p.id == PartId::Torso && storm)
            &&& ev.roll_burst <==> (p.state == PartState::Telegraph && ends && p.id == PartId::Head)
            &&& p.state == PartState::Idle && ends ==> q.state == PartState::Telegraph && !q.post_attack
            &&& p.state == PartState::Telegraph && ends ==> q.state == PartState::Attack && !q.beam_hit_done
            &&& p.state == PartState::Attack && ends ==> q.state == PartState::Recover && q.post_attack
            &&& p.state == PartState::Recover && ends ==> q.state == PartState::Idle && q.post_attack == p.post_attack
            &&& p.state != PartState::Attack ==> q.beam_shots == p.beam_shots
        }),
{
}

/// Each part idles for its own time, so the hands never attack in lockstep:
/// the head waits out its vulnerability and a re-arm gap; the others wait
/// the base time plus a small jitter of their own, and the two hands' times
/// differ.
pub proof fn law_idle_times(t: ColossusTuning)
    ensures
        idle_len(3, t) == t.head_vuln_after + t.head_rearm_gap,
        idle_len(0, t) == t.idle_ticks,
        idle_len(1, t) == t.idle_ticks + 33,
        idle_len(2, t) == t.idle_ticks + 14,
        forall|i: usize| i != 3 ==> t.idle_ticks <= #[trigger] idle_len(i, t) <= t.idle_ticks + 42,
{
    assert forall|i: usize| i != 3 implies t.idle_ticks <= #[trigger] idle_len(i, t) <= t.idle_ticks + 42 by {
        let k = (i as u32) as int;
        assert(k % 2 <= 1);
        assert((k * 7) % 17 <= 16);
    }
}

/// The head is never hittable while it fires its gaze.
pub proof fn law_head_closed_while_firing(p: BossPart, storm: bool, clap: bool, arr: u32, t: ColossusTuning)
    requires
        p.id == PartId::Head,
        p.state == PartState::Attack,
    ensures
        !weak_open(p, storm, clap, arr, t),
{
}

/// A meteor storm is a pure dodge phase: the torso is not hittable at all while
/// the storm is its attack.
pub proof fn law_storm_is_dodge_only(p: BossPart, clap: bool, arr: u32, t: ColossusTuning)
    requires
        p.id == PartId::Torso,
    ensures
        !weak_open(p, true, clap, arr, t),
{
}

/// A part that was shielded is not open the moment its shield drops: it has
/// not attacked, so there is no post-attack window to inherit.
pub proof fn law_unshielded_part_starts_closed(p: BossPart, storm: bool, clap: bool, arr: u32, t: ColossusTuning)
    ensures
        !weak_open(BossPart { shielded: false, ..held(p) }, storm, clap, arr, t),
{
}

/// A part's weak point is never open while it telegraphs.
pub proof fn law_closed_while_telegraphing(p: BossPart, storm: bool, clap: bool, arr: u32, t: ColossusTuning)
    requires
        p.state == PartState::Telegraph,
    ensures
        !weak_open(p, storm, clap, arr, t),
{
}

/// A part that has attacked stays open through its whole recovery: a hand
/// that lunged (outside a clap), the head after its burst, and any other
/// lunging part, whatever the tick of the recovery. A clap's hands open only
/// once home, idle after the attack and within the clap's window.
pub proof fn law_open_through_recovery(p: BossPart, storm: bool, clap: bool, arr: u32, t: ColossusTuning)
    ensures
        p.state == PartState::Recover && p.id != PartId::Torso && !(clap && (p.id == PartId::HandL || p.id == PartId::HandR))
            ==> weak_open(p, storm, clap, arr, t),
        (p.id == PartId::HandL || p.id == PartId::HandR) && clap ==> (weak_open(p, storm, clap, arr, t)
            <==> (p.state == PartState::Idle && p.post_attack && p.state_ticks < t.clap_vuln_after)),
{
}

/// A lunging part (not the torso, not the head, not a hand in a clap) opens
/// `attack_vuln_delay` ticks after it arrives and stays open for the rest of
/// the attack; once home it stays open only for a window after the attack,
/// and never opens idle without having attacked.
pub proof fn law_lunge_window(p: BossPart, storm: bool, clap: bool, arr: u32, t: ColossusTuning)
    requires
        p.id != PartId::Torso,
        p.id != PartId::Head,
        !(clap && (p.id == PartId::HandL || p.id == PartId::HandR)),
    ensures
        p.state == PartState::Attack ==> (weak_open(p, storm, clap, arr, t) <==> p.state_ticks >= arr + t.attack_vuln_delay),
        p.state == PartState::Attack && weak_open(p, storm, clap, arr, t) && p.state_ticks < u32::MAX ==>
            weak_open(BossPart { state_ticks: (p.state_ticks + 1) as u32, ..p }, storm, clap, arr, t),
        p.state == PartState::Idle ==> (weak_open(p, storm, clap, arr, t) <==> (p.post_attack && p.state_ticks < t.vuln_after_ticks)),
{
}

/// The head is open only after its burst: through its recovery, then idle
/// for `head_vuln_after` ticks.
pub proof fn law_head_window(p: BossPart, storm: bool, clap: bool, arr: u32, t: ColossusTuning)
    requires
        p.id == PartId::Head,
    ensures
        weak_open(p, storm, clap, arr, t) <==> (p.state == PartState::Recover
            || (p.state == PartState::Idle && p.post_attack && p.state_ticks < t.head_vuln_after)),
{
}

/// Around a core vent the torso opens `vent_vuln_delay` ticks into the vent
/// and stays open until `vent_vuln_after` ticks after the vent ends (its
/// recovery and the idle ticks after it together); a storm never opens it.
pub proof fn law_vent_window(p: BossPart, clap: bool, arr: u32, t: ColossusTuning)
    requires
        p.id == PartId::Torso,
    ensures
        p.state == PartState::Attack ==> (weak_open(p, false, clap, arr, t) <==> p.state_ticks >= t.vent_vuln_delay),
        p.state == PartState::Recover ==> (weak_open(p, false, clap, arr, t) <==> p.state_ticks < t.vent_vuln_after),
        p.state == PartState::Idle ==> (weak_open(p, false, clap, arr, t)
            <==> (p.post_attack && t.recover_ticks + p.state_ticks < t.vent_vuln_after)),
        !weak_open(p, true, clap, arr, t),
{
}

/// During a clap both hands land on one point, and only the left hand's hit
/// counts: one attack never costs two hearts.
pub proof fn law_clap_hits_once(p: BossPart, arrived: bool)
    requires
        p.id == PartId::HandR,
    ensures
        !strikes(p, true, arrived),
{
}

// ── The gaze ────────────────────────────────────────────────────────────────

/// Whether the head's gaze catches the player this tick: the head lives, its
/// beam is live (`firing`), this shot has not hit yet, and the beam reaches
/// the player (`in_beam`).
pub open spec fn gaze_catches(head: BossPart, firing: bool, in_beam: bool) -> bool {
    head.alive && firing && !head.beam_hit_done && in_beam
}

/// The gaze catches only a player in the beam of a living head while it
/// fires, and only if this shot has not hit yet.
pub proof fn law_gaze_needs_a_live_beam(head: BossPart, firing: bool, in_beam: bool)
    ensures
        gaze_catches(head, firing, in_beam) ==> head.alive && firing && in_beam && !head.beam_hit_done,
        head.alive && firing && in_beam && !head.beam_hit_done ==> gaze_catches(head, firing, in_beam),
{
}

/// The gaze's hit: once per shot, and it always costs a heart (the buff does
/// not shield it) unless the player is already dead. Returns whether it hit;
/// a hit also throws the player away from the beam front.
pub fn gaze_hit(head: &mut BossPart, firing: bool, in_beam: bool, dead: bool) -> (o: HitOutcome)
    ensures
        o == (HitOutcome {
            thrown: gaze_catches(*old(head), firing, in_beam),
            unhook: false,
            spend_absorb: false,
            lose_heart: gaze_catches(*old(head), firing, in_beam) && !dead,
        }),
        *final(head) == if gaze_catches(*old(head), firing, in_beam) {
            (BossPart { beam_hit_done: true, ..*old(head) })
        } else {
            *old(head)
        },
{
    let caught = head.alive && firing && !head.beam_hit_done && in_beam;
    if caught {
        head.beam_hit_done = true;
    }
    HitOutcome { thrown: caught, unhook: false, spend_absorb: false, lose_heart: caught && !dead }
}

/// One shot of the gaze costs at most one heart: once it has hit, it cannot
/// hit again until the next shot re-arms it.
pub proof fn law_gaze_hits_once_per_shot(head: BossPart, firing: bool, in_beam: bool, again: bool)
    requires
        gaze_catches(head, firing, in_beam),
    ensures
        !gaze_catches(BossPart { beam_hit_done: true, ..head }, firing, again),
{
}

// ── Damage ──────────────────────────────────────────────────────────────────

/// What a tick's hits act on: the parts, the invulnerability left after a
/// kill, and the hit flash.
pub type HitState = (Seq<BossPart>, u32, u32);

/// Part `i`'s turn in a tick's hits: a buffed player within reach of an open
/// part that is alive and unshielded, while no invulnerability runs, takes
/// one health from it (a kill starts `ticks` of invulnerability) and lights
/// the hit flash.
pub open spec fn hit_turn(s: HitState, i: int, open: Seq<bool>, reach: Seq<bool>, buffed: bool, ticks: u32) -> HitState {
    if buffed && open[i] && reach[i] && s.1 == 0 && hittable(s.0[i]) {
        let q = hit_part(s.0[i]);
        (s.0.update(i, q), if q.hp <= 0 { ticks } else { 0u32 }, 20u32)
    } else {
        s
    }
}

/// The first `n` parts' turns, in order.
pub open spec fn hits_upto(s: HitState, open: Seq<bool>, reach: Seq<bool>, buffed: bool, ticks: u32, n: nat) -> HitState
    decreases n,
{
    if n == 0 {
        s
    } else {
        hit_turn(hits_upto(s, open, reach, buffed, ticks, (n - 1) as nat), n - 1, open, reach, buffed, ticks)
    }
}

/// Part `j` died in going from `a` to `b`.
pub open spec fn died(a: Seq<BossPart>, b: Seq<BossPart>, j: int) -> bool {
    a[j].alive && !b[j].alive
}

/// The player's hits on the Colossus in one tick. Each part in turn is hit
/// when the player is buffed, within its reach (`reach`) and its weak point
/// is open (`open`), the part is alive and unshielded, and the boss is not
/// invulnerable after a kill; the hit costs it one health. (The Colossus's
/// parts each have their own id, so a part is the one at its place.) Returns
/// whether any part was destroyed.
pub fn colossus_hits(
    parts: &mut Vec<BossPart>,
    open: &Vec<bool>,
    reach: &Vec<bool>,
    buffed: bool,
    invuln: &mut u32,
    flash: &mut u32,
    invuln_ticks: u32,
) -> (killed: bool)
    requires
        open@.len() == old(parts)@.len(),
        reach@.len() == old(parts)@.len(),
        forall|j: int| 0 <= j < old(parts)@.len() ==> #[trigger] old(parts)@[j].hp > i32::MIN,
    ensures
        (final(parts)@, *final(invuln), *final(flash))
            == hits_upto((old(parts)@, *old(invuln), *old(flash)), open@, reach@, buffed, invuln_ticks, old(parts)@.len()),
        killed == exists|j: int| 0 <= j < old(parts)@.len() && died(old(parts)@, final(parts)@, j),
{
    let ghost start: HitState = (parts@, *invuln, *flash);
    let n = parts.len();
    let mut killed = false;
    let mut i: usize = 0;
    while i < n
        invariant
            n == start.0.len(),
            parts@.len() == n,
            i <= n,
            open@.len() == n,
            reach@.len() == n,
            forall|j: int| 0 <= j < n ==> #[trigger] start.0[j].hp > i32::MIN,
            (parts@, *invuln, *flash) == hits_upto(start, open@, reach@, buffed, invuln_ticks, i as nat),
            forall|j: int| i <= j < n ==> parts@[j] == start.0[j],
            forall|j: int| 0 <= j < i ==> parts@[j] == start.0[j] || parts@[j] == hit_part(start.0[j]),
            killed == exists|j: int| 0 <= j < i && died(start.0, parts@, j),
        decreases n - i,
    {
        let ghost before: HitState = (parts@, *invuln, *flash);
        let ghost was_killed = killed;
        let mut k = false;
        if buffed && open[i] && reach[i] {
            k = damage_part(parts, i, invuln, invuln_ticks, flash);
        }
        assert(parts@.len() == n);
        assert(forall|j: int| 0 <= j < n && j != i ==> parts@[j] == before.0[j]);
        assert(k == died(start.0, parts@, i as int));
        if k {
            killed = true;
        }
        proof {
            assert((parts@, *invuln, *flash) == hit_turn(before, i as int, open@, reach@, buffed, invuln_ticks));
            assert forall|j: int| 0 <= j < i + 1 && died(start.0, parts@, j) implies
                (j == i || died(start.0, before.0, j)) by {}
            assert forall|j: int| 0 <= j < i && died(start.0, before.0, j) implies
                died(start.0, parts@, j) by {}
            if was_killed {
                let w = choose|j: int| 0 <= j < i && died(start.0, before.0, j);
                assert(died(start.0, parts@, w));
            } else if !k {
                assert forall|j: int| 0 <= j < i + 1 implies !died(start.0, parts@, j) by {
                    if j < i {
                        assert(!died(start.0, before.0, j));
                    }
                }
            } else {
                assert(died(start.0, parts@, i as int));
            }
        }
        i = i + 1;
    }
    killed
}

/// What a tick's hits can do to one part: nothing, or cost it one health,
/// and the latter only for a living, unshielded part whose weak point is open
/// and within reach of a buffed player.
pub open spec fn hit_at_most_once(parts: Seq<BossPart>, after: Seq<BossPart>, open: Seq<bool>, reach: Seq<bool>, buffed: bool, j: int) -> bool {
    ||| after[j] == parts[j]
    ||| (buffed && open[j] && reach[j] && hittable(parts[j]) && after[j] == hit_part(parts[j]))
}

proof fn lemma_hits_shape(s: HitState, open: Seq<bool>, reach: Seq<bool>, buffed: bool, ticks: u32, n: nat)
    requires
        n <= s.0.len(),
        open.len() == s.0.len(),
        reach.len() == s.0.len(),
    ensures
        ({
            let r = hits_upto(s, open, reach, buffed, ticks, n);
            &&& r.0.len() == s.0.len()
            &&& forall|j: int| n <= j < s.0.len() ==> r.0[j] == s.0[j]
            &&& forall|j: int| 0 <= j < n ==> #[trigger] hit_at_most_once(s.0, r.0, open, reach, buffed, j)
            &&& (!buffed || s.1 != 0) ==> r == s
            &&& ticks > 0 ==> forall|j: int, k: int| 0 <= j < n && 0 <= k < n
                    && #[trigger] died(s.0, r.0, j) && #[trigger] died(s.0, r.0, k) ==> j == k
            &&& ticks > 0 ==> (exists|j: int| 0 <= j < n && died(s.0, r.0, j)) ==> r.1 == ticks
            &&& ticks > 0 ==> r.1 == s.1 || r.1 == 0 || r.1 == ticks
        }),
    decreases n,
{
    if n > 0 {
        let m = (n - 1) as nat;
        lemma_hits_shape(s, open, reach, buffed, ticks, m);
        let p = hits_upto(s, open, reach, buffed, ticks, m);
        let r = hits_upto(s, open, reach, buffed, ticks, n);
        let i = m as int;
        assert(r == hit_turn(p, i, open, reach, buffed, ticks));
        assert(p.0[i] == s.0[i]);
        assert forall|j: int| 0 <= j < n implies #[trigger] hit_at_most_once(s.0, r.0, open, reach, buffed, j) by {
            if j < i {
                assert(hit_at_most_once(s.0, p.0, open, reach, buffed, j));
            }
        }
        if ticks > 0 {
            assert forall|j: int| 0 <= j < n && died(s.0, r.0, j) implies j == i || died(s.0, p.0, j) by {}
            if exists|j: int| 0 <= j < m && died(s.0, p.0, j) {
                assert(p.1 == ticks);
                assert(r == p);
            }
            assert forall|j: int, k: int| 0 <= j < n && 0 <= k < n
                && #[trigger] died(s.0, r.0, j) && #[trigger] died(s.0, r.0, k) implies j == k by {
                if j != k {
                    if j == i {
                        assert(died(s.0, p.0, k));
                        assert(r == p);
                    } else if k == i {
                        assert(died(s.0, p.0, j));
                        assert(r == p);
                    } else {
                        assert(died(s.0, p.0, j) && died(s.0, p.0, k));
                    }
                }
            }
            if exists|j: int| 0 <= j < n && died(s.0, r.0, j) {
                let j = choose|j: int| 0 <= j < n && died(s.0, r.0, j);
                if j != i {
                    assert(died(s.0, p.0, j));
                }
            }
        }
    }
}

/// Over a whole tick of hits: only a buffed player hurts the Colossus; no
/// part loses more than one health, and none is hurt that is destroyed,
/// shielded, closed or out of reach; while the invulnerability after a kill
/// runs nothing is hurt at all; and when a kill starts an invulnerability
/// window, at most one part dies in the tick and the window is left running.
pub proof fn law_colossus_hits(parts: Seq<BossPart>, open: Seq<bool>, reach: Seq<bool>, buffed: bool, invuln: u32, flash: u32, ticks: u32)
    requires
        open.len() == parts.len(),
        reach.len() == parts.len(),
    ensures
        ({
            let r = hits_upto((parts, invuln, flash), open, reach, buffed, ticks, parts.len());
            &&& r.0.len() == parts.len()
            &&& forall|j: int| 0 <= j < parts.len() ==> #[trigger] hit_at_most_once(parts, r.0, open, reach, buffed, j)
            &&& !buffed ==> r == (parts, invuln, flash)
            &&& invuln != 0 ==> r == (parts, invuln, flash)
            &&& ticks > 0 ==> forall|j: int, k: int| 0 <= j < parts.len() && 0 <= k < parts.len()
                    && #[trigger] died(parts, r.0, j) && #[trigger] died(parts, r.0, k) ==> j == k
            &&& ticks > 0 ==> (exists|j: int| 0 <= j < parts.len() && died(parts, r.0, j)) ==> r.1 == ticks
        }),
{
    lemma_hits_shape((parts, invuln, flash), open, reach, buffed, ticks, parts.len());
}

/// Hits never raise the boss's health.
pub proof fn lemma_hits_lower_health(parts: Seq<BossPart>, open: Seq<bool>, reach: Seq<bool>, buffed: bool, invuln: u32, flash: u32, ticks: u32)
    requires
        open.len() == parts.len(),
        reach.len() == parts.len(),
        forall|j: int| 0 <= j < parts.len() ==> #[trigger] parts[j].hp > i32::MIN,
    ensures
        total_hp(hits_upto((parts, invuln, flash), open, reach, buffed, ticks, parts.len()).0) <= total_hp(parts),
{
    let r = hits_upto((parts, invuln, flash), open, reach, buffed, ticks, parts.len());
    lemma_hits_shape((parts, invuln, flash), open, reach, buffed, ticks, parts.len());
    assert forall|j: int| 0 <= j < parts.len() implies part_hp(#[trigger] r.0[j]) <= part_hp(parts[j]) by {
        assert(hit_at_most_once(parts, r.0, open, reach, buffed, j));
        assert(parts[j].hp > i32::MIN);
    }
    lemma_total_hp_le(r.0, parts);
}

/// The frame's countdown runs before the hits: an invulnerability of two or
/// more ticks at the start of a frame is still running when the hits come,
/// so that frame hurts no part.
pub proof fn law_countdown_before_hits(c: ColossusCounters, parts: Seq<BossPart>, open: Seq<bool>, reach: Seq<bool>, buffed: bool, flash: u32, ticks: u32)
    requires
        open.len() == parts.len(),
        reach.len() == parts.len(),
        c.part_invuln >= 2,
    ensures
        hits_upto((parts, dec(c.part_invuln), flash), open, reach, buffed, ticks, parts.len()).0 == parts,
{
    lemma_hits_shape((parts, dec(c.part_invuln), flash), open, reach, buffed, ticks, parts.len());
}

// ── The meteor queue ────────────────────────────────────────────────────────

/// The queue after one tick: every launch one tick nearer, those that arrive
/// now taken out.
pub open spec fn still_waiting<A>(q: Seq<(u32, A)>) -> Seq<(u32, A)>
    decreases q.len(),
{
    if q.len() == 0 {
        seq![]
    } else if q.last().0 > 1 {
        still_waiting(q.drop_last()).push(((q.last().0 - 1) as u32, q.last().1))
    } else {
        still_waiting(q.drop_last())
    }
}

/// The payloads of the launches that arrive this tick, in queue order.
pub open spec fn arriving<A>(q: Seq<(u32, A)>) -> Seq<A>
    decreases q.len(),
{
    if q.len() == 0 {
        seq![]
    } else if q.last().0 > 1 {
        arriving(q.drop_last())
    } else {
        arriving(q.drop_last()).push(q.last().1)
    }
}

/// One tick of a storm's launch queue (`(ticks left, what to launch)`).
/// While the fight runs, every entry counts down and those reaching zero are
/// launched, in order; a storm already committed finishes even if the torso
/// falls. Once the fight is over (or the player is dead) the queue is dropped
/// unlaunched.
pub fn meteor_tick<A: Copy>(queue: &mut Vec<(u32, A)>, running: bool) -> (launch: Vec<A>)
    ensures
        !running ==> final(queue)@.len() == 0 && launch@.len() == 0,
        running ==> final(queue)@ == still_waiting(old(queue)@) && launch@ == arriving(old(queue)@),
{
    if queue.len() == 0 {
        return Vec::new();
    }
    if !running {
        queue.clear();
        return Vec::new();
    }
    let mut kept: Vec<(u32, A)> = Vec::new();
    let mut launch: Vec<A> = Vec::new();
    let mut i: usize = 0;
    while i < queue.len()
        invariant
            i <= queue.len(),
            queue@ == old(queue)@,
            kept@ == still_waiting(queue@.take(i as int)),
            launch@ == arriving(queue@.take(i as int)),
        decreases queue.len() - i,
    {
        let e = queue[i];
        proof {
            let t = queue@.take(i as int + 1);
            assert(t.drop_last() == queue@.take(i as int));
            assert(t.last() == e);
        }
        if e.0 > 1 {
            kept.push((e.0 - 1, e.1));
        } else {
            launch.push(e.1);
        }
        i = i + 1;
    }
    assert(queue@.take(queue@.len() as int) == queue@);
    *queue = kept;
    launch
}

/// Which half of the sky a storm's meteor comes from.
#[derive(Clone, Copy, PartialEq, Eq, Debug, Structural)]
pub enum SkyHalf {
    /// Between the middle of the meteor arc and its top.
    Upper,
    /// Between the bottom of the meteor arc and its middle.
    Lower,
}

/// A gap between meteors, held to `[lo, hi]`.
pub open spec fn clamped(g: u32, lo: u32, hi: u32) -> int {
    if g < lo { lo as int } else if g > hi { hi as int } else { g as int }
}

/// When the `n`th meteor of a storm launches: a lead-in of `lo` ticks, then
/// each of the earlier gaps, held to `[lo, hi]`.
pub open spec fn launch_delay(gaps: Seq<u32>, lo: u32, hi: u32, n: nat) -> int
    decreases n,
{
    if n == 0 {
        lo as int
    } else {
        launch_delay(gaps, lo, hi, (n - 1) as nat) + clamped(gaps[n - 1], lo, hi)
    }
}

/// The half of the sky the `n`th meteor comes from: they alternate, the
/// first from the upper half.
pub open spec fn launch_half(n: int) -> SkyHalf {
    if n % 2 == 0 { SkyHalf::Upper } else { SkyHalf::Lower }
}

/// Later meteors never launch earlier.
proof fn lemma_delay_grows(gaps: Seq<u32>, lo: u32, hi: u32, a: nat, b: nat)
    requires
        a <= b,
    ensures
        launch_delay(gaps, lo, hi, a) <= launch_delay(gaps, lo, hi, b),
    decreases b,
{
    if a < b {
        lemma_delay_grows(gaps, lo, hi, a, (b - 1) as nat);
    }
}

/// A storm's launch schedule, one meteor per drawn gap (`gaps`, the random
/// gaps already rounded to ticks): each meteor launches one held gap after
/// the one before, the first after a lead-in of the shortest gap, and the
/// meteors alternate between the halves of the sky so that no two in a row
/// come from the same side. The last launch must fall within `u32`.
pub fn meteor_schedule(gaps: &Vec<u32>, lo: u32, hi: u32) -> (out: Vec<(u32, SkyHalf)>)
    requires
        gaps@.len() > 0 ==> launch_delay(gaps@, lo, hi, (gaps@.len() - 1) as nat) <= u32::MAX,
    ensures
        out@.len() == gaps@.len(),
        forall|n: int| 0 <= n < out@.len() ==> (#[trigger] out@[n]).0 == launch_delay(gaps@, lo, hi, n as nat)
            && out@[n].1 == launch_half(n),
{
    let mut out: Vec<(u32, SkyHalf)> = Vec::new();
    let mut delay: u32 = lo;
    let mut i: usize = 0;
    while i < gaps.len()
        invariant
            i <= gaps@.len(),
            gaps@.len() > 0 ==> launch_delay(gaps@, lo, hi, (gaps@.len() - 1) as nat) <= u32::MAX,
            out@.len() == i,
            i < gaps@.len() ==> delay == launch_delay(gaps@, lo, hi, i as nat),
            forall|n: int| 0 <= n < i ==> (#[trigger] out@[n]).0 == launch_delay(gaps@, lo, hi, n as nat)
                && out@[n].1 == launch_half(n),
        decreases gaps@.len() - i,
    {
        let half = if i % 2 == 0 { SkyHalf::Upper } else { SkyHalf::Lower };
        out.push((delay, half));
        if i + 1 < gaps.len() {
            let g = gaps[i];
            let gap = if g < lo { lo } else if g > hi { hi } else { g };
            proof {
                lemma_delay_grows(gaps@, lo, hi, (i + 1) as nat, (gaps@.len() - 1) as nat);
            }
            delay = delay + gap;
        }
        i = i + 1;
    }
    out
}

/// A storm is a series of dodges: consecutive meteors come from opposite
/// halves of the sky, and each launches between `lo` and `hi` ticks after
/// the one before.
pub proof fn law_storm_alternates(gaps: Seq<u32>, lo: u32, hi: u32, n: nat)
    requires
        lo <= hi,
    ensures
        launch_half(n as int) != launch_half(n as int + 1),
        lo <= launch_delay(gaps, lo, hi, n + 1) - launch_delay(gaps, lo, hi, n) <= hi,
{
    assert(launch_delay(gaps, lo, hi, n + 1) == launch_delay(gaps, lo, hi, n) + clamped(gaps[n as int], lo, hi));
}

/// A launch waits one tick less each tick: an entry with more than a tick
/// left stays queued with a tick less; the others launch now.
pub proof fn law_meteor_countdown<A>(q: Seq<(u32, A)>, k: int)
    requires
        0 <= k < q.len(),
    ensures
        q[k].0 > 1 ==> still_waiting(q).contains(((q[k].0 - 1) as u32, q[k].1)),
        q[k].0 <= 1 ==> arriving(q).contains(q[k].1),
    decreases q.len(),
{
    let d = q.drop_last();
    if k == q.len() - 1 {
        if q[k].0 > 1 {
            assert(still_waiting(q)[still_waiting(d).len() as int] == ((q[k].0 - 1) as u32, q[k].1));
        } else {
            assert(arriving(q)[arriving(d).len() as int] == q[k].1);
        }
    } else {
        assert(d[k] == q[k]);
        law_meteor_countdown(d, k);
        if q[k].0 > 1 {
            let w = choose|w: int| 0 <= w < still_waiting(d).len() && still_waiting(d)[w] == ((q[k].0 - 1) as u32, q[k].1);
            assert(still_waiting(q)[w] == still_waiting(d)[w]);
        } else {
            let w = choose|w: int| 0 <= w < arriving(d).len() && arriving(d)[w] == q[k].1;
            assert(arriving(q)[w] == arriving(d)[w]);
        }
    }
}

/// Nothing is launched twice and nothing is lost: each entry of the queue is
/// either launched this tick or still waiting, one tick nearer.
pub proof fn law_meteor_conserved<A>(q: Seq<(u32, A)>)
    ensures
        still_waiting(q).len() + arriving(q).len() == q.len(),
    decreases q.len(),
{
    if q.len() > 0 {
        law_meteor_conserved(q.drop_last());
    }
}

} // verus!
