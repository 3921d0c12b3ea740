//! The Serpent: a chain of segments led by a head and ended by a tail. Which
//! attacks it has depends on which parts survive; its burrow through rifts and
//! its final wormhole gambit are small state machines of their own.

use vstd::prelude::*;
use crate::buff::{spend_absorb, spent, Buff};
use crate::parts::{damage_part, hit_part, BossPart, PartId};

verus! {

/// What the Serpent is doing.
#[derive(Clone, Copy, PartialEq, Eq, Debug, Structural)]
pub enum SerpentAct {
    /// Wandering between attacks.
    Prowl,
    /// Spiralling in around where the player stood.
    Coil,
    /// Diving through a sequence of rifts.
    RiftStrikes,
    /// The tail detaches and rockets at the player.
    TailLaunch,
    /// The tail whips an arc through the play band.
    TailSweep,
    /// Head and tail sweep the exposed spine between them.
    SpineLash,
    /// The head alone: rifts that deliver the player in front of its bite.
    WormholeGambit,
}

pub open spec fn alive_with(parts: Seq<BossPart>, id: PartId) -> bool {
    exists|j: int| 0 <= j < parts.len() && #[trigger] parts[j].id == id && parts[j].alive
}

/// Living segments among `parts`.
pub open spec fn live_segments(parts: Seq<BossPart>) -> nat
    decreases parts.len(),
{
    if parts.len() == 0 {
        0
    } else {
        live_segments(parts.drop_last())
            + if parts.last().id == PartId::Seg && parts.last().alive { 1nat } else { 0nat }
    }
}

/// Living parts among `parts`.
pub open spec fn live_parts(parts: Seq<BossPart>) -> nat
    decreases parts.len(),
{
    if parts.len() == 0 {
        0
    } else {
        live_parts(parts.drop_last()) + if parts.last().alive { 1nat } else { 0nat }
    }
}

/// The acts available, decided by which parts survive: the coil and the rift
/// burrow need a body; the tail attacks need a tail and a body; the spine lash
/// is what a head and a tail do with no body between them; the gambit is what a
/// lone head has left.
pub open spec fn acts_for(parts: Seq<BossPart>) -> Seq<SerpentAct> {
    let segs = live_segments(parts);
    let tail = alive_with(parts, PartId::Tail);
    let head = alive_with(parts, PartId::Head);
    (if segs > 0 { seq![SerpentAct::Coil, SerpentAct::RiftStrikes] } else { Seq::empty() })
        + (if tail && segs > 0 { seq![SerpentAct::TailLaunch, SerpentAct::TailSweep] } else { Seq::empty() })
        + (if segs == 0 && tail && head { seq![SerpentAct::SpineLash] } else { Seq::empty() })
        + (if segs == 0 && !tail && head { seq![SerpentAct::WormholeGambit] } else { Seq::empty() })
}

fn any_alive_with(parts: &Vec<BossPart>, id: PartId) -> (b: bool)
    ensures
        b == alive_with(parts@, id),
{
    let mut i: usize = 0;
    while i < parts.len()
        invariant
            0 <= i <= parts.len(),
            forall|j: int| 0 <= j < i ==> !(#[trigger] parts@[j].id == id && parts@[j].alive),
        decreases parts.len() - i,
    {
        if parts[i].id == id && parts[i].alive {
            return true;
        }
        i = i + 1;
    }
    false
}

/// Number of living segments among the first `n` parts.
pub fn count_live_segments(parts: &Vec<BossPart>, n: usize) -> (c: usize)
    requires
        n <= parts.len(),
    ensures
        c == live_segments(parts@.take(n as int)),
        c <= n,
{
    let mut c: usize = 0;
    let mut i: usize = 0;
    while i < n
        invariant
            0 <= i <= n <= parts.len(),
            c == live_segments(parts@.take(i as int)),
            c <= i,
        decreases n - i,
    {
        proof {
            assert(parts@.take(i + 1).drop_last() =~= parts@.take(i as int));
        }
        if parts[i].id == PartId::Seg && parts[i].alive {
            c = c + 1;
        }
        i = i + 1;
    }
    c
}

pub fn serpent_acts(parts: &Vec<BossPart>) -> (acts: Vec<SerpentAct>)
    ensures
        acts@ == acts_for(parts@),
{
    let segs = count_live_segments(parts, parts.len());
    proof {
        assert(parts@.take(parts.len() as int) =~= parts@);
    }
    let tail = any_alive_with(parts, PartId::Tail);
    let head = any_alive_with(parts, PartId::Head);
    let mut acts: Vec<SerpentAct> = Vec::new();
    if segs > 0 {
        acts.push(SerpentAct::Coil);
        acts.push(SerpentAct::RiftStrikes);
    }
    if tail && segs > 0 {
        acts.push(SerpentAct::TailLaunch);
        acts.push(SerpentAct::TailSweep);
    }
    if segs == 0 && tail && head {
        acts.push(SerpentAct::SpineLash);
    }
    if segs == 0 && !tail && head {
        acts.push(SerpentAct::WormholeGambit);
    }
    proof {
        assert(acts@ =~= acts_for(parts@));
    }
    acts
}

/// How many links the body has: one per living part, and never fewer than one.
pub open spec fn chain_span(parts: Seq<BossPart>) -> nat {
    if live_parts(parts) > 0 { live_parts(parts) } else { 1 }
}

pub fn serpent_chain_span(parts: &Vec<BossPart>) -> (span: usize)
    ensures
        span == chain_span(parts@),
{
    let mut c: usize = 0;
    let mut i: usize = 0;
    while i < parts.len()
        invariant
            0 <= i <= parts.len(),
            c == live_parts(parts@.take(i as int)),
            c <= i,
        decreases parts.len() - i,
    {
        proof {
            assert(parts@.take(i + 1).drop_last() =~= parts@.take(i as int));
        }
        if parts[i].alive {
            c = c + 1;
        }
        i = i + 1;
    }
    proof {
        assert(parts@.take(parts.len() as int) =~= parts@);
    }
    if c > 0 { c } else { 1 }
}

/// Where part `i` sits in the chain, head first. The parts are stored in
/// destruction order (segments, tail, head), which is not chain order. A
/// segment's link is its rank among the living segments, so the body closes
/// up as segments die; the tail follows the last living segment.
pub open spec fn chain_index(parts: Seq<BossPart>, i: int, id: PartId) -> nat {
    match id {
        PartId::Head => 0,
        PartId::Tail => 1 + live_segments(parts),
        _ => 1 + live_segments(parts.take(i)),
    }
}

pub fn serpent_chain_index(parts: &Vec<BossPart>, i: usize, id: PartId) -> (c: usize)
    requires
        i <= parts.len(),
        parts.len() < usize::MAX,
    ensures
        c == chain_index(parts@, i as int, id),
{
    match id {
        PartId::Head => 0,
        PartId::Tail => {
            let n = count_live_segments(parts, parts.len());
            proof {
                assert(parts@.take(parts.len() as int) =~= parts@);
            }
            1 + n
        },
        _ => 1 + count_live_segments(parts, i),
    }
}

/// Whether a hit cuts the player's rope as well as throwing them.
#[derive(Clone, Copy, PartialEq, Eq, Debug, Structural)]
pub enum Cut {
    /// Thrown only; the rope holds.
    Keep,
    /// Thrown and the rope is cut.
    Rope,
}

/// Everything in the fight that can hit the player.
#[derive(Clone, Copy, PartialEq, Eq, Debug, Structural)]
pub enum Strike {
    TailSweep,
    TailLaunch,
    Bite,
    HeadContact,
    BodyContact,
    RiftEruption,
    SpineLash,
}

/// Only the serpent's deliberate strikes cut the rope; being caught by the
/// body moving only throws the player.
pub open spec fn cut_spec(s: Strike) -> Cut {
    match s {
        Strike::TailSweep | Strike::TailLaunch | Strike::Bite | Strike::HeadContact => Cut::Rope,
        Strike::BodyContact | Strike::RiftEruption | Strike::SpineLash => Cut::Keep,
    }
}

pub fn serpent_cut_for(source: Strike) -> (c: Cut)
    ensures
        c == cut_spec(source),
{
    match source {
        Strike::TailSweep | Strike::TailLaunch | Strike::Bite | Strike::HeadContact => Cut::Rope,
        Strike::BodyContact | Strike::RiftEruption | Strike::SpineLash => Cut::Keep,
    }
}

/// The strike a body contact counts as: touching the head is a head strike,
/// touching anything else is the body moving.
pub fn contact_strike(id: PartId) -> (s: Strike)
    ensures
        s == (if id == PartId::Head { Strike::HeadContact } else { Strike::BodyContact }),
{
    if id == PartId::Head { Strike::HeadContact } else { Strike::BodyContact }
}

/// The Serpent's timings, in ticks.
#[derive(Clone, Copy, PartialEq, Eq, Debug, Structural)]
pub struct SerpentTuning {
    /// Grace at the start of the fight before the serpent notices the player.
    pub notice_ticks: u32,
    /// The lull between attacks.
    pub attack_gap: u32,
    pub coil_ticks: u32,
    pub sweep_ticks: u32,
    pub telegraph_ticks: u32,
    pub tail_launch_ticks: u32,
    pub lash_ticks: u32,
    /// How many times a burrow surfaces.
    pub rift_count: u32,
    /// Ticks the serpent stays hidden between portals.
    pub rift_hidden: u32,
    /// Ticks after surfacing before the next portal opens.
    pub rift_surface: u32,
    /// The reaction window after a gambit capture.
    pub gambit_react: u32,
    /// Ticks over which the gambit's exit portal closes.
    pub gambit_exit_close: u32,
    pub contact_cooldown: u32,
    pub part_invuln: u32,
}

/// How long an act runs. The burrow's length is a ceiling that ends it if
/// something stalls: a telegraph plus, per surfacing and one more, the swim to
/// a portal (`swim`), the body's swallow (`swallow`), the hidden beat and the
/// surfacing window.
pub open spec fn act_len(act: SerpentAct, t: SerpentTuning, swim: u32, swallow: u32) -> int {
    match act {
        SerpentAct::Prowl => t.attack_gap as int,
        SerpentAct::Coil => t.coil_ticks as int,
        SerpentAct::TailSweep => t.sweep_ticks as int,
        SerpentAct::RiftStrikes => t.telegraph_ticks + (t.rift_count + 1) * (swim + swallow + t.rift_hidden + t.rift_surface),
        SerpentAct::TailLaunch => t.tail_launch_ticks as int,
        SerpentAct::SpineLash => t.lash_ticks as int,
        SerpentAct::WormholeGambit => t.telegraph_ticks + 180,
    }
}

/// Each act runs for its own tuning: the prowl for the lull between
/// attacks, the coil, the tail sweep, the tail launch and the spine lash for
/// their own lengths, the gambit for its telegraph and three seconds, and
/// the burrow for at most its telegraph plus, for each surfacing and one
/// more, a swim, a swallow, the hidden beat and the surfacing window — a
/// ceiling that grows with the swim and the swallow.
pub proof fn law_act_lengths(t: SerpentTuning, swim: u32, swallow: u32, swim2: u32, swallow2: u32)
    ensures
        act_len(SerpentAct::Prowl, t, swim, swallow) == t.attack_gap,
        act_len(SerpentAct::Coil, t, swim, swallow) == t.coil_ticks,
        act_len(SerpentAct::TailSweep, t, swim, swallow) == t.sweep_ticks,
        act_len(SerpentAct::TailLaunch, t, swim, swallow) == t.tail_launch_ticks,
        act_len(SerpentAct::SpineLash, t, swim, swallow) == t.lash_ticks,
        act_len(SerpentAct::WormholeGambit, t, swim, swallow) == t.telegraph_ticks + 180,
        act_len(SerpentAct::RiftStrikes, t, swim, swallow)
            == t.telegraph_ticks + (t.rift_count + 1) * (swim + swallow + t.rift_hidden + t.rift_surface),
        swim <= swim2 && swallow <= swallow2 ==>
            act_len(SerpentAct::RiftStrikes, t, swim, swallow) <= act_len(SerpentAct::RiftStrikes, t, swim2, swallow2),
        forall|a: SerpentAct| a != SerpentAct::RiftStrikes ==> act_len(a, t, swim, swallow) == #[trigger] act_len(a, t, swim2, swallow2),
{
    let k = t.rift_count + 1;
    let a = swim + swallow + t.rift_hidden + t.rift_surface;
    let b = swim2 + swallow2 + t.rift_hidden + t.rift_surface;
    if swim <= swim2 && swallow <= swallow2 {
        assert(k * a <= k * b) by (nonlinear_arith)
            requires
                a <= b,
                k >= 0;
    }
}

pub fn serpent_act_len(act: SerpentAct, t: &SerpentTuning, swim: u32, swallow: u32) -> (n: u32)
    requires
        act_len(act, *t, swim, swallow) <= u32::MAX,
    ensures
        n == act_len(act, *t, swim, swallow),
{
    match act {
        SerpentAct::Prowl => t.attack_gap,
        SerpentAct::Coil => t.coil_ticks,
        SerpentAct::TailSweep => t.sweep_ticks,
        SerpentAct::RiftStrikes => {
            let per = swim as u64 + swallow as u64 + t.rift_hidden as u64 + t.rift_surface as u64;
            let count = t.rift_count as u64 + 1;
            proof {
                vstd::arithmetic::mul::lemma_mul_nonnegative(count as int, per as int);
                vstd::arithmetic::mul::lemma_mul_inequality(1, count as int, per as int);
                vstd::arithmetic::mul::lemma_mul_is_commutative(count as int, per as int);
                assert(per <= u32::MAX);
                vstd::arithmetic::mul::lemma_mul_upper_bound(count as int, u32::MAX as int + 1, per as int, u32::MAX as int);
            }
            (t.telegraph_ticks as u64 + count * per) as u32
        },
        SerpentAct::TailLaunch => t.tail_launch_ticks,
        SerpentAct::SpineLash => t.lash_ticks,
        SerpentAct::WormholeGambit => t.telegraph_ticks + 180,
    }
}

/// The Serpent's integer state.
#[derive(Clone, Copy, PartialEq, Eq, Debug, Structural)]
pub struct SerpentClock {
    pub act: SerpentAct,
    pub act_ticks: u32,
    /// Hold in the lull before the next attack may be chosen.
    pub cooldown: u32,
    /// Ticks since the player entered the arena.
    pub entry_ticks: u32,
    pub contact_cooldown: u32,
    /// The tail has detached for a launch.
    pub tail_out: bool,
    pub gambit_react: u32,
    pub gambit_exit_ticks: u32,
    pub surfaced: u32,
}

/// What the act director decided this tick.
#[derive(Clone, Copy, PartialEq, Eq, Debug, Structural)]
pub enum Direction {
    /// The current act goes on.
    Continue,
    /// The lull is over: choose the next attack (see `commit_act`).
    Choose,
    /// The act ended: back to prowling, with everything it left behind cleared.
    BackToProwl,
}

pub open spec fn sat_inc(x: u32) -> u32 {
    if x == u32::MAX { x } else { (x + 1) as u32 }
}

pub open spec fn dec(x: u32) -> u32 {
    if x > 0 { (x - 1) as u32 } else { x }
}

/// The director's tick: the clocks advance; when the act has run its length
/// the serpent either picks its next attack (it has noticed the player, it is
/// prowling, and the lull is over) or goes back to prowling for a lull.
pub open spec fn directed(c: SerpentClock, t: SerpentTuning, len: int) -> (SerpentClock, Direction) {
    let c1 = SerpentClock {
        entry_ticks: sat_inc(c.entry_ticks),
        contact_cooldown: dec(c.contact_cooldown),
        act_ticks: (c.act_ticks + 1) as u32,
        cooldown: dec(c.cooldown),
        ..c
    };
    if c1.act_ticks >= len {
        if c1.entry_ticks >= t.notice_ticks && c1.act == SerpentAct::Prowl && c1.cooldown == 0 {
            (c1, Direction::Choose)
        } else {
            (SerpentClock {
                act: SerpentAct::Prowl,
                act_ticks: 0,
                cooldown: t.attack_gap,
                tail_out: false,
                gambit_react: 0,
                gambit_exit_ticks: 0,
                surfaced: 0,
                ..c1
            }, Direction::BackToProwl)
        }
    } else {
        (c1, Direction::Continue)
    }
}

/// The director's pacing: the entry clock only counts up (saturating); an
/// act goes on exactly until it has run its length; the next attack is
/// chosen only from a prowl once the player has been noticed and the lull is
/// over; an act that ends drops back to a prowl with a full lull, so an
/// attack is never chained straight into another.
pub proof fn law_director_paces_acts(c: SerpentClock, t: SerpentTuning, len: int, len2: int)
    requires
        c.act_ticks < u32::MAX,
        t.attack_gap > 1,
    ensures
        directed(c, t, len).0.entry_ticks == sat_inc(c.entry_ticks),
        directed(c, t, len).0.entry_ticks >= c.entry_ticks,
        (directed(c, t, len).1 == Direction::Continue) <==> c.act_ticks + 1 < len,
        directed(c, t, len).1 == Direction::Choose ==> {
            &&& c.act == SerpentAct::Prowl
            &&& sat_inc(c.entry_ticks) >= t.notice_ticks
            &&& dec(c.cooldown) == 0
        },
        directed(c, t, len).1 == Direction::BackToProwl ==> {
            &&& directed(c, t, len).0.act == SerpentAct::Prowl
            &&& directed(c, t, len).0.act_ticks == 0
            &&& directed(c, t, len).0.cooldown == t.attack_gap
            &&& directed(directed(c, t, len).0, t, len2).1 != Direction::Choose
        },
{
}

/// One tick of the act director. `swim` and `swallow` size the burrow's ceiling
/// (see `act_len`).
pub fn director_tick(c: &mut SerpentClock, t: &SerpentTuning, swim: u32, swallow: u32) -> (d: Direction)
    requires
        old(c).act_ticks < u32::MAX,
        act_len(old(c).act, *t, swim, swallow) <= u32::MAX,
    ensures
        (*final(c), d) == directed(*old(c), *t, act_len(old(c).act, *t, swim, swallow)),
{
    c.entry_ticks = c.entry_ticks.saturating_add(1);
    if c.contact_cooldown > 0 {
        c.contact_cooldown = c.contact_cooldown - 1;
    }
    c.act_ticks = c.act_ticks + 1;
    if c.cooldown > 0 {
        c.cooldown = c.cooldown - 1;
    }
    let len = serpent_act_len(c.act, t, swim, swallow);
    if c.act_ticks >= len {
        if c.entry_ticks >= t.notice_ticks && c.act == SerpentAct::Prowl && c.cooldown == 0 {
            Direction::Choose
        } else {
            c.act = SerpentAct::Prowl;
            c.act_ticks = 0;
            c.cooldown = t.attack_gap;
            c.tail_out = false;
            c.gambit_react = 0;
            c.gambit_exit_ticks = 0;
            c.surfaced = 0;
            Direction::BackToProwl
        }
    } else {
        Direction::Continue
    }
}

/// Commit to one of the available acts. `raw_pick` is a random index, clamped
/// into the list. Returns whether an act was chosen (none is if the list is empty).
pub fn commit_act(c: &mut SerpentClock, acts: &Vec<SerpentAct>, raw_pick: usize) -> (chosen: bool)
    ensures
        chosen == (acts@.len() > 0),
        chosen ==> {
            let k = if raw_pick < acts@.len() - 1 { raw_pick as int } else { acts@.len() - 1 };
            *final(c) == (SerpentClock { act: acts@[k], act_ticks: 0, ..*old(c) })
        },
        !chosen ==> *final(c) == *old(c),
{
    if acts.len() == 0 {
        return false;
    }
    let last = acts.len() - 1;
    let k = if raw_pick < last { raw_pick } else { last };
    c.act = acts[k];
    c.act_ticks = 0;
    true
}

/// The Serpent's director for one tick (`director_tick`), and, when the lull
/// is over, the choice of its next attack among what its surviving parts
/// allow (`commit_act`, `raw_pick` being the random index). After it the act
/// is either the one before, or a prowl with a full lull, or an attack the
/// surviving body allows, chosen from a prowl, never in the opening grace,
/// and starting from its first tick.
pub fn serpent_direct(
    c: &mut SerpentClock,
    parts: &Vec<BossPart>,
    raw_pick: usize,
    t: &SerpentTuning,
    swim: u32,
    swallow: u32,
) -> (d: Direction)
    requires
        old(c).act_ticks < u32::MAX,
        act_len(old(c).act, *t, swim, swallow) <= u32::MAX,
    ensures
        ({
            let (c1, d1) = directed(*old(c), *t, act_len(old(c).act, *t, swim, swallow));
            let acts = acts_for(parts@);
            &&& d == d1
            &&& (d != Direction::Choose || acts.len() == 0) ==> *final(c) == c1
            &&& d == Direction::Choose && acts.len() > 0 ==> {
                let k = if raw_pick < acts.len() - 1 { raw_pick as int } else { acts.len() - 1 };
                *final(c) == (SerpentClock { act: acts[k], act_ticks: 0, ..c1 })
            }
        }),
        ({
            ||| final(c).act == old(c).act
            ||| final(c).act == SerpentAct::Prowl && final(c).cooldown == t.attack_gap
            ||| {
                &&& old(c).act == SerpentAct::Prowl
                &&& acts_for(parts@).contains(final(c).act)
                &&& final(c).entry_ticks >= t.notice_ticks
                &&& final(c).act_ticks == 0
            }
        }),
{
    let d = director_tick(c, t, swim, swallow);
    if d == Direction::Choose {
        let acts = serpent_acts(parts);
        let chosen = commit_act(c, &acts, raw_pick);
        proof {
            if chosen {
                let k = if raw_pick < acts@.len() - 1 { raw_pick as int } else { acts@.len() - 1 };
                assert(acts@[k] == c.act);
            }
        }
    }
    d
}

/// Where a burrow is.
#[derive(Clone, Copy, PartialEq, Eq, Debug, Structural)]
pub enum RiftPhase {
    /// Swimming into the portal ahead.
    Approach,
    /// The body sliding into the portal after the head.
    Swallow,
    /// Gone, between portals.
    Underground,
    /// Climbing out of the exit portal.
    Emerge,
}

/// The burrow's integer state: which phase, how long in it, and which of the
/// two portals (the one the body is in, the one ahead) are open.
#[derive(Clone, Copy, PartialEq, Eq, Debug, Structural)]
pub struct Burrow {
    pub phase: RiftPhase,
    pub ticks: u32,
    pub surfaced: u32,
    /// The portal the body is passing through is open.
    pub hole_open: bool,
    /// The portal ahead of the head is open.
    pub next_open: bool,
}

/// What a burrow tick asks of the caller, which owns the portals' positions.
#[derive(Clone, Copy, PartialEq, Eq, Debug, Structural)]
pub struct BurrowEvents {
    /// Open the portal ahead of the head.
    pub open_next: bool,
    /// The portal ahead becomes the one the body is in.
    pub enter_next: bool,
    /// The serpent erupts: open its exit portal near the player, and strike
    /// anyone standing on it.
    pub erupt: bool,
}

pub open spec fn quiet() -> BurrowEvents {
    BurrowEvents { open_next: false, enter_next: false, erupt: false }
}

/// The wind-up of a burrow: open the first portal ahead of the head.
pub open spec fn burrow_windup(b: Burrow) -> (Burrow, BurrowEvents) {
    if !b.next_open {
        (Burrow { next_open: true, phase: RiftPhase::Approach, ticks: 0, surfaced: 0, hole_open: false },
         BurrowEvents { open_next: true, ..quiet() })
    } else {
        (b, quiet())
    }
}

/// One tick of a live burrow. Each phase ends on what it waits for:
/// `head_in` (the head has reached the portal ahead), `under` (the whole body is
/// through), `clear` (the tail has left the exit portal).
pub open spec fn burrow_step(b: Burrow, t: SerpentTuning, head_in: bool, under: bool, clear: bool) -> (Burrow, BurrowEvents) {
    let n = (b.ticks + 1) as u32;
    match b.phase {
        RiftPhase::Approach => {
            if b.next_open && head_in {
                (Burrow { hole_open: true, next_open: false, phase: RiftPhase::Swallow, ticks: 0, ..b },
                 BurrowEvents { enter_next: true, ..quiet() })
            } else {
                (Burrow { ticks: n, ..b }, quiet())
            }
        },
        RiftPhase::Swallow => {
            if under {
                (Burrow { hole_open: false, next_open: false, phase: RiftPhase::Underground, ticks: 0, ..b }, quiet())
            } else {
                (Burrow { ticks: n, ..b }, quiet())
            }
        },
        RiftPhase::Underground => {
            if n >= t.rift_hidden {
                (Burrow { hole_open: true, phase: RiftPhase::Emerge, ticks: 0, surfaced: (b.surfaced + 1) as u32, ..b },
                 BurrowEvents { erupt: true, ..quiet() })
            } else {
                (Burrow { ticks: n, ..b }, quiet())
            }
        },
        RiftPhase::Emerge => {
            if clear {
                if b.surfaced < t.rift_count && n >= t.rift_surface {
                    (Burrow { hole_open: false, next_open: true, phase: RiftPhase::Approach, ticks: 0, ..b },
                     BurrowEvents { open_next: true, ..quiet() })
                } else {
                    (Burrow { hole_open: false, ticks: n, ..b }, quiet())
                }
            } else {
                (Burrow { ticks: n, ..b }, quiet())
            }
        },
    }
}

/// One tick of the rift strikes. `act_ticks` is the act's clock: during its
/// first `telegraph_ticks` the burrow only winds up.
pub fn burrow_tick(b: &mut Burrow, act_ticks: u32, t: &SerpentTuning, head_in: bool, under: bool, clear: bool) -> (ev: BurrowEvents)
    requires
        old(b).ticks < u32::MAX,
        old(b).surfaced < u32::MAX,
    ensures
        act_ticks < t.telegraph_ticks ==> (*final(b), ev) == burrow_windup(*old(b)),
        act_ticks >= t.telegraph_ticks ==> (*final(b), ev) == burrow_step(*old(b), *t, head_in, under, clear),
{
    let mut ev = BurrowEvents { open_next: false, enter_next: false, erupt: false };
    if act_ticks < t.telegraph_ticks {
        if !b.next_open {
            b.next_open = true;
            b.phase = RiftPhase::Approach;
            b.ticks = 0;
            b.surfaced = 0;
            b.hole_open = false;
            ev.open_next = true;
        }
        return ev;
    }
    b.ticks = b.ticks + 1;
    match b.phase {
        RiftPhase::Approach => {
            if b.next_open && head_in {
                b.hole_open = true;
                b.next_open = false;
                b.phase = RiftPhase::Swallow;
                b.ticks = 0;
                ev.enter_next = true;
            }
        },
        RiftPhase::Swallow => {
            if under {
                b.hole_open = false;
                b.next_open = false;
                b.phase = RiftPhase::Underground;
                b.ticks = 0;
            }
        },
        RiftPhase::Underground => {
            if b.ticks >= t.rift_hidden {
                b.hole_open = true;
                b.phase = RiftPhase::Emerge;
                b.ticks = 0;
                b.surfaced = b.surfaced + 1;
                ev.erupt = true;
            }
        },
        RiftPhase::Emerge => {
            if clear {
                b.hole_open = false;
                if b.surfaced < t.rift_count && b.ticks >= t.rift_surface {
                    b.next_open = true;
                    b.phase = RiftPhase::Approach;
                    b.ticks = 0;
                    ev.open_next = true;
                }
            }
        },
    }
    ev
}

/// The burrow's bound: while diving it has surfaced fewer times than its count,
/// and it never surfaces more than its count.
pub open spec fn burrow_bounded(b: Burrow, t: SerpentTuning) -> bool {
    &&& b.phase != RiftPhase::Emerge ==> b.surfaced < t.rift_count
    &&& b.surfaced <= t.rift_count
}

/// However the portals are reached, a burrow surfaces at most `rift_count` times.
pub proof fn law_burrow_surfaces_at_most_count(b: Burrow, t: SerpentTuning, head_in: bool, under: bool, clear: bool)
    requires
        burrow_bounded(b, t),
    ensures
        burrow_bounded(burrow_step(b, t, head_in, under, clear).0, t),
        t.rift_count > 0 ==> burrow_bounded(burrow_windup(b).0, t),
{
}

/// The burrow goes round Approach → Swallow → Underground → Emerge →
/// Approach, one step at a time, each step restarting the phase clock: the
/// head dives once the portal ahead is open and reached; the body is under
/// once it is all through; it erupts (one more surfacing) after the hidden
/// beat; and only once the tail is clear, the surfacing window has passed
/// and surfacings remain does it head for the next portal, which it opens.
/// Short of its step, a phase only counts one more tick.
pub proof fn law_burrow_phases(b: Burrow, t: SerpentTuning, head_in: bool, under: bool, clear: bool)
    requires
        b.ticks < u32::MAX,
        b.surfaced < u32::MAX,
    ensures
        ({
            let (n, ev) = burrow_step(b, t, head_in, under, clear);
            let moves = match b.phase {
                RiftPhase::Approach => b.next_open && head_in,
                RiftPhase::Swallow => under,
                RiftPhase::Underground => b.ticks + 1 >= t.rift_hidden,
                RiftPhase::Emerge => clear && b.surfaced < t.rift_count && b.ticks + 1 >= t.rift_surface,
            };
            let next = match b.phase {
                RiftPhase::Approach => RiftPhase::Swallow,
                RiftPhase::Swallow => RiftPhase::Underground,
                RiftPhase::Underground => RiftPhase::Emerge,
                RiftPhase::Emerge => RiftPhase::Approach,
            };
            &&& moves ==> n.phase == next && n.ticks == 0
            &&& !moves ==> n.phase == b.phase && n.ticks == b.ticks + 1
            &&& n.surfaced == (if b.phase == RiftPhase::Underground && moves { b.surfaced + 1 } else { b.surfaced as int })
            &&& ev.erupt <==> (b.phase == RiftPhase::Underground && moves)
            &&& ev.enter_next <==> (b.phase == RiftPhase::Approach && moves)
            &&& ev.open_next <==> (b.phase == RiftPhase::Emerge && moves)
            &&& ev.open_next ==> n.next_open
        }),
{
}

/// The wormhole gambit's integer state.
#[derive(Clone, Copy, PartialEq, Eq, Debug, Structural)]
pub struct Gambit {
    /// The reaction window after a capture; zero when nobody is captured.
    pub react: u32,
    /// Ticks until the exit portal has closed.
    pub exit_ticks: u32,
    /// The exit portal the player was delivered from is up.
    pub exit_open: bool,
    /// The entry holes are open.
    pub holes_open: bool,
}

/// What a gambit tick does.
#[derive(Clone, Copy, PartialEq, Eq, Debug, Structural)]
pub struct GambitEvents {
    /// Seed the entry holes around the player.
    pub seed_holes: bool,
    /// The open holes pull the player in.
    pub pull: bool,
    /// The rope was cut as the holes finished charging.
    pub unhooked: bool,
    /// The player fell into a hole and is delivered in front of the head.
    pub captured: bool,
    /// The player tethered inside the reaction window and escaped.
    pub escaped: bool,
    /// The reaction window ran out untethered: the head bites.
    pub bitten: bool,
}

pub open spec fn no_gambit_events() -> GambitEvents {
    GambitEvents { seed_holes: false, pull: false, unhooked: false, captured: false, escaped: false, bitten: false }
}

/// One tick of the gambit, `ticks` into the act. The holes are seeded once per
/// act and charge for the telegraph; then they pull, the rope is cut once as
/// they finish charging, and falling into one delivers the player in front of
/// the head with a reaction window. Tethering inside the window escapes; letting
/// it run out is bitten.
pub open spec fn gambit_step(g: Gambit, hooked: bool, ticks: u32, dead: bool, in_hole: bool, t: SerpentTuning)
    -> (Gambit, bool, GambitEvents)
{
    let g1 = Gambit { exit_ticks: dec(g.exit_ticks), ..g };
    let seed = !g1.holes_open && !g1.exit_open;
    let g2 = if seed { Gambit { holes_open: true, ..g1 } } else { g1 };
    if ticks < t.telegraph_ticks {
        (g2, hooked, GambitEvents { seed_holes: seed, ..no_gambit_events() })
    } else {
        let pull = g2.react == 0 && !dead;
        let cut_now = ticks == t.telegraph_ticks && hooked;
        let h = if ticks == t.telegraph_ticks { false } else { hooked };
        if g2.react == 0 && in_hole {
            (Gambit {
                react: t.gambit_react,
                holes_open: false,
                exit_open: true,
                exit_ticks: (t.gambit_react + t.gambit_exit_close) as u32,
            }, false, GambitEvents { seed_holes: seed, pull, unhooked: cut_now, captured: true, ..no_gambit_events() })
        } else if g2.react == 0 {
            (g2, h, GambitEvents { seed_holes: seed, pull, unhooked: cut_now, ..no_gambit_events() })
        } else if h {
            (Gambit { react: 0, ..g2 }, h,
             GambitEvents { seed_holes: seed, pull, unhooked: cut_now, escaped: true, ..no_gambit_events() })
        } else {
            let r = (g2.react - 1) as u32;
            (Gambit { react: r, ..g2 }, h,
             GambitEvents { seed_holes: seed, pull, unhooked: cut_now, bitten: r == 0, ..no_gambit_events() })
        }
    }
}

pub fn gambit_tick(g: &mut Gambit, hooked: &mut bool, ticks: u32, dead: bool, in_hole: bool, t: &SerpentTuning) -> (ev: GambitEvents)
    requires
        t.gambit_react + t.gambit_exit_close <= u32::MAX,
    ensures
        (*final(g), *final(hooked), ev) == gambit_step(*old(g), *old(hooked), ticks, dead, in_hole, *t),
{
    let mut ev = GambitEvents { seed_holes: false, pull: false, unhooked: false, captured: false, escaped: false, bitten: false };
    if g.exit_ticks > 0 {
        g.exit_ticks = g.exit_ticks - 1;
    }
    if !g.holes_open && !g.exit_open {
        g.holes_open = true;
        ev.seed_holes = true;
    }
    if ticks < t.telegraph_ticks {
        return ev;
    }
    ev.pull = g.react == 0 && !dead;
    if ticks == t.telegraph_ticks {
        ev.unhooked = *hooked;
        *hooked = false;
    }
    if g.react == 0 && in_hole {
        *hooked = false;
        g.react = t.gambit_react;
        g.holes_open = false;
        g.exit_open = true;
        g.exit_ticks = t.gambit_react + t.gambit_exit_close;
        ev.captured = true;
        return ev;
    }
    if g.react == 0 {
        return ev;
    }
    g.react = g.react - 1;
    if *hooked {
        g.react = 0;
        ev.escaped = true;
    } else if g.react == 0 {
        ev.bitten = true;
    }
    ev
}

/// The gambit is fair: a player who tethers inside the reaction window is
/// never bitten, and a bite only comes when the window runs out untethered.
pub proof fn law_tether_escapes_the_bite(g: Gambit, ticks: u32, dead: bool, in_hole: bool, t: SerpentTuning)
    requires
        g.react > 0,
        ticks > t.telegraph_ticks,
    ensures
        !gambit_step(g, true, ticks, dead, in_hole, t).2.bitten,
        gambit_step(g, true, ticks, dead, in_hole, t).2.escaped,
        gambit_step(g, true, ticks, dead, in_hole, t).0.react == 0,
        gambit_step(g, false, ticks, dead, in_hole, t).2.bitten <==> g.react == 1,
{
}

/// The gambit's wind-up and pull: during the telegraph the entry holes are
/// seeded (when none is open) and the player is neither pulled nor cut
/// loose; the telegraph's last tick cuts the rope; after it, the holes pull
/// the player while nobody is captured and the player lives.
pub proof fn law_gambit_pull(g: Gambit, hooked: bool, ticks: u32, dead: bool, in_hole: bool, t: SerpentTuning)
    ensures
        ({
            let (n, h, ev) = gambit_step(g, hooked, ticks, dead, in_hole, t);
            &&& ev.seed_holes <==> (!g.holes_open && !g.exit_open)
            &&& ticks < t.telegraph_ticks ==> h == hooked && !ev.pull && !ev.unhooked && !ev.captured
                && n.react == g.react && n.holes_open == (g.holes_open || !g.exit_open)
            &&& ticks == t.telegraph_ticks ==> !h && (ev.unhooked <==> hooked)
            &&& ticks >= t.telegraph_ticks ==> (ev.pull <==> (g.react == 0 && !dead))
            &&& ticks > t.telegraph_ticks && g.react == 0 && !in_hole ==> h == hooked
            &&& n.exit_ticks == (if ev.captured { (t.gambit_react + t.gambit_exit_close) as u32 }
                else if g.exit_ticks > 0 { (g.exit_ticks - 1) as u32 } else { 0 })
        }),
{
}

/// A capture always opens a reaction window of the full length.
pub proof fn law_capture_opens_window(g: Gambit, hooked: bool, ticks: u32, dead: bool, t: SerpentTuning)
    requires
        g.react == 0,
        ticks >= t.telegraph_ticks,
    ensures
        gambit_step(g, hooked, ticks, dead, true, t).2.captured,
        gambit_step(g, hooked, ticks, dead, true, t).0.react == t.gambit_react,
        !gambit_step(g, hooked, ticks, dead, true, t).1,
{
}

/// The tail launch: nothing during the wind-up, then the tail detaches once
/// and flies. Returns whether it is flying this tick (it detaches on the first
/// tick after the wind-up and starts flying on the next).
pub fn tail_launch_tick(tail_out: &mut bool, ticks: u32, t: &SerpentTuning) -> (flying: bool)
    ensures
        ticks < t.telegraph_ticks ==> *final(tail_out) == *old(tail_out) && !flying,
        ticks >= t.telegraph_ticks ==> *final(tail_out) && flying == *old(tail_out),
{
    if ticks < t.telegraph_ticks {
        return false;
    }
    if !*tail_out {
        *tail_out = true;
        return false;
    }
    true
}

/// A piece the player's buffed hit can land on: living, unshielded, its
/// plating open (`open`) and within reach (`reach`).
pub open spec fn strikeable(parts: Seq<BossPart>, open: Seq<bool>, reach: Seq<bool>, i: int) -> bool {
    &&& 0 <= i < parts.len()
    &&& parts[i].alive
    &&& !parts[i].shielded
    &&& open[i]
    &&& reach[i]
}

/// The piece a hit lands on: the first strikeable one.
pub open spec fn first_strikeable(parts: Seq<BossPart>, open: Seq<bool>, reach: Seq<bool>, i: int) -> bool {
    &&& strikeable(parts, open, reach, i)
    &&& forall|j: int| 0 <= j < i ==> !#[trigger] strikeable(parts, open, reach, j)
}

fn strike_target(parts: &Vec<BossPart>, open: &Vec<bool>, reach: &Vec<bool>) -> (t: Option<usize>)
    requires
        open@.len() == parts@.len(),
        reach@.len() == parts@.len(),
    ensures
        match t {
            Some(i) => first_strikeable(parts@, open@, reach@, i as int),
            None => forall|j: int| 0 <= j < parts@.len() ==> !#[trigger] strikeable(parts@, open@, reach@, j),
        },
{
    let mut i: usize = 0;
    while i < parts.len()
        invariant
            i <= parts@.len(),
            open@.len() == parts@.len(),
            reach@.len() == parts@.len(),
            forall|j: int| 0 <= j < i ==> !#[trigger] strikeable(parts@, open@, reach@, j),
        decreases parts@.len() - i,
    {
        if parts[i].alive && !parts[i].shielded && open[i] && reach[i] {
            return Some(i);
        }
        i = i + 1;
    }
    None
}

/// One tick of the Serpent taking damage. A buffed hit lands on the first
/// living, unshielded, open piece within reach, and only while the
/// invulnerability after a kill has run out; it costs that piece one health.
/// Every other piece, and every piece when the player is not buffed, is left
/// as it was. The invulnerability then counts down by one. Returns whether a
/// piece was destroyed.
pub fn serpent_damage(
    parts: &mut Vec<BossPart>,
    open: &Vec<bool>,
    reach: &Vec<bool>,
    buffed: bool,
    invuln: &mut u32,
    flash: &mut u32,
    t: &SerpentTuning,
) -> (killed: bool)
    requires
        open@.len() == old(parts)@.len(),
        reach@.len() == old(parts)@.len(),
        forall|j: int| 0 <= j < old(parts)@.len() ==> #[trigger] old(parts)@[j].hp > i32::MIN,
    ensures
        ({
            let lands = buffed && *old(invuln) == 0
                && exists|i: int| first_strikeable(old(parts)@, open@, reach@, i);
            &&& lands ==> exists|i: int| {
                &&& first_strikeable(old(parts)@, open@, reach@, i)
                &&& final(parts)@ == old(parts)@.update(i, hit_part(old(parts)@[i]))
                &&& killed == (hit_part(old(parts)@[i]).hp <= 0)
                &&& *final(invuln) == dec(if killed { t.part_invuln } else { 0u32 })
                &&& *final(flash) == 20
            }
            &&& !lands ==> {
                &&& final(parts)@ == old(parts)@
                &&& !killed
                &&& *final(invuln) == dec(*old(invuln))
                &&& *final(flash) == *old(flash)
            }
        }),
{
    let mut killed = false;
    if buffed {
        let target = strike_target(parts, open, reach);
        if let Some(i) = target {
            killed = damage_part(parts, i, invuln, t.part_invuln, flash);
        }
    }
    if *invuln > 0 {
        *invuln = *invuln - 1;
    }
    killed
}

/// Only a buffed player damages the Serpent, only one piece per tick, and
/// never a shielded or destroyed piece, nor one whose plating is shut: the
/// head, shielded until every segment before it is gone, cannot be hurt
/// before then.
pub proof fn law_serpent_hurts_only_open_pieces(parts: Seq<BossPart>, open: Seq<bool>, reach: Seq<bool>, i: int, j: int)
    requires
        first_strikeable(parts, open, reach, i),
        0 <= j < parts.len(),
        !parts[j].alive || parts[j].shielded || !open[j],
    ensures
        i != j,
        forall|k: int| first_strikeable(parts, open, reach, k) ==> k == i,
{
    assert forall|k: int| first_strikeable(parts, open, reach, k) implies k == i by {
        if k < i {
            assert(!strikeable(parts, open, reach, k));
        } else if k > i {
            assert(!strikeable(parts, open, reach, i));
        }
    }
}

/// The Serpent hits the player: a contact cooldown starts, the rope is cut if
/// the strike calls for it, and the buff spends an absorption instead of the
/// player losing a heart. Returns whether a heart is lost.
pub fn strike_player(
    contact_cooldown: &mut u32,
    hooked: &mut bool,
    buff: &mut Buff,
    cut: Cut,
    buffed: bool,
    dead: bool,
    t: &SerpentTuning,
) -> (lose_heart: bool)
    ensures
        *final(contact_cooldown) == t.contact_cooldown,
        *final(hooked) == (*old(hooked) && cut == Cut::Keep),
        *final(buff) == (if buffed { spent(*old(buff)) } else { *old(buff) }),
        lose_heart == (!buffed && !dead),
{
    *contact_cooldown = t.contact_cooldown;
    if cut == Cut::Rope {
        *hooked = false;
    }
    if buffed {
        spend_absorb(buff);
        false
    } else {
        !dead
    }
}

/// The strike that touching a piece makes: none while the contact cooldown
/// runs or the player is dead; the head's touch cuts the rope, the body's
/// only throws.
pub open spec fn contact_for(contact_cooldown: u32, dead: bool, touched: Option<PartId>) -> Option<Cut> {
    if contact_cooldown > 0 || dead {
        None
    } else {
        match touched {
            Some(id) => Some(cut_spec(if id == PartId::Head { Strike::HeadContact } else { Strike::BodyContact })),
            None => None,
        }
    }
}

/// Body contact while the contact cooldown is running (or the player is dead)
/// does nothing; otherwise touching a piece strikes, the head's touch cutting
/// the rope and the body's only throwing.
pub fn contact_cut(contact_cooldown: u32, dead: bool, touched: Option<PartId>) -> (cut: Option<Cut>)
    ensures
        cut == contact_for(contact_cooldown, dead, touched),
{
    if contact_cooldown > 0 || dead {
        return None;
    }
    match touched {
        Some(id) => Some(serpent_cut_for(contact_strike(id))),
        None => None,
    }
}

// ── Laws ────────────────────────────────────────────────────────────────────

/// The Serpent runs out of attacks only once every segment and the head are
/// gone; a lone head always has the gambit and a head with a tail the lash.
pub proof fn law_acts_follow_anatomy(parts: Seq<BossPart>)
    ensures
        acts_for(parts).len() == 0 <==> (live_segments(parts) == 0 && !alive_with(parts, PartId::Head)),
        live_segments(parts) == 0 && alive_with(parts, PartId::Head) && !alive_with(parts, PartId::Tail)
            ==> acts_for(parts) == seq![SerpentAct::WormholeGambit],
        live_segments(parts) == 0 && alive_with(parts, PartId::Head) && alive_with(parts, PartId::Tail)
            ==> acts_for(parts) == seq![SerpentAct::SpineLash],
        live_segments(parts) > 0 ==> acts_for(parts).contains(SerpentAct::Coil),
{
    let a = acts_for(parts);
    if live_segments(parts) > 0 {
        assert(a[0] == SerpentAct::Coil);
    }
    if live_segments(parts) == 0 && alive_with(parts, PartId::Head) && !alive_with(parts, PartId::Tail) {
        assert(a =~= seq![SerpentAct::WormholeGambit]);
    }
    if live_segments(parts) == 0 && alive_with(parts, PartId::Head) && alive_with(parts, PartId::Tail) {
        assert(a =~= seq![SerpentAct::SpineLash]);
    }
}

/// Only deliberate strikes cut the rope.
pub proof fn law_only_aimed_strikes_cut(s: Strike)
    ensures
        cut_spec(s) == Cut::Rope <==> (s == Strike::TailSweep || s == Strike::TailLaunch || s == Strike::Bite
            || s == Strike::HeadContact),
{
}

proof fn lemma_live_segments_mono(parts: Seq<BossPart>, i: int, j: int)
    requires
        0 <= i <= j <= parts.len(),
    ensures
        live_segments(parts.take(i)) <= live_segments(parts.take(j)),
    decreases j - i,
{
    if i < j {
        lemma_live_segments_mono(parts, i, j - 1);
        assert(parts.take(j).drop_last() =~= parts.take(j - 1));
    }
}

proof fn lemma_live_segment_counted(parts: Seq<BossPart>, i: int)
    requires
        0 <= i < parts.len(),
        parts[i].id == PartId::Seg,
        parts[i].alive,
    ensures
        live_segments(parts.take(i + 1)) == live_segments(parts.take(i)) + 1,
{
    assert(parts.take(i + 1).drop_last() =~= parts.take(i));
}

/// Living segments keep their order in the chain and no two share a link: the
/// body closes up over a dead segment instead of leaving a hole.
pub proof fn law_chain_links_distinct(parts: Seq<BossPart>, i: int, j: int)
    requires
        0 <= i < j < parts.len(),
        parts[i].id == PartId::Seg && parts[i].alive,
        parts[j].id == PartId::Seg && parts[j].alive,
    ensures
        chain_index(parts, i, PartId::Seg) < chain_index(parts, j, PartId::Seg),
        chain_index(parts, j, PartId::Seg) < chain_index(parts, 0, PartId::Tail),
{
    lemma_live_segment_counted(parts, i);
    lemma_live_segments_mono(parts, i + 1, j);
    lemma_live_segment_counted(parts, j);
    lemma_live_segments_mono(parts, j + 1, parts.len() as int);
    assert(parts.take(parts.len() as int) =~= parts);
}

} // verus!
