//! The run's own bookkeeping around the fights: scoring, the per-frame
//! counters, death and the game-over scene, and the seed of a fresh run.

use vstd::prelude::*;
use std::collections::HashSet;
use crate::arena::sat_add;

verus! {

broadcast use vstd::std_specs::hash::group_hash_axioms;

pub open spec fn sat_mul(a: u32, b: u32) -> u32 {
    if a * b > u32::MAX { u32::MAX } else { (a * b) as u32 }
}

fn saturating_mul(a: u32, b: u32) -> (r: u32)
    ensures
        r == sat_mul(a, b),
{
    match a.checked_mul(b) {
        Some(v) => v,
        None => u32::MAX,
    }
}

/// The multiplier that decorrelates the seeds of runs started in one clock tick.
pub const SEED_SPREAD: u64 = 0x9E37_79B9_7F4A_7C15;

/// The seed of a fresh run: the wall clock, mixed with the run counter so that
/// a restart within the same clock tick still lays out a different level.
pub fn mix_seed(clock: u64, nonce: i32) -> (seed: u64)
    ensures
        seed == clock ^ (((if nonce < 0 { 0 } else { nonce as int }) * SEED_SPREAD as int)
            % 0x1_0000_0000_0000_0000) as u64,
{
    let n: u64 = if nonce < 0 { 0 } else { nonce as u64 };
    clock ^ n.wrapping_mul(SEED_SPREAD)
}

/// The entry of a cosmetic list that a stored selection picks: a negative or
/// missing selection is the first entry and one past the end is the last.
pub fn choice_index(sel: Option<i32>, len: usize) -> (i: usize)
    ensures
        len == 0 ==> i == 0,
        len > 0 ==> i < len,
        len > 0 ==> i == match sel {
            Some(v) => if v <= 0 { 0 } else if v as int >= len { (len - 1) as int } else { v as int },
            None => 0,
        },
{
    let v: usize = match sel {
        Some(v) => if v <= 0 { 0 } else { v as usize },
        None => 0,
    };
    if len == 0 {
        0
    } else if v < len - 1 {
        v
    } else {
        len - 1
    }
}

/// Passive and distance scoring, with the dead-block guard: a block of the
/// level in which the player has lingered too long stops paying time score,
/// for good.
pub struct ScoreBook {
    pub score: u32,
    /// Whole seconds already paid for.
    pub time_awards: u32,
    /// Distance milestones already paid for.
    pub distance_awards: u32,
    /// The block the player is in, and how long they have been there.
    pub active_block: i32,
    pub block_ticks: u32,
    /// Blocks that no longer pay time score.
    pub dead_blocks: HashSet<i32>,
}

/// Score rules.
#[derive(Clone, Copy, PartialEq, Eq, Debug, Structural)]
pub struct ScoreRules {
    /// Ticks in one block after which it stops paying time score.
    pub dead_after: u32,
    /// Ticks per paid second.
    pub ticks_per_award: u32,
    /// Points per paid second.
    pub time_points: u32,
    /// Points per distance milestone.
    pub distance_points: u32,
}

impl ScoreBook {
    /// A fresh run's book: nothing paid, no block yet.
    pub fn new() -> (b: ScoreBook)
        ensures
            b.score == 0,
            b.time_awards == 0,
            b.distance_awards == 0,
            b.active_block == i32::MIN,
            b.block_ticks == 0,
            b.dead_blocks@ == Set::<i32>::empty(),
    {
        ScoreBook {
            score: 0,
            time_awards: 0,
            distance_awards: 0,
            active_block: i32::MIN,
            block_ticks: 0,
            dead_blocks: HashSet::new(),
        }
    }
}

pub open spec fn mult(doubled: bool) -> u32 {
    if doubled { 2 } else { 1 }
}

/// The dwell bookkeeping of one frame: the block the player is in after it,
/// how long they have been there, and which blocks are dead.
pub open spec fn dwell(active: i32, ticks: u32, dead: Set<i32>, block: i32, r: ScoreRules) -> (i32, u32, Set<i32>) {
    if block == active {
        let t = (ticks + 1) as u32;
        (active, t, if t >= r.dead_after { dead.insert(block) } else { dead })
    } else {
        (block, 0, dead)
    }
}

/// The score after the time payout of one frame.
pub open spec fn time_paid(score: u32, paid: u32, clock: u32, dead: bool, doubled: bool, r: ScoreRules) -> u32 {
    let due = clock / r.ticks_per_award;
    if due > paid && !dead {
        sat_add(score, sat_mul(sat_mul((due - paid) as u32, r.time_points), mult(doubled)))
    } else {
        score
    }
}

/// The score after the distance payout of one frame.
pub open spec fn distance_paid(score: u32, paid: u32, reached: u32, doubled: bool, r: ScoreRules) -> u32 {
    if reached > paid {
        sat_add(score, sat_mul(sat_mul((reached - paid) as u32, r.distance_points), mult(doubled)))
    } else {
        score
    }
}

/// One frame of scoring. `block` is the level block the player is in,
/// `clock` the run's tick count, `reached` the distance milestones reached so
/// far, and `doubled` whether the score-doubling pickup is running.
pub fn score_tick(book: &mut ScoreBook, block: i32, clock: u32, reached: u32, doubled: bool, r: &ScoreRules)
    requires
        old(book).block_ticks < u32::MAX,
        r.ticks_per_award > 0,
    ensures
        ({
            let (a, t, d) = dwell(old(book).active_block, old(book).block_ticks, old(book).dead_blocks@, block, *r);
            &&& final(book).active_block == a
            &&& final(book).block_ticks == t
            &&& final(book).dead_blocks@ == d
            &&& final(book).time_awards == if clock / r.ticks_per_award > old(book).time_awards {
                    (clock / r.ticks_per_award) as u32
                } else {
                    old(book).time_awards
                }
            &&& final(book).distance_awards == if reached > old(book).distance_awards { reached } else { old(book).distance_awards }
            &&& final(book).score == distance_paid(
                    time_paid(old(book).score, old(book).time_awards, clock, d.contains(block), doubled, *r),
                    old(book).distance_awards, reached, doubled, *r)
        }),
{
    if block == book.active_block {
        book.block_ticks = book.block_ticks + 1;
        if book.block_ticks >= r.dead_after {
            book.dead_blocks.insert(block);
        }
    } else {
        book.active_block = block;
        book.block_ticks = 0;
    }
    let dead = book.dead_blocks.contains(&block);
    let m: u32 = if doubled { 2 } else { 1 };

    let due = clock / r.ticks_per_award;
    if due > book.time_awards {
        let gained = due - book.time_awards;
        book.time_awards = due;
        if !dead {
            book.score = book.score.saturating_add(saturating_mul(saturating_mul(gained, r.time_points), m));
        }
    }
    if reached > book.distance_awards {
        let gained = reached - book.distance_awards;
        book.score = book.score.saturating_add(saturating_mul(saturating_mul(gained, r.distance_points), m));
        book.distance_awards = reached;
    }
}


// ── Laws of scoring ─────────────────────────────────────────────────────────

/// The score never goes down in a frame.
pub proof fn law_score_never_decreases(score: u32, time_paid_so_far: u32, dist_paid_so_far: u32, clock: u32, reached: u32, dead: bool, doubled: bool, r: ScoreRules)
    requires
        r.ticks_per_award > 0,
    ensures
        distance_paid(time_paid(score, time_paid_so_far, clock, dead, doubled, r), dist_paid_so_far, reached, doubled, r) >= score,
{
}

/// A dead block pays no time score: whatever the clock says, the only points
/// earned there are distance milestones.
pub proof fn law_dead_block_pays_no_time(score: u32, paid: u32, clock: u32, doubled: bool, r: ScoreRules)
    ensures
        time_paid(score, paid, clock, true, doubled, r) == score,
{
}

/// Dead blocks stay dead, and a block in which the player has stayed for the
/// dwell limit is dead after this frame.
pub proof fn law_dead_blocks_only_grow(active: i32, ticks: u32, dead: Set<i32>, block: i32, r: ScoreRules)
    requires
        ticks < u32::MAX,
    ensures
        dead.subset_of(dwell(active, ticks, dead, block, r).2),
        block == active && ticks + 1 >= r.dead_after ==> dwell(active, ticks, dead, block, r).2.contains(block),
{
}

/// Each second and each milestone is paid once: with nothing new reached, a
/// frame pays nothing.
pub proof fn law_paid_once(score: u32, paid: u32, dist_paid: u32, clock: u32, reached: u32, dead: bool, doubled: bool, r: ScoreRules)
    requires
        r.ticks_per_award > 0,
        clock / r.ticks_per_award <= paid,
        reached <= dist_paid,
    ensures
        distance_paid(time_paid(score, paid, clock, dead, doubled, r), dist_paid, reached, doubled, r) == score,
{
}

// ── Per-frame counters ──────────────────────────────────────────────────────

/// The counters every frame advances.
#[derive(Clone, Copy, PartialEq, Eq, Debug, Structural)]
pub struct RunClock {
    /// Gameplay ticks of the run.
    pub ticks: u32,
    /// Ticks before a spinner can hit again.
    pub spinner_cooldown: u32,
    /// Frame counter for the visual cycles; it wraps.
    pub frame: u32,
}

/// Advance the counters by one frame.
pub fn advance_clock(c: &mut RunClock)
    requires
        old(c).ticks < u32::MAX,
    ensures
        final(c).ticks == old(c).ticks + 1,
        final(c).spinner_cooldown == if old(c).spinner_cooldown > 0 { (old(c).spinner_cooldown - 1) as u32 } else { 0 },
        final(c).frame == if old(c).frame == u32::MAX { 0 } else { (old(c).frame + 1) as u32 },
{
    c.ticks = c.ticks + 1;
    if c.spinner_cooldown > 0 {
        c.spinner_cooldown = c.spinner_cooldown - 1;
    }
    c.frame = c.frame.wrapping_add(1);
}

/// The intro's forced camera follow counts down after an orbit launch: it
/// returns whether the follow is forced this frame and the count left.
pub fn follow_recovery_tick(ticks: i32) -> (r: (bool, i32))
    ensures
        ticks <= 0 ==> r == (false, ticks),
        ticks > 0 ==> r.0 && r.1 == ticks - 1,
{
    if ticks > 0 {
        (true, ticks - 1)
    } else {
        (false, ticks)
    }
}

// ── Grab input ──────────────────────────────────────────────────────────────

/// What the grab input did this frame.
#[derive(Clone, Copy, PartialEq, Eq, Debug, Structural)]
pub enum GrabEdge {
    Quiet,
    /// Space or the mouse went down: grab.
    Grab,
    /// Both are up again: release.
    Release,
}

/// The held state of the two grab inputs on the previous frame.
#[derive(Clone, Copy, PartialEq, Eq, Debug, Structural)]
pub struct GrabInput {
    pub space_was: bool,
    pub mouse_was: bool,
}

/// Grab on the rising edge of "space or mouse held", release on its falling
/// edge. After an orbit launch the previous state is forgotten (`reset`), so
/// the press that launched is seen as a fresh grab.
pub fn poll_grab(g: &mut GrabInput, space_now: bool, mouse_now: bool, reset: bool) -> (e: GrabEdge)
    ensures
        ({
            let was = !reset && (old(g).space_was || old(g).mouse_was);
            let now = space_now || mouse_now;
            &&& e == if now && !was { GrabEdge::Grab } else if !now && was { GrabEdge::Release } else { GrabEdge::Quiet }
        }),
        *final(g) == (GrabInput { space_was: space_now, mouse_was: mouse_now }),
{
    if reset {
        g.space_was = false;
        g.mouse_was = false;
    }
    let now = space_now || mouse_now;
    let was = g.space_was || g.mouse_was;
    let e = if now && !was {
        GrabEdge::Grab
    } else if !now && was {
        GrabEdge::Release
    } else {
        GrabEdge::Quiet
    };
    g.space_was = space_now;
    g.mouse_was = mouse_now;
    e
}

/// A toggle flipped on the rising edge of its key.
pub fn toggle_on_press(now: bool, was: &mut bool, flag: &mut bool)
    ensures
        *final(was) == now,
        *final(flag) == if now && !*old(was) { !*old(flag) } else { *old(flag) },
{
    if now && !*was {
        *flag = !*flag;
    }
    *was = now;
}

/// The star field scrolls on its own until `N` is pressed and again once `M`
/// is; `N` wins when both go down together.
pub fn star_scroll_keys(m_now: bool, n_now: bool, m_was: &mut bool, n_was: &mut bool, auto: &mut bool)
    ensures
        *final(m_was) == m_now,
        *final(n_was) == n_now,
        *final(auto) == if n_now && !*old(n_was) {
            false
        } else if m_now && !*old(m_was) {
            true
        } else {
            *old(auto)
        },
{
    if m_now && !*m_was {
        *auto = true;
    }
    if n_now && !*n_was {
        *auto = false;
    }
    *m_was = m_now;
    *n_was = n_now;
}

// ── Death ───────────────────────────────────────────────────────────────────

/// Why the run is over, or a heart lost.
#[derive(Clone, Copy, PartialEq, Eq, Debug, Structural)]
pub enum DeathCause {
    /// Touched the solar ceiling.
    Sun,
    /// Ran out of oxygen in space.
    Oxygen,
    /// Fell out of the play area or ran out of hearts: survivable while
    /// hearts remain.
    Fall,
}

/// The scene a finished run loads.
#[derive(Clone, Copy, PartialEq, Eq, Debug, Structural)]
pub enum GameOverScene {
    Sun,
    Oxygen,
    Plain,
}

/// The death check at the end of a frame. `fell` is whether the player left
/// the play area on the side gravity pulls toward. God mode never dies.
pub fn death_check(god_mode: bool, to_sun: bool, to_oxygen: bool, hearts: i32, fell: bool) -> (d: Option<DeathCause>)
    ensures
        (god_mode || !(to_sun || to_oxygen || hearts <= 0 || fell)) <==> d is None,
        d == Some(DeathCause::Sun) <==> (!god_mode && to_sun),
        d == Some(DeathCause::Oxygen) <==> (!god_mode && !to_sun && to_oxygen),
        d == Some(DeathCause::Fall) <==> (!god_mode && !to_sun && !to_oxygen && (hearts <= 0 || fell)),
{
    if god_mode || !(to_sun || to_oxygen || hearts <= 0 || fell) {
        None
    } else if to_sun {
        Some(DeathCause::Sun)
    } else if to_oxygen {
        Some(DeathCause::Oxygen)
    } else {
        Some(DeathCause::Fall)
    }
}

/// The game-over scene for a death that ended the run.
pub fn gameover_scene(cause: DeathCause) -> (s: GameOverScene)
    ensures
        s == match cause {
            DeathCause::Sun => GameOverScene::Sun,
            DeathCause::Oxygen => GameOverScene::Oxygen,
            DeathCause::Fall => GameOverScene::Plain,
        },
{
    match cause {
        DeathCause::Sun => GameOverScene::Sun,
        DeathCause::Oxygen => GameOverScene::Oxygen,
        DeathCause::Fall => GameOverScene::Plain,
    }
}

} // verus!
