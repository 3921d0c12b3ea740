//! The Sun Devourer: a shooting, lunging boss shielded by generators. Its
//! darkness attack, its generators and barrier, its final-phase lunge and its
//! pool of bolts.

use vstd::prelude::*;
use crate::buff::{absorb_bolt, spent, BoltHit, Buff};

verus! {

pub open spec fn dec(x: u32) -> u32 {
    if x > 0 { (x - 1) as u32 } else { x }
}

/// The Sun Devourer's timings.
#[derive(Clone, Copy, PartialEq, Eq, Debug, Structural)]
pub struct SunTuning {
    pub dark_interval: u32,
    pub dark_duration: u32,
    pub lunge_telegraph: u32,
    pub shoot_interval: u32,
    pub bolt_lifetime: u32,
}

// ── Darkness ────────────────────────────────────────────────────────────────

/// The darkness attack: dark for a while, then light until the next one.
#[derive(Clone, Copy, PartialEq, Eq, Debug, Structural)]
pub struct Darkness {
    pub active: bool,
    pub ticks: u32,
    pub cooldown: u32,
}

/// What a darkness tick changes on screen.
#[derive(Clone, Copy, PartialEq, Eq, Debug, Structural)]
pub enum DarkTurn {
    /// Still light.
    Light,
    /// The dark begins: the player becomes the light source.
    Begins,
    /// Still dark.
    Holds,
    /// The dark ends: lighting is restored.
    Ends,
}

pub open spec fn dark_step(d: Darkness, t: SunTuning) -> (Darkness, DarkTurn) {
    if d.active {
        let n = dec(d.ticks);
        if n == 0 {
            (Darkness { active: false, ticks: n, cooldown: t.dark_interval }, DarkTurn::Ends)
        } else {
            (Darkness { ticks: n, ..d }, DarkTurn::Holds)
        }
    } else {
        let n = dec(d.cooldown);
        if n == 0 {
            (Darkness { active: true, ticks: t.dark_duration, cooldown: n }, DarkTurn::Begins)
        } else {
            (Darkness { cooldown: n, ..d }, DarkTurn::Light)
        }
    }
}

pub fn darkness_tick(d: &mut Darkness, t: &SunTuning) -> (turn: DarkTurn)
    ensures
        (*final(d), turn) == dark_step(*old(d), *t),
{
    if d.active {
        d.ticks = d.ticks.saturating_sub(1);
        if d.ticks == 0 {
            d.active = false;
            d.cooldown = t.dark_interval;
            DarkTurn::Ends
        } else {
            DarkTurn::Holds
        }
    } else {
        d.cooldown = d.cooldown.saturating_sub(1);
        if d.cooldown == 0 {
            d.active = true;
            d.ticks = t.dark_duration;
            DarkTurn::Begins
        } else {
            DarkTurn::Light
        }
    }
}

/// Whatever ends the fight (a kill, a fall) clears any darkness in flight and
/// re-arms the next one a full interval away.
pub fn clear_darkness(d: &mut Darkness, t: &SunTuning)
    ensures
        *final(d) == (Darkness { active: false, ticks: 0, cooldown: t.dark_interval }),
{
    d.active = false;
    d.ticks = 0;
    d.cooldown = t.dark_interval;
}

/// The darkness cycle: the light counts down to the next darkness, which
/// begins for its full duration; the dark counts down and, when it runs out,
/// lifts and re-arms a full interval of light.
pub proof fn law_dark_cycle(d: Darkness, t: SunTuning)
    ensures
        !d.active && d.cooldown > 1 ==> dark_step(d, t) == (Darkness { cooldown: (d.cooldown - 1) as u32, ..d }, DarkTurn::Light),
        !d.active && d.cooldown <= 1 ==> dark_step(d, t) == (Darkness { active: true, ticks: t.dark_duration, cooldown: 0 }, DarkTurn::Begins),
        d.active && d.ticks > 1 ==> dark_step(d, t) == (Darkness { ticks: (d.ticks - 1) as u32, ..d }, DarkTurn::Holds),
        d.active && d.ticks <= 1 ==> dark_step(d, t) == (Darkness { active: false, ticks: 0, cooldown: t.dark_interval }, DarkTurn::Ends),
{
}

/// Darkness never outlasts its duration: from a begin, the dark ends after
/// exactly `dark_duration` ticks.
pub proof fn law_dark_lasts_duration(d: Darkness, t: SunTuning)
    requires
        d.active,
        d.ticks > 0,
    ensures
        dark_n(d, t, (d.ticks - 1) as nat).active,
        !dark_n(d, t, d.ticks as nat).active,
        dark_n(d, t, d.ticks as nat).cooldown == t.dark_interval,
    decreases d.ticks,
{
    if d.ticks == 1 {
        assert(dark_n(d, t, 0) == d);
        assert(dark_n(d, t, 1) == dark_step(dark_n(d, t, 0), t).0);
    } else {
        let e = dark_step(d, t).0;
        assert(e.active && e.ticks == d.ticks - 1);
        law_dark_lasts_duration(e, t);
        lemma_dark_n_shift(d, t, d.ticks as nat);
        lemma_dark_n_shift(d, t, (d.ticks - 1) as nat);
    }
}

/// `n` darkness ticks.
pub open spec fn dark_n(d: Darkness, t: SunTuning, n: nat) -> Darkness
    decreases n,
{
    if n == 0 { d } else { dark_step(dark_n(d, t, (n - 1) as nat), t).0 }
}

proof fn lemma_dark_n_shift(d: Darkness, t: SunTuning, n: nat)
    requires
        n > 0,
    ensures
        dark_n(d, t, n) == dark_n(dark_step(d, t).0, t, (n - 1) as nat),
    decreases n,
{
    if n > 1 {
        lemma_dark_n_shift(d, t, (n - 1) as nat);
        assert(dark_n(d, t, n) == dark_step(dark_n(d, t, (n - 1) as nat), t).0);
        assert(dark_n(dark_step(d, t).0, t, (n - 1) as nat)
            == dark_step(dark_n(dark_step(d, t).0, t, (n - 2) as nat), t).0);
    } else {
        assert(dark_n(d, t, 0) == d);
        assert(dark_n(dark_step(d, t).0, t, 0) == dark_step(d, t).0);
    }
}

// ── Generators and barrier ──────────────────────────────────────────────────

/// How many times `j` occurs in `s`.
pub open spec fn count_of(s: Seq<usize>, j: int) -> int
    decreases s.len(),
{
    if s.len() == 0 {
        0
    } else {
        count_of(s.drop_last(), j) + if s.last() == j { 1int } else { 0int }
    }
}

/// The generators are still up: there are some and one of them has health.
pub open spec fn generators_up(hp: Seq<i32>) -> bool {
    hp.len() > 0 && exists|j: int| 0 <= j < hp.len() && #[trigger] hp[j] > 0
}

/// All generators are down: there are some and none has health left.
pub open spec fn generators_down(hp: Seq<i32>) -> bool {
    hp.len() > 0 && forall|j: int| 0 <= j < hp.len() ==> #[trigger] hp[j] <= 0
}

pub fn any_generator_up(hp: &Vec<i32>) -> (up: bool)
    ensures
        up == generators_up(hp@),
{
    let mut i: usize = 0;
    while i < hp.len()
        invariant
            0 <= i <= hp.len(),
            forall|j: int| 0 <= j < i ==> #[trigger] hp@[j] <= 0,
        decreases hp.len() - i,
    {
        if hp[i] > 0 {
            return true;
        }
        i = i + 1;
    }
    false
}

pub fn all_generators_down(hp: &Vec<i32>) -> (down: bool)
    ensures
        down == generators_down(hp@),
{
    if hp.len() == 0 {
        return false;
    }
    let mut i: usize = 0;
    while i < hp.len()
        invariant
            0 <= i <= hp.len(),
            hp.len() > 0,
            forall|j: int| 0 <= j < i ==> #[trigger] hp@[j] <= 0,
        decreases hp.len() - i,
    {
        if hp[i] > 0 {
            return false;
        }
        i = i + 1;
    }
    true
}

/// Set up the finale's dressing as the arena opens: `count` generators at
/// full health, the barrier up, the final phase not begun, and the lunge
/// wound back to a full telegraph.
pub fn arm_generators(
    hp: &mut Vec<i32>,
    barrier_up: &mut bool,
    final_phase: &mut bool,
    lunge: &mut Lunge,
    count: usize,
    full: i32,
    t: &SunTuning,
)
    ensures
        final(hp)@ == Seq::new(count as nat, |k: int| full),
        *final(barrier_up),
        !*final(final_phase),
        *final(lunge) == (Lunge { telegraph: t.lunge_telegraph, ticks: 0 }),
{
    hp.clear();
    let mut k: usize = 0;
    while k < count
        invariant
            k <= count,
            hp@ == Seq::new(k as nat, |j: int| full),
        decreases count - k,
    {
        hp.push(full);
        assert(hp@ =~= Seq::new((k + 1) as nat, |j: int| full));
        k = k + 1;
    }
    *barrier_up = true;
    *final_phase = false;
    lunge.telegraph = t.lunge_telegraph;
    lunge.ticks = 0;
}

/// What the forcefields show: the arena's boundary while the fight is on, and
/// the ring around the boss while it is up and a generator still stands.
#[derive(Clone, Copy, PartialEq, Eq, Debug, Structural)]
pub struct Forcefields {
    pub boundary: bool,
    pub ring: bool,
}

pub fn forcefields(active: bool, hp: i32, spawned: bool, generators: &Vec<i32>) -> (f: Forcefields)
    ensures
        f == (Forcefields {
            boundary: active && hp > 0,
            ring: active && hp > 0 && spawned && generators_up(generators@),
        }),
{
    let fighting = active && hp > 0;
    let up = any_generator_up(generators);
    Forcefields { boundary: fighting, ring: fighting && spawned && up }
}

/// Generators hit this tick (by a buffed player, or by the boss crashing into
/// them; each named at most once) each lose one health; indices out of range
/// are ignored. Once
/// every generator is down the barrier falls and the final phase begins.
/// Returns whether it did; with no hits nothing is re-examined.
pub fn damage_generators(
    hp: &mut Vec<i32>,
    damaged: &Vec<usize>,
    barrier_up: &mut bool,
    final_phase: &mut bool,
) -> (fell: bool)
    requires
        damaged@.no_duplicates(),
        forall|j: int| 0 <= j < old(hp)@.len() ==> #[trigger] old(hp)@[j] - count_of(damaged@, j) >= i32::MIN,
    ensures
        final(hp)@.len() == old(hp)@.len(),
        forall|j: int| 0 <= j < old(hp)@.len() ==> #[trigger] final(hp)@[j] == old(hp)@[j] - count_of(damaged@, j),
        forall|j: int| 0 <= j < old(hp)@.len() ==> #[trigger] final(hp)@[j]
            == old(hp)@[j] - (if damaged@.contains(j as usize) { 1int } else { 0int }),
        fell == (damaged@.len() > 0 && generators_down(final(hp)@)),
        fell ==> !*final(barrier_up) && *final(final_phase),
        !fell ==> *final(barrier_up) == *old(barrier_up) && *final(final_phase) == *old(final_phase),
{
    let ghost orig = hp@;
    let mut k: usize = 0;
    while k < damaged.len()
        invariant
            0 <= k <= damaged.len(),
            hp@.len() == orig.len(),
            forall|j: int| 0 <= j < orig.len() ==> #[trigger] orig[j] - count_of(damaged@, j) >= i32::MIN,
            forall|j: int| 0 <= j < orig.len() ==> #[trigger] hp@[j] == orig[j] - count_of(damaged@.take(k as int), j),
        decreases damaged.len() - k,
    {
        proof {
            assert(damaged@.take(k + 1).drop_last() =~= damaged@.take(k as int));
            assert forall|j: int| 0 <= j < orig.len() implies
                count_of(damaged@.take(k + 1), j) <= count_of(damaged@, j) by {
                lemma_count_prefix(damaged@, k + 1, j);
            }
        }
        let i = damaged[k];
        if i < hp.len() {
            let v = hp[i];
            hp.set(i, v - 1);
        }
        k = k + 1;
    }
    proof {
        assert(damaged@.take(damaged.len() as int) =~= damaged@);
        assert(orig.len() == hp.len());
        assert forall|j: int| 0 <= j < orig.len() implies count_of(damaged@, j)
            == (if damaged@.contains(j as usize) { 1int } else { 0int }) by {
            lemma_count_distinct(damaged@, j);
        }
    }
    if damaged.len() == 0 {
        return false;
    }
    let down = all_generators_down(hp);
    if down {
        *barrier_up = false;
        *final_phase = true;
    }
    down
}

/// In a list without repeats, a value occurs once or not at all.
proof fn lemma_count_distinct(s: Seq<usize>, j: int)
    requires
        s.no_duplicates(),
        0 <= j <= usize::MAX,
    ensures
        count_of(s, j) == (if s.contains(j as usize) { 1int } else { 0int }),
    decreases s.len(),
{
    if s.len() > 0 {
        let d = s.drop_last();
        assert(d.no_duplicates()) by {
            assert forall|a: int, b: int| 0 <= a < d.len() && 0 <= b < d.len() && a != b implies d[a] != d[b] by {
                assert(d[a] == s[a] && d[b] == s[b]);
            }
        }
        lemma_count_distinct(d, j);
        if s.last() == j {
            if d.contains(j as usize) {
                let m = choose|m: int| 0 <= m < d.len() && d[m] == j as usize;
                assert(s[m] == s[s.len() - 1]);
            }
            assert(s[s.len() - 1] == j as usize);
        } else {
            if s.contains(j as usize) {
                let m = choose|m: int| 0 <= m < s.len() && s[m] == j as usize;
                assert(m != s.len() - 1);
                assert(d[m] == j as usize);
            }
            if d.contains(j as usize) {
                let m = choose|m: int| 0 <= m < d.len() && d[m] == j as usize;
                assert(s[m] == j as usize);
            }
        }
    }
}

proof fn lemma_count_prefix(s: Seq<usize>, n: int, j: int)
    requires
        0 <= n <= s.len(),
    ensures
        0 <= count_of(s.take(n), j) <= count_of(s, j),
    decreases s.len(),
{
    lemma_count_nonneg(s.take(n), j);
    if n == s.len() {
        assert(s.take(n) =~= s);
    } else {
        assert(s.drop_last().take(n) =~= s.take(n));
        lemma_count_prefix(s.drop_last(), n, j);
        lemma_count_nonneg(s.drop_last(), j);
    }
}

proof fn lemma_count_nonneg(s: Seq<usize>, j: int)
    ensures
        count_of(s, j) >= 0,
    decreases s.len(),
{
    if s.len() > 0 {
        lemma_count_nonneg(s.drop_last(), j);
    }
}

// ── The final-phase lunge ───────────────────────────────────────────────────

/// The lunge: a telegraph, then a charge at where the player was.
#[derive(Clone, Copy, PartialEq, Eq, Debug, Structural)]
pub struct Lunge {
    pub telegraph: u32,
    pub ticks: u32,
}

#[derive(Clone, Copy, PartialEq, Eq, Debug, Structural)]
pub enum LungeTurn {
    /// Winding up.
    Waiting,
    /// The wind-up is over: lock the target on where the player is now.
    LockTarget,
    /// Charging at the locked target.
    Charging,
}

pub open spec fn lunge_step(l: Lunge, t: SunTuning) -> (Lunge, LungeTurn) {
    if l.telegraph > 0 {
        let w = (l.telegraph - 1) as u32;
        if w == 0 {
            (Lunge { telegraph: w, ticks: 90 }, LungeTurn::LockTarget)
        } else {
            (Lunge { telegraph: w, ..l }, LungeTurn::Waiting)
        }
    } else if l.ticks > 0 {
        let n = (l.ticks - 1) as u32;
        (Lunge { ticks: n, telegraph: if n == 0 { t.lunge_telegraph } else { l.telegraph } }, LungeTurn::Charging)
    } else {
        (Lunge { telegraph: t.lunge_telegraph, ..l }, LungeTurn::Waiting)
    }
}

pub fn lunge_tick(l: &mut Lunge, t: &SunTuning) -> (turn: LungeTurn)
    ensures
        (*final(l), turn) == lunge_step(*old(l), *t),
{
    if l.telegraph > 0 {
        l.telegraph = l.telegraph - 1;
        if l.telegraph == 0 {
            l.ticks = 90;
            return LungeTurn::LockTarget;
        }
        return LungeTurn::Waiting;
    }
    if l.ticks > 0 {
        l.ticks = l.ticks - 1;
        if l.ticks == 0 {
            l.telegraph = t.lunge_telegraph;
        }
        return LungeTurn::Charging;
    }
    l.telegraph = if t.lunge_telegraph >= l.telegraph { t.lunge_telegraph } else { l.telegraph };
    LungeTurn::Waiting
}

/// The lunge's rhythm: the wind-up's last tick locks the target and starts
/// a charge of ninety ticks, which the next tick carries on; a charge that
/// runs out re-arms the full wind-up.
pub proof fn law_lunge_rhythm(l: Lunge, t: SunTuning)
    ensures
        lunge_step(l, t).1 == LungeTurn::LockTarget ==> {
            &&& lunge_step(l, t).0 == (Lunge { telegraph: 0, ticks: 90 })
            &&& lunge_step(lunge_step(l, t).0, t).1 == LungeTurn::Charging
        },
        lunge_step(l, t).1 == LungeTurn::Charging && lunge_step(l, t).0.ticks == 0 ==>
            lunge_step(l, t).0.telegraph == t.lunge_telegraph,
        l.telegraph == 0 && l.ticks == 0 ==> lunge_step(l, t) == (Lunge { telegraph: t.lunge_telegraph, ticks: 0 }, LungeTurn::Waiting),
{
}

// ── Bolts ───────────────────────────────────────────────────────────────────

/// The bolt pool: bolts in flight with their remaining lifetime, and the free
/// bolts. A bolt is named by its slot.
pub struct BoltPool {
    pub live: Vec<(usize, u32)>,
    pub free: Vec<usize>,
}

/// The slots of bolts in flight.
pub open spec fn live_ids(live: Seq<(usize, u32)>) -> Seq<usize> {
    live.map_values(|e: (usize, u32)| e.0)
}

/// Every bolt is in exactly one place: no slot is in flight twice, free twice,
/// or both in flight and free.
pub open spec fn pool_wf(live: Seq<(usize, u32)>, free: Seq<usize>) -> bool {
    &&& live_ids(live).no_duplicates()
    &&& free.no_duplicates()
    &&& forall|k: int| 0 <= k < live.len() ==> !free.contains(#[trigger] live[k].0)
}

/// All the slots the pool owns.
pub open spec fn pool_slots(live: Seq<(usize, u32)>, free: Seq<usize>) -> Set<usize> {
    live_ids(live).to_set().union(free.to_set())
}

impl BoltPool {
    pub open spec fn wf(&self) -> bool {
        pool_wf(self.live@, self.free@)
    }

    pub open spec fn slots(&self) -> Set<usize> {
        pool_slots(self.live@, self.free@)
    }
}

/// The shooting clock: every interval the boss fires the most recently freed
/// bolt (if any is free) with a full lifetime.
pub fn fire_bolt(pool: &mut BoltPool, timer: &mut u32, t: &SunTuning) -> (fired: Option<usize>)
    requires
        old(pool).wf(),
    ensures
        final(pool).wf(),
        final(pool).slots() == old(pool).slots(),
        *old(timer) > 0 ==> *final(timer) == *old(timer) - 1 && fired is None && final(pool).live@ == old(pool).live@
            && final(pool).free@ == old(pool).free@,
        *old(timer) == 0 ==> *final(timer) == t.shoot_interval && (match fired {
            Some(id) => {
                &&& old(pool).free@.len() > 0
                &&& id == old(pool).free@.last()
                &&& final(pool).free@ == old(pool).free@.drop_last()
                &&& final(pool).live@ == old(pool).live@.push((id, t.bolt_lifetime))
            },
            None => old(pool).free@.len() == 0 && final(pool).live@ == old(pool).live@
                && final(pool).free@ == old(pool).free@,
        }),
{
    if *timer > 0 {
        *timer = *timer - 1;
        return None;
    }
    *timer = t.shoot_interval;
    let ghost live0 = pool.live@;
    let ghost free0 = pool.free@;
    match pool.free.pop() {
        Some(id) => {
            pool.live.push((id, t.bolt_lifetime));
            proof {
                let l1 = pool.live@;
                assert(live_ids(l1) =~= live_ids(live0).push(id));
                assert(free0 =~= free0.drop_last().push(id));
                assert(free0.contains(id));
                assert(!live_ids(live0).contains(id)) by {
                    if live_ids(live0).contains(id) {
                        let k = choose|k: int| 0 <= k < live_ids(live0).len() && live_ids(live0)[k] == id;
                        assert(live0[k].0 == id);
                    }
                }
                assert forall|k: int| 0 <= k < l1.len() implies !pool.free@.contains(#[trigger] l1[k].0) by {
                    if k < live0.len() {
                        assert(l1[k] == live0[k]);
                        if pool.free@.contains(l1[k].0) {
                            let m = choose|m: int| 0 <= m < pool.free@.len() && pool.free@[m] == l1[k].0;
                            assert(free0[m] == l1[k].0);
                        }
                    } else {
                        if pool.free@.contains(id) {
                            let m = choose|m: int| 0 <= m < pool.free@.len() && pool.free@[m] == id;
                            assert(free0[m] == id);
                            assert(free0[free0.len() - 1] == id);
                        }
                    }
                }
                assert(pool_slots(l1, pool.free@) =~= pool_slots(live0, free0)) by {
                    live_ids(live0).lemma_push_to_set_commute(id);
                    pool.free@.lemma_push_to_set_commute(id);
                }
            }
            Some(id)
        },
        None => None,
    }
}

/// A bolt one tick older.
pub open spec fn aged(e: (usize, u32)) -> (usize, u32) {
    (e.0, dec(e.1))
}

/// The bolts still in flight after a tick, in order.
pub open spec fn survivors(live: Seq<(usize, u32)>) -> Seq<(usize, u32)>
    decreases live.len(),
{
    if live.len() == 0 {
        Seq::empty()
    } else {
        let r = survivors(live.drop_last());
        let e = aged(live.last());
        if e.1 != 0 { r.push(e) } else { r }
    }
}

/// The bolts whose lifetime ran out this tick, in order.
pub open spec fn expired(live: Seq<(usize, u32)>) -> Seq<usize>
    decreases live.len(),
{
    if live.len() == 0 {
        Seq::empty()
    } else {
        let r = expired(live.drop_last());
        let e = aged(live.last());
        if e.1 == 0 { r.push(e.0) } else { r }
    }
}

/// A bolt ages one tick: one with more than a tick of life left stays in
/// flight with a tick less; the others expire and come back.
pub proof fn law_bolt_ageing(live: Seq<(usize, u32)>, k: int)
    requires
        0 <= k < live.len(),
    ensures
        live[k].1 > 1 ==> survivors(live).contains((live[k].0, (live[k].1 - 1) as u32)),
        live[k].1 <= 1 ==> expired(live).contains(live[k].0),
    decreases live.len(),
{
    let d = live.drop_last();
    if k == live.len() - 1 {
        let r = survivors(d);
        let x = expired(d);
        if live[k].1 > 1 {
            assert(survivors(live) == r.push(aged(live.last())));
            assert(survivors(live)[r.len() as int] == (live[k].0, (live[k].1 - 1) as u32));
        } else {
            assert(expired(live) == x.push(live.last().0));
            assert(expired(live)[x.len() as int] == live[k].0);
        }
    } else {
        assert(d[k] == live[k]);
        law_bolt_ageing(d, k);
        let e = aged(live.last());
        if live[k].1 > 1 {
            let w = choose|w: int| 0 <= w < survivors(d).len() && survivors(d)[w] == (live[k].0, (live[k].1 - 1) as u32);
            if e.1 != 0 {
                assert(survivors(live)[w] == survivors(d)[w]);
            }
        } else {
            let w = choose|w: int| 0 <= w < expired(d).len() && expired(d)[w] == live[k].0;
            if e.1 == 0 {
                assert(expired(live)[w] == expired(d)[w]);
            }
        }
    }
}

proof fn lemma_push_contains<A>(s: Seq<A>, y: A, x: A)
    ensures
        s.push(y).contains(x) <==> (s.contains(x) || x == y),
{
    if s.contains(x) {
        let k = choose|k: int| 0 <= k < s.len() && s[k] == x;
        assert(s.push(y)[k] == x);
    }
    if x == y {
        assert(s.push(y)[s.len() as int] == x);
    }
    if s.push(y).contains(x) {
        let k = choose|k: int| 0 <= k < s.push(y).len() && s.push(y)[k] == x;
        if k < s.len() {
            assert(s[k] == x);
        }
    }
}

proof fn lemma_split_members(live: Seq<(usize, u32)>, x: usize)
    ensures
        live_ids(survivors(live)).contains(x) || expired(live).contains(x) <==> live_ids(live).contains(x),
        live_ids(live).no_duplicates() ==> !(live_ids(survivors(live)).contains(x) && expired(live).contains(x)),
        live_ids(live).no_duplicates() ==> live_ids(survivors(live)).no_duplicates() && expired(live).no_duplicates(),
    decreases live.len(),
{
    if live.len() > 0 {
        let d = live.drop_last();
        let e = live.last();
        lemma_split_members(d, x);
        lemma_split_members(d, e.0);
        assert(live_ids(live) =~= live_ids(d).push(e.0));
        if live_ids(live).no_duplicates() {
            assert(!live_ids(d).contains(e.0)) by {
                if live_ids(d).contains(e.0) {
                    let k = choose|k: int| 0 <= k < live_ids(d).len() && live_ids(d)[k] == e.0;
                    assert(live_ids(live)[k] == live_ids(live)[live.len() - 1]);
                }
            }
            assert(live_ids(d).no_duplicates()) by {
                assert forall|i: int, j: int| 0 <= i < live_ids(d).len() && 0 <= j < live_ids(d).len() && i != j
                    implies live_ids(d)[i] != live_ids(d)[j] by {
                    assert(live_ids(d)[i] == live_ids(live)[i]);
                    assert(live_ids(d)[j] == live_ids(live)[j]);
                }
            }
        }
        lemma_push_contains(live_ids(d), e.0, x);
        lemma_push_contains(live_ids(survivors(d)), e.0, x);
        lemma_push_contains(expired(d), e.0, x);
        if aged(e).1 != 0 {
            assert(live_ids(survivors(live)) =~= live_ids(survivors(d)).push(e.0));
            assert(expired(live) == expired(d));
        } else {
            assert(survivors(live) == survivors(d));
            assert(expired(live) =~= expired(d).push(e.0));
        }
    }
}

/// Age every bolt in flight by a tick; those whose lifetime runs out return
/// to the free list (in the order they were in flight). Returns them, so the
/// caller can hide them.
pub fn tick_bolts(pool: &mut BoltPool) -> (recycled: Vec<usize>)
    requires
        old(pool).wf(),
    ensures
        final(pool).live@ == survivors(old(pool).live@),
        final(pool).free@ == old(pool).free@ + expired(old(pool).live@),
        recycled@ == expired(old(pool).live@),
        final(pool).wf(),
        final(pool).slots() == old(pool).slots(),
{
    let ghost live0 = pool.live@;
    let ghost free0 = pool.free@;
    let mut kept: Vec<(usize, u32)> = Vec::new();
    let mut gone: Vec<usize> = Vec::new();
    let mut i: usize = 0;
    while i < pool.live.len()
        invariant
            pool.live@ == live0,
            pool.free@ == free0,
            0 <= i <= live0.len(),
            kept@ == survivors(live0.take(i as int)),
            gone@ == expired(live0.take(i as int)),
        decreases live0.len() - i,
    {
        proof {
            assert(live0.take(i + 1).drop_last() =~= live0.take(i as int));
        }
        let (id, ttl) = pool.live[i];
        let n = if ttl > 0 { ttl - 1 } else { ttl };
        if n != 0 {
            kept.push((id, n));
        } else {
            gone.push(id);
        }
        i = i + 1;
    }
    proof {
        assert(live0.take(live0.len() as int) =~= live0);
    }
    pool.live = kept;
    let mut k: usize = 0;
    while k < gone.len()
        invariant
            pool.live@ == survivors(live0),
            gone@ == expired(live0),
            0 <= k <= gone.len(),
            pool.free@ == free0 + gone@.take(k as int),
        decreases gone.len() - k,
    {
        pool.free.push(gone[k]);
        proof {
            assert(free0 + gone@.take(k + 1) =~= (free0 + gone@.take(k as int)).push(gone@[k as int]));
        }
        k = k + 1;
    }
    proof {
        assert(gone@.take(gone.len() as int) =~= gone@);
        let surv = survivors(live0);
        let exp = expired(live0);
        let f1 = free0 + exp;
        assert forall|x: usize| #![auto] live_ids(surv).contains(x) || exp.contains(x) <==> live_ids(live0).contains(x) by {
            lemma_split_members(live0, x);
        }
        lemma_split_members(live0, 0);
        // No slot twice in the free list.
        assert forall|a: int, b: int| 0 <= a < f1.len() && 0 <= b < f1.len() && a != b implies f1[a] != f1[b] by {
            if a < free0.len() && b >= free0.len() {
                assert(free0.contains(f1[a]));
                lemma_free_not_live(live0, free0, f1[a]);
                lemma_split_members(live0, f1[b]);
                assert(exp[b - free0.len()] == f1[b]);
                assert(exp.contains(f1[b]));
            } else if b < free0.len() && a >= free0.len() {
                assert(free0.contains(f1[b]));
                lemma_free_not_live(live0, free0, f1[b]);
                lemma_split_members(live0, f1[a]);
                assert(exp[a - free0.len()] == f1[a]);
                assert(exp.contains(f1[a]));
            } else if a < free0.len() && b < free0.len() {
                assert(f1[a] == free0[a] && f1[b] == free0[b]);
            } else {
                assert(f1[a] == exp[a - free0.len()] && f1[b] == exp[b - free0.len()]);
            }
        }
        // No slot both in flight and free.
        assert forall|k2: int| 0 <= k2 < surv.len() implies !f1.contains(#[trigger] surv[k2].0) by {
            let x = surv[k2].0;
            assert(live_ids(surv)[k2] == x);
            lemma_split_members(live0, x);
            if f1.contains(x) {
                let m = choose|m: int| 0 <= m < f1.len() && f1[m] == x;
                if m < free0.len() {
                    assert(free0.contains(x));
                    lemma_free_not_live(live0, free0, x);
                } else {
                    assert(exp.contains(x));
                }
            }
        }
        assert(pool_slots(surv, f1) =~= pool_slots(live0, free0)) by {
            assert forall|x: usize| pool_slots(surv, f1).contains(x) <==> pool_slots(live0, free0).contains(x) by {
                lemma_split_members(live0, x);
                if f1.contains(x) {
                    let m = choose|m: int| 0 <= m < f1.len() && f1[m] == x;
                    if m >= free0.len() {
                        assert(exp.contains(x));
                    } else {
                        assert(free0.contains(x));
                    }
                }
                if free0.contains(x) {
                    let m = choose|m: int| 0 <= m < free0.len() && free0[m] == x;
                    assert(f1[m] == x);
                }
                if exp.contains(x) {
                    let m = choose|m: int| 0 <= m < exp.len() && exp[m] == x;
                    assert(f1[free0.len() + m] == x);
                }
            }
        }
    }
    gone
}

proof fn lemma_free_not_live(live: Seq<(usize, u32)>, free: Seq<usize>, x: usize)
    requires
        pool_wf(live, free),
        free.contains(x),
    ensures
        !live_ids(live).contains(x),
{
    if live_ids(live).contains(x) {
        let k = choose|k: int| 0 <= k < live_ids(live).len() && live_ids(live)[k] == x;
        assert(live[k].0 == x);
    }
}

/// Return one bolt in flight to the free list (it hit the player, or the fight
/// ended).
pub fn recycle_bolt(pool: &mut BoltPool, id: usize)
    requires
        old(pool).wf(),
        live_ids(old(pool).live@).contains(id),
    ensures
        exists|k: int| 0 <= k < old(pool).live@.len() && old(pool).live@[k].0 == id
            && final(pool).live@ == old(pool).live@.remove(k),
        final(pool).free@ == old(pool).free@.push(id),
        final(pool).wf(),
        final(pool).slots() == old(pool).slots(),
{
    let ghost live0 = pool.live@;
    let ghost free0 = pool.free@;
    let mut k: usize = 0;
    while k < pool.live.len() && pool.live[k].0 != id
        invariant
            pool.live@ == live0,
            0 <= k <= live0.len(),
            forall|j: int| 0 <= j < k ==> live0[j].0 != id,
            live_ids(live0).contains(id),
        decreases live0.len() - k,
    {
        k = k + 1;
    }
    proof {
        if k == live0.len() {
            let j = choose|j: int| 0 <= j < live_ids(live0).len() && live_ids(live0)[j] == id;
            assert(live0[j].0 == id);
        }
    }
    pool.live.remove(k);
    pool.free.push(id);
    proof {
        let l1 = pool.live@;
        let f1 = pool.free@;
        assert(live0[k as int].0 == id);
        assert(l1 =~= live0.remove(k as int));
        assert(live_ids(l1) =~= live_ids(live0).remove(k as int));
        assert(!free0.contains(id)) by {
            if free0.contains(id) {
                lemma_free_not_live(live0, free0, id);
            }
        }
        assert forall|a: int, b: int| 0 <= a < live_ids(l1).len() && 0 <= b < live_ids(l1).len() && a != b
            implies live_ids(l1)[a] != live_ids(l1)[b] by {
            let a0 = if a < k { a } else { a + 1 };
            let b0 = if b < k { b } else { b + 1 };
            assert(live_ids(l1)[a] == live_ids(live0)[a0]);
            assert(live_ids(l1)[b] == live_ids(live0)[b0]);
        }
        assert forall|j: int| 0 <= j < l1.len() implies !f1.contains(#[trigger] l1[j].0) by {
            let j0 = if j < k { j } else { j + 1 };
            assert(l1[j] == live0[j0]);
            assert(live_ids(live0)[j0] != live_ids(live0)[k as int]);
            if f1.contains(l1[j].0) {
                let m = choose|m: int| 0 <= m < f1.len() && f1[m] == l1[j].0;
                if m < free0.len() {
                    assert(free0[m] == live0[j0].0);
                }
            }
        }
        assert(pool_slots(l1, f1) =~= pool_slots(live0, free0)) by {
            assert forall|x: usize| pool_slots(l1, f1).contains(x) <==> pool_slots(live0, free0).contains(x) by {
                if live_ids(l1).contains(x) {
                    let m = choose|m: int| 0 <= m < live_ids(l1).len() && live_ids(l1)[m] == x;
                    let m0 = if m < k { m } else { m + 1 };
                    assert(live_ids(live0)[m0] == x);
                }
                if live_ids(live0).contains(x) && x != id {
                    let m = choose|m: int| 0 <= m < live_ids(live0).len() && live_ids(live0)[m] == x;
                    assert(m != k);
                    let m1 = if m < k { m } else { m - 1 };
                    assert(live_ids(l1)[m1] == x);
                }
                if f1.contains(x) && x != id {
                    let m = choose|m: int| 0 <= m < f1.len() && f1[m] == x;
                    assert(free0[m] == x);
                }
                if free0.contains(x) {
                    let m = choose|m: int| 0 <= m < free0.len() && free0[m] == x;
                    assert(f1[m] == x);
                }
                if x == id {
                    assert(f1[free0.len() as int] == id);
                    assert(live_ids(live0)[k as int] == id);
                }
            }
        }
    }
}

/// Removing the bolt at `k` takes exactly its slot out of flight.
proof fn lemma_remove_live(live: Seq<(usize, u32)>, k: int, x: usize)
    requires
        live_ids(live).no_duplicates(),
        0 <= k < live.len(),
    ensures
        live_ids(live.remove(k)).contains(x) <==> (live_ids(live).contains(x) && x != live[k].0),
{
    let l1 = live.remove(k);
    if live_ids(l1).contains(x) {
        let m = choose|m: int| 0 <= m < live_ids(l1).len() && live_ids(l1)[m] == x;
        let m0 = if m < k { m } else { m + 1 };
        assert(live_ids(live)[m0] == x);
        assert(live_ids(live)[k] == live[k].0);
    }
    if live_ids(live).contains(x) && x != live[k].0 {
        let m = choose|m: int| 0 <= m < live_ids(live).len() && live_ids(live)[m] == x;
        assert(m != k);
        let m1 = if m < k { m } else { m - 1 };
        assert(live_ids(l1)[m1] == x);
    }
}

/// The bolts that reach the player in one tick (`hits`, each in flight, none
/// twice) are all recycled, in order; then, if any hit, the tick costs the
/// player once, however many bolts it was: the buff absorbs it if it can,
/// otherwise the rope breaks and a heart is lost. Returns what the tick did
/// to the player (`None` when no bolt hit).
pub fn bolts_hit_player(pool: &mut BoltPool, hits: &Vec<usize>, buff: &mut Buff, hooked: &mut bool) -> (hit: Option<BoltHit>)
    requires
        old(pool).wf(),
        hits@.no_duplicates(),
        forall|j: int| 0 <= j < hits@.len() ==> live_ids(old(pool).live@).contains(#[trigger] hits@[j]),
    ensures
        final(pool).wf(),
        final(pool).slots() == old(pool).slots(),
        final(pool).free@ == old(pool).free@ + hits@,
        final(pool).live@.len() == old(pool).live@.len() - hits@.len(),
        forall|x: usize| live_ids(final(pool).live@).contains(x)
            <==> (live_ids(old(pool).live@).contains(x) && !hits@.contains(x)),
        hits@.len() == 0 ==> hit is None && *final(buff) == *old(buff) && *final(hooked) == *old(hooked),
        hits@.len() > 0 ==> hit == Some(if old(buff).level > 0 && old(buff).absorbs > 0 {
            BoltHit::Absorbed
        } else {
            BoltHit::Wounded
        }),
        hit == Some(BoltHit::Wounded) ==> !*final(hooked) && *final(buff) == *old(buff),
        hit == Some(BoltHit::Absorbed) ==> *final(hooked) == *old(hooked)
            && *final(buff) == (Buff { hit_flash: 6, ..spent(*old(buff)) }),
{
    let ghost live0 = pool.live@;
    let ghost free0 = pool.free@;
    let mut i: usize = 0;
    while i < hits.len()
        invariant
            i <= hits@.len(),
            hits@.no_duplicates(),
            pool.wf(),
            pool.slots() == pool_slots(live0, free0),
            pool.free@ == free0 + hits@.take(i as int),
            pool.live@.len() == live0.len() - i,
            forall|j: int| 0 <= j < hits@.len() ==> live_ids(live0).contains(#[trigger] hits@[j]),
            forall|x: usize| live_ids(pool.live@).contains(x)
                <==> (live_ids(live0).contains(x) && !hits@.take(i as int).contains(x)),
        decreases hits@.len() - i,
    {
        let id = hits[i];
        proof {
            assert(!hits@.take(i as int).contains(id)) by {
                if hits@.take(i as int).contains(id) {
                    let m = choose|m: int| 0 <= m < i && hits@.take(i as int)[m] == id;
                    assert(hits@[m] == hits@[i as int]);
                }
            }
            assert(live_ids(live0).contains(hits@[i as int]));
        }
        let ghost before = pool.live@;
        recycle_bolt(pool, id);
        proof {
            let k = choose|k: int| 0 <= k < before.len() && before[k].0 == id
                && pool.live@ == before.remove(k);
            assert(hits@.take(i as int + 1) =~= hits@.take(i as int).push(id));
            assert(pool.free@ =~= free0 + hits@.take(i as int + 1));
            assert forall|x: usize| live_ids(pool.live@).contains(x)
                <==> (live_ids(live0).contains(x) && !hits@.take(i as int + 1).contains(x)) by {
                lemma_remove_live(before, k, x);
                let t0 = hits@.take(i as int);
                let t1 = hits@.take(i as int + 1);
                assert(t1.contains(x) <==> (t0.contains(x) || x == id)) by {
                    if t1.contains(x) {
                        let m = choose|m: int| 0 <= m < t1.len() && t1[m] == x;
                        if m < i {
                            assert(t0[m] == x);
                        }
                    }
                    if t0.contains(x) {
                        let m = choose|m: int| 0 <= m < t0.len() && t0[m] == x;
                        assert(t1[m] == x);
                    }
                    if x == id {
                        assert(t1[i as int] == x);
                    }
                }
            }
        }
        i = i + 1;
    }
    proof {
        assert(hits@.take(hits@.len() as int) =~= hits@);
    }
    if hits.len() == 0 {
        return None;
    }
    let hit = absorb_bolt(buff);
    if hit == BoltHit::Wounded {
        *hooked = false;
    }
    Some(hit)
}

/// Every bolt in flight returns to the free list, in flight order (the fight
/// is over).
pub fn recall_bolts(pool: &mut BoltPool)
    requires
        old(pool).wf(),
    ensures
        final(pool).wf(),
        final(pool).slots() == old(pool).slots(),
        final(pool).live@.len() == 0,
        final(pool).free@ == old(pool).free@ + live_ids(old(pool).live@),
{
    let ghost live0 = pool.live@;
    let ghost free0 = pool.free@;
    let mut i: usize = 0;
    while i < pool.live.len()
        invariant
            pool.live@ == live0,
            i <= live0.len(),
            pool.free@ == free0 + live_ids(live0).take(i as int),
        decreases live0.len() - i,
    {
        let id = pool.live[i].0;
        pool.free.push(id);
        proof {
            assert(live_ids(live0).take(i as int + 1) =~= live_ids(live0).take(i as int).push(id));
        }
        i = i + 1;
    }
    pool.live.clear();
    proof {
        let ids = live_ids(live0);
        assert(ids.take(ids.len() as int) =~= ids);
        let f1 = pool.free@;
        assert forall|a: int, b: int| 0 <= a < f1.len() && 0 <= b < f1.len() && a != b implies f1[a] != f1[b] by {
            if a < free0.len() && b >= free0.len() {
                assert(live0[b - free0.len()].0 == f1[b]);
                assert(!free0.contains(live0[b - free0.len()].0));
                assert(free0[a] == f1[a]);
            } else if b < free0.len() && a >= free0.len() {
                assert(live0[a - free0.len()].0 == f1[a]);
                assert(!free0.contains(live0[a - free0.len()].0));
                assert(free0[b] == f1[b]);
            } else if a >= free0.len() && b >= free0.len() {
                assert(ids[a - free0.len()] == f1[a]);
                assert(ids[b - free0.len()] == f1[b]);
            }
        }
        assert(pool_slots(pool.live@, f1) =~= pool_slots(live0, free0)) by {
            assert(live_ids(pool.live@) =~= Seq::<usize>::empty());
            assert forall|x: usize| f1.to_set().contains(x) <==> pool_slots(live0, free0).contains(x) by {
                if f1.contains(x) {
                    let m = choose|m: int| 0 <= m < f1.len() && f1[m] == x;
                    if m >= free0.len() {
                        assert(ids[m - free0.len()] == x);
                    } else {
                        assert(free0[m] == x);
                    }
                }
                if ids.contains(x) {
                    let m = choose|m: int| 0 <= m < ids.len() && ids[m] == x;
                    assert(f1[free0.len() + m] == x);
                }
                if free0.contains(x) {
                    let m = choose|m: int| 0 <= m < free0.len() && free0[m] == x;
                    assert(f1[m] == x);
                }
            }
        }
    }
}

/// What touching the Sun Devourer's body does.
#[derive(Clone, Copy, PartialEq, Eq, Debug, Structural)]
pub struct BodyHit {
    /// The boss lost a health.
    pub damaged: bool,
    /// The player's rope was torn off.
    pub unhooked: bool,
    /// The player loses a heart.
    pub lose_heart: bool,
    /// The player is pushed away from the body.
    pub pushed: bool,
}

/// The player reaches the boss. Only a buffed hit on a weakpoint, with every
/// generator down (the forcefield gone), damages it. Anything else is body
/// contact: it tears the player off the rope and, unbuffed, costs a heart.
pub fn player_hits_boss(
    hp: &mut i32,
    flash: &mut u32,
    hooked: &mut bool,
    touching: bool,
    buffed: bool,
    near_weakpoint: bool,
    generators_down: bool,
) -> (h: BodyHit)
    requires
        *old(hp) > i32::MIN,
    ensures
        h.pushed == touching,
        h.damaged == (touching && buffed && near_weakpoint && generators_down),
        h.damaged ==> *final(hp) == *old(hp) - 1 && *final(flash) == 20 && *final(hooked) == *old(hooked),
        !h.damaged ==> *final(hp) == *old(hp) && *final(flash) == *old(flash),
        h.unhooked == (touching && !h.damaged && *old(hooked)),
        touching && !h.damaged ==> !*final(hooked),
        !touching ==> *final(hooked) == *old(hooked),
        h.lose_heart == (touching && !h.damaged && !buffed),
{
    if !touching {
        return BodyHit { damaged: false, unhooked: false, lose_heart: false, pushed: false };
    }
    if buffed && near_weakpoint && generators_down {
        *hp = *hp - 1;
        *flash = 20;
        BodyHit { damaged: true, unhooked: false, lose_heart: false, pushed: true }
    } else {
        let was = *hooked;
        *hooked = false;
        BodyHit { damaged: false, unhooked: was, lose_heart: !buffed, pushed: true }
    }
}

/// The forcefield holds while any generator stands: the generators do not
/// count as down, which every damaging hit on the body needs.
pub proof fn law_forcefield_protects(hp: Seq<i32>)
    requires
        generators_up(hp),
    ensures
        !generators_down(hp),
{
    let j = choose|j: int| 0 <= j < hp.len() && #[trigger] hp[j] > 0;
    assert(hp[j] > 0);
}

/// The bolt pool never loses or duplicates a bolt: firing, ageing and
/// recycling keep every slot in exactly one of the two lists.
pub proof fn law_bolts_conserved(live: Seq<(usize, u32)>, free: Seq<usize>)
    requires
        pool_wf(live, free),
    ensures
        pool_slots(survivors(live), free + expired(live)) == pool_slots(live, free),
{
    assert forall|x: usize| pool_slots(survivors(live), free + expired(live)).contains(x)
        <==> pool_slots(live, free).contains(x) by {
        lemma_split_members(live, x);
        let f1 = free + expired(live);
        if f1.contains(x) {
            let m = choose|m: int| 0 <= m < f1.len() && f1[m] == x;
            if m >= free.len() {
                assert(expired(live)[m - free.len()] == x);
            } else {
                assert(free[m] == x);
            }
        }
        if free.contains(x) {
            let m = choose|m: int| 0 <= m < free.len() && free[m] == x;
            assert(f1[m] == x);
        }
        if expired(live).contains(x) {
            let m = choose|m: int| 0 <= m < expired(live).len() && expired(live)[m] == x;
            assert(f1[free.len() + m] == x);
        }
    }
    assert(pool_slots(survivors(live), free + expired(live)) =~= pool_slots(live, free));
}

} // verus!
