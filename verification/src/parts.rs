//! The parts of a multi-part boss, their health, and phase gating.

use vstd::prelude::*;

verus! {

/// Which piece of a multi-part boss a part is.
#[derive(Clone, Copy, PartialEq, Eq, Debug, Structural)]
pub enum PartId {
    HandL,
    HandR,
    Torso,
    Head,
    Seg,
    Tail,
}

/// Where a part is in its attack cycle.
#[derive(Clone, Copy, PartialEq, Eq, Debug, Structural)]
pub enum PartState {
    Idle,
    Telegraph,
    Attack,
    Recover,
}

/// The integer state of one boss part.
#[derive(Clone, Copy, PartialEq, Eq, Debug, Structural)]
pub struct BossPart {
    pub id: PartId,
    pub hp: i32,
    pub alive: bool,
    pub shielded: bool,
    pub state: PartState,
    pub state_ticks: u32,
    /// The part has just finished an attack, so its post-attack window may be open.
    pub post_attack: bool,
    pub weakpoint_open: bool,
    /// Head only: how many beams the current burst fires.
    pub beam_shots: u32,
    /// Head only: the current beam has already hit the player.
    pub beam_hit_done: bool,
}

/// What a living part contributes to the boss's total health.
pub open spec fn part_hp(p: BossPart) -> int {
    if p.alive && p.hp > 0 { p.hp as int } else { 0 }
}

/// Remaining health: the sum over living parts of their health, negative
/// health counting as none.
pub open spec fn total_hp(parts: Seq<BossPart>) -> int
    decreases parts.len(),
{
    if parts.len() == 0 {
        0
    } else {
        total_hp(parts.drop_last()) + part_hp(parts.last())
    }
}

pub proof fn lemma_total_hp_nonneg(parts: Seq<BossPart>)
    ensures
        total_hp(parts) >= 0,
    decreases parts.len(),
{
    if parts.len() > 0 {
        lemma_total_hp_nonneg(parts.drop_last());
    }
}

/// Total remaining health across all parts (drives the health bar and the win check).
pub fn boss_total_hp(parts: &Vec<BossPart>) -> (total: i32)
    requires
        total_hp(parts@) <= i32::MAX,
    ensures
        total == total_hp(parts@),
{
    let mut sum: i32 = 0;
    let mut i: usize = 0;
    while i < parts.len()
        invariant
            0 <= i <= parts.len(),
            total_hp(parts@) <= i32::MAX,
            sum == total_hp(parts@.take(i as int)),
        decreases parts.len() - i,
    {
        proof {
            assert(parts@.take(i + 1).drop_last() =~= parts@.take(i as int));
            lemma_total_hp_prefix_le(parts@, i + 1);
            lemma_total_hp_nonneg(parts@.take(i as int));
        }
        let p = parts[i];
        if p.alive && p.hp > 0 {
            sum = sum + p.hp;
        }
        i = i + 1;
    }
    proof {
        assert(parts@.take(parts.len() as int) =~= parts@);
    }
    sum
}

/// Health of a prefix never exceeds the health of the whole.
pub proof fn lemma_total_hp_prefix_le(parts: Seq<BossPart>, n: int)
    requires
        0 <= n <= parts.len(),
    ensures
        total_hp(parts.take(n)) <= total_hp(parts),
    decreases parts.len(),
{
    if n == parts.len() {
        assert(parts.take(n) =~= parts);
    } else {
        assert(parts.drop_last().take(n) =~= parts.take(n));
        lemma_total_hp_prefix_le(parts.drop_last(), n);
    }
}

/// Every part before index `i` is destroyed.
pub open spec fn all_dead_before(parts: Seq<BossPart>, i: int) -> bool {
    forall|j: int| 0 <= j < i ==> !(#[trigger] parts[j]).alive
}

/// Part `i` is released by phase gating: it is not first, everything ahead of
/// it is destroyed, and it is itself still alive and shielded.
pub open spec fn released(parts: Seq<BossPart>, i: int) -> bool {
    &&& i > 0
    &&& all_dead_before(parts, i)
    &&& parts[i].alive
    &&& parts[i].shielded
}

/// The parts after one round of phase gating.
pub open spec fn gated(parts: Seq<BossPart>, clear_post_attack: bool) -> Seq<BossPart> {
    Seq::new(parts.len(), |i: int|
        if released(parts, i) {
            BossPart {
                shielded: false,
                post_attack: if clear_post_attack { false } else { parts[i].post_attack },
                ..parts[i]
            }
        } else {
            parts[i]
        })
}

/// Phase gating: once every part ahead of a part is destroyed, that part loses
/// its shield. With `clear_post_attack`, a part that has just become reachable
/// also loses any open post-attack window, since it has not attacked.
pub fn gate_phases(parts: &mut Vec<BossPart>, clear_post_attack: bool)
    ensures
        final(parts)@ == gated(old(parts)@, clear_post_attack),
{
    let ghost orig = parts@;
    let n = parts.len();
    // `prefix_dead` is whether parts[0..i] are all destroyed.
    let mut prefix_dead = true;
    let mut i: usize = 0;
    while i < n
        invariant
            n == orig.len(),
            parts@.len() == n,
            0 <= i <= n,
            prefix_dead == all_dead_before(orig, i as int),
            forall|j: int| 0 <= j < i ==> parts@[j] == gated(orig, clear_post_attack)[j],
            forall|j: int| i <= j < n ==> parts@[j] == orig[j],
        decreases n - i,
    {
        let p = parts[i];
        if i > 0 && prefix_dead && p.alive && p.shielded {
            let q = BossPart {
                shielded: false,
                post_attack: if clear_post_attack { false } else { p.post_attack },
                ..p
            };
            parts.set(i, q);
        }
        proof {
            assert(p == orig[i as int]);
            if !all_dead_before(orig, i as int) {
                let k = choose|k: int| 0 <= k < i && orig[k].alive;
                assert(0 <= k < i + 1 && orig[k].alive);
            }
        }
        if p.alive {
            prefix_dead = false;
        }
        i = i + 1;
    }
    proof {
        assert(parts@ =~= gated(orig, clear_post_attack));
    }
}

/// A part after one buffed hit: one health lost, destroyed at zero.
pub open spec fn hit_part(p: BossPart) -> BossPart {
    let h = (p.hp - 1) as i32;
    BossPart { hp: h, alive: if h <= 0 { false } else { p.alive }, ..p }
}

/// Index of the first living part with the given id.
pub open spec fn is_first_alive(parts: Seq<BossPart>, id: PartId, i: int) -> bool {
    &&& 0 <= i < parts.len()
    &&& parts[i].id == id
    &&& parts[i].alive
    &&& forall|j: int| 0 <= j < i ==> !(#[trigger] parts[j].id == id && parts[j].alive)
}

pub fn first_alive_with_id(parts: &Vec<BossPart>, id: PartId) -> (found: Option<usize>)
    ensures
        match found {
            Some(i) => is_first_alive(parts@, id, i as int),
            None => forall|j: int| 0 <= j < parts@.len() ==> !(#[trigger] parts@[j].id == id && parts@[j].alive),
        },
{
    let mut i: usize = 0;
    while i < parts.len()
        invariant
            0 <= i <= parts.len(),
            forall|j: int| 0 <= j < i ==> !(#[trigger] parts@[j].id == id && parts@[j].alive),
        decreases parts.len() - i,
    {
        if parts[i].id == id && parts[i].alive {
            return Some(i);
        }
        i = i + 1;
    }
    None
}

/// A part can be hurt only while it lives and wears no shield.
pub open spec fn hittable(p: BossPart) -> bool {
    p.alive && !p.shielded
}

/// A buffed hit that lands on part `i`. A part that is destroyed or shielded
/// takes no damage. The boss is briefly invulnerable after a part is
/// destroyed, so two parts can't be killed back to back: while `invuln` is
/// running the hit does nothing. Otherwise the part loses one health
/// (destroyed at zero, which starts the invulnerability window) and the hit
/// flash starts. Returns whether the part was destroyed.
pub fn damage_part(parts: &mut Vec<BossPart>, i: usize, invuln: &mut u32, invuln_ticks: u32, flash: &mut u32) -> (killed: bool)
    requires
        i < old(parts)@.len(),
        old(parts)@[i as int].hp > i32::MIN,
    ensures
        *old(invuln) == 0 && hittable(old(parts)@[i as int]) ==> {
            &&& final(parts)@ == old(parts)@.update(i as int, hit_part(old(parts)@[i as int]))
            &&& killed == (hit_part(old(parts)@[i as int]).hp <= 0)
            &&& *final(invuln) == (if killed { invuln_ticks } else { 0u32 })
            &&& *final(flash) == 20
        },
        !(*old(invuln) == 0 && hittable(old(parts)@[i as int])) ==> {
            &&& final(parts)@ == old(parts)@
            &&& !killed
            &&& *final(invuln) == *old(invuln)
            &&& *final(flash) == *old(flash)
        },
{
    if *invuln != 0 || !parts[i].alive || parts[i].shielded {
        return false;
    }
    let mut p = parts[i];
    p.hp = p.hp - 1;
    let killed = p.hp <= 0;
    if killed {
        p.alive = false;
        *invuln = invuln_ticks;
    }
    parts.set(i, p);
    *flash = 20;
    killed
}

proof fn lemma_total_hp_update(parts: Seq<BossPart>, i: int, q: BossPart)
    requires
        0 <= i < parts.len(),
    ensures
        total_hp(parts.update(i, q)) == total_hp(parts) - part_hp(parts[i]) + part_hp(q),
    decreases parts.len(),
{
    let u = parts.update(i, q);
    if i == parts.len() - 1 {
        assert(u.drop_last() =~= parts.drop_last());
    } else {
        assert(u.drop_last() =~= parts.drop_last().update(i, q));
        lemma_total_hp_update(parts.drop_last(), i, q);
    }
}

/// Each landed hit costs the boss exactly one health.
pub proof fn law_hit_costs_one(parts: Seq<BossPart>, i: int)
    requires
        0 <= i < parts.len(),
        parts[i].alive,
        parts[i].hp > 0,
    ensures
        total_hp(parts.update(i, hit_part(parts[i]))) == total_hp(parts) - 1,
{
    lemma_total_hp_update(parts, i, hit_part(parts[i]));
}

/// The boss has no health left exactly when no living part has health left.
pub proof fn law_total_hp_zero(parts: Seq<BossPart>)
    ensures
        total_hp(parts) >= 0,
        total_hp(parts) == 0 <==> forall|j: int| 0 <= j < parts.len() ==> part_hp(#[trigger] parts[j]) == 0,
    decreases parts.len(),
{
    lemma_total_hp_nonneg(parts);
    if parts.len() > 0 {
        let d = parts.drop_last();
        law_total_hp_zero(d);
        lemma_total_hp_nonneg(d);
        if total_hp(parts) == 0 {
            assert forall|j: int| 0 <= j < parts.len() implies part_hp(#[trigger] parts[j]) == 0 by {
                if j < parts.len() - 1 {
                    assert(d[j] == parts[j]);
                }
            }
        } else {
            if forall|j: int| 0 <= j < parts.len() ==> part_hp(#[trigger] parts[j]) == 0 {
                assert forall|j: int| 0 <= j < d.len() implies part_hp(#[trigger] d[j]) == 0 by {
                    assert(d[j] == parts[j]);
                }
                assert(part_hp(parts[parts.len() - 1]) == 0);
            }
        }
    }
}

/// Phase gating only ever removes shields, never health or life, and a gated
/// boss is gated again to itself.
pub proof fn law_gating_is_stable(parts: Seq<BossPart>, clear: bool)
    ensures
        gated(parts, clear).len() == parts.len(),
        forall|j: int| 0 <= j < parts.len() ==> {
            let q = #[trigger] gated(parts, clear)[j];
            &&& q.hp == parts[j].hp
            &&& q.alive == parts[j].alive
            &&& q.state == parts[j].state
            &&& (q.shielded ==> parts[j].shielded)
        },
        gated(gated(parts, clear), clear) == gated(parts, clear),
{
    let g = gated(parts, clear);
    assert forall|i: int| 0 <= i < g.len() implies !released(g, i) by {
        if released(g, i) {
            assert forall|j: int| 0 <= j < i implies !(#[trigger] parts[j]).alive by {
                assert(!g[j].alive);
            }
            assert(released(parts, i));
        }
    }
    assert(gated(g, clear) =~= g);
}

/// Two boss states whose parts are worth the same health have the same total.
pub proof fn lemma_total_hp_same(a: Seq<BossPart>, b: Seq<BossPart>)
    requires
        a.len() == b.len(),
        forall|j: int| 0 <= j < a.len() ==> part_hp(#[trigger] a[j]) == part_hp(b[j]),
    ensures
        total_hp(a) == total_hp(b),
    decreases a.len(),
{
    if a.len() > 0 {
        assert forall|j: int| 0 <= j < a.len() - 1 implies part_hp(#[trigger] a.drop_last()[j]) == part_hp(b.drop_last()[j]) by {
            assert(a.drop_last()[j] == a[j]);
            assert(b.drop_last()[j] == b[j]);
        }
        lemma_total_hp_same(a.drop_last(), b.drop_last());
    }
}

/// A boss whose parts are each worth no more than another's has no more
/// total health.
pub proof fn lemma_total_hp_le(a: Seq<BossPart>, b: Seq<BossPart>)
    requires
        a.len() == b.len(),
        forall|j: int| 0 <= j < a.len() ==> part_hp(#[trigger] a[j]) <= part_hp(b[j]),
    ensures
        total_hp(a) <= total_hp(b),
    decreases a.len(),
{
    if a.len() > 0 {
        assert forall|j: int| 0 <= j < a.len() - 1 implies part_hp(#[trigger] a.drop_last()[j]) <= part_hp(b.drop_last()[j]) by {
            assert(a.drop_last()[j] == a[j]);
            assert(b.drop_last()[j] == b[j]);
        }
        lemma_total_hp_le(a.drop_last(), b.drop_last());
    }
}

/// After a round of phase gating, every living part whose predecessors are
/// all destroyed is unshielded, and the boss's health is what it was.
pub proof fn law_gating_exposes_next(parts: Seq<BossPart>, clear: bool)
    ensures
        forall|i: int| 0 < i < parts.len() && all_dead_before(gated(parts, clear), i)
            && #[trigger] gated(parts, clear)[i].alive ==> !gated(parts, clear)[i].shielded,
        total_hp(gated(parts, clear)) == total_hp(parts),
{
    let g = gated(parts, clear);
    assert forall|i: int| 0 < i < parts.len() && all_dead_before(g, i) && #[trigger] g[i].alive implies !g[i].shielded by {
        assert forall|j: int| 0 <= j < i implies !(#[trigger] parts[j]).alive by {
            assert(!g[j].alive);
        }
    }
    assert forall|j: int| 0 <= j < parts.len() implies part_hp(#[trigger] g[j]) == part_hp(parts[j]) by {}
    lemma_total_hp_same(g, parts);
}

/// The boss is beaten once no part is alive.
pub fn all_parts_down(parts: &Vec<BossPart>) -> (down: bool)
    ensures
        down == all_dead_before(parts@, parts@.len() as int),
{
    let mut i: usize = 0;
    while i < parts.len()
        invariant
            i <= parts.len(),
            all_dead_before(parts@, i as int),
        decreases parts.len() - i,
    {
        if parts[i].alive {
            return false;
        }
        i = i + 1;
    }
    true
}

/// Whether any living part still wears its shield (the boss then glows).
pub fn any_shielded(parts: &Vec<BossPart>) -> (s: bool)
    ensures
        s == exists|j: int| 0 <= j < parts@.len() && #[trigger] parts@[j].alive && parts@[j].shielded,
{
    let mut i: usize = 0;
    while i < parts.len()
        invariant
            i <= parts.len(),
            forall|j: int| 0 <= j < i ==> !(#[trigger] parts@[j].alive && parts@[j].shielded),
        decreases parts.len() - i,
    {
        if parts[i].alive && parts[i].shielded {
            return true;
        }
        i = i + 1;
    }
    false
}

/// A beaten boss has no health left.
pub proof fn law_beaten_boss_has_no_health(parts: Seq<BossPart>)
    requires
        all_dead_before(parts, parts.len() as int),
    ensures
        total_hp(parts) == 0,
{
    law_total_hp_zero(parts);
    assert forall|j: int| 0 <= j < parts.len() implies part_hp(#[trigger] parts[j]) == 0 by {
        assert(!parts[j].alive);
    }
}

/// Phase gating never exposes a part while a part ahead of it lives: the
/// Serpent's head stays shielded until every segment before it is gone.
pub proof fn law_gating_waits_for_those_ahead(parts: Seq<BossPart>, clear: bool, i: int, j: int)
    requires
        0 <= j < i < parts.len(),
        parts[j].alive,
        parts[i].shielded,
    ensures
        gated(parts, clear)[i].shielded,
{
    assert(!all_dead_before(parts, i));
}

} // verus!
