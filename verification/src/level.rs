//! The object pools of the level, by id, and the one-shot clear of the level
//! when a fight begins.

use vstd::prelude::*;

verus! {

/// The text of each id.
pub open spec fn texts(s: Seq<String>) -> Seq<Seq<char>> {
    s.map_values(|x: String| x@)
}

/// The id followed by the suffix.
fn suffixed(id: &String, suffix: &str) -> (r: String)
    ensures
        r@ == id@ + suffix@,
{
    let mut r = String::from_str(id.as_str());
    r.append(suffix);
    r
}

/// Whether `id` is one of `ids` (compared by text).
pub fn is_listed(id: &String, ids: &Vec<String>) -> (r: bool)
    ensures
        r == texts(ids@).contains(id@),
{
    let mut i: usize = 0;
    while i < ids.len()
        invariant
            i <= ids.len(),
            forall|j: int| 0 <= j < i ==> ids@[j]@ != id@,
        decreases ids.len() - i,
    {
        if ids[i] == *id {
            assert(texts(ids@)[i as int] == id@);
            return true;
        }
        i = i + 1;
    }
    proof {
        if texts(ids@).contains(id@) {
            let j = choose|j: int| 0 <= j < texts(ids@).len() && texts(ids@)[j] == id@;
            assert(ids@[j]@ == id@);
        }
    }
    false
}

/// One pool of interchangeable objects: those in play and those put away.
pub struct Pool {
    pub live: Vec<String>,
    pub free: Vec<String>,
}

/// Put every object of a pool away, in order. Returns the ids put away.
pub fn put_away(p: &mut Pool) -> (gone: Vec<String>)
    ensures
        final(p).live@.len() == 0,
        final(p).free@ == old(p).free@ + old(p).live@,
        gone@ == old(p).live@,
{
    let gone = p.live.clone();
    p.free.append(&mut p.live);
    gone
}


pub proof fn lemma_texts_add(a: Seq<String>, b: Seq<String>)
    ensures
        texts(a + b) == texts(a) + texts(b),
{
    assert(texts(a + b) =~= texts(a) + texts(b));
}

pub proof fn lemma_texts_push(a: Seq<String>, x: String)
    ensures
        texts(a.push(x)) == texts(a).push(x@),
{
    assert(texts(a.push(x)) =~= texts(a).push(x@));
}

/// Each text with the suffix appended.
pub open spec fn suffix_all(s: Seq<Seq<char>>, suffix: Seq<char>) -> Seq<Seq<char>> {
    s.map_values(|x: Seq<char>| x + suffix)
}

/// The two halves of each gate, top then bottom.
pub open spec fn gate_parts(s: Seq<Seq<char>>) -> Seq<Seq<char>>
    decreases s.len(),
{
    if s.len() == 0 {
        seq![]
    } else {
        gate_parts(s.drop_last()).push(s.last() + "_top"@).push(s.last() + "_bot"@)
    }
}

/// The texts of `s` that are not among `ids`, in order.
pub open spec fn without(s: Seq<Seq<char>>, ids: Seq<Seq<char>>) -> Seq<Seq<char>>
    decreases s.len(),
{
    if s.len() == 0 {
        seq![]
    } else if ids.contains(s.last()) {
        without(s.drop_last(), ids)
    } else {
        without(s.drop_last(), ids).push(s.last())
    }
}

/// `live` after each of `ids` not already in it was added, in order.
pub open spec fn enrolled(live: Seq<Seq<char>>, ids: Seq<Seq<char>>) -> Seq<Seq<char>>
    decreases ids.len(),
{
    if ids.len() == 0 {
        live
    } else {
        let before = enrolled(live, ids.drop_last());
        if before.contains(ids.last()) { before } else { before.push(ids.last()) }
    }
}

/// Copy `src` onto the end of `dst`.
fn extend_from(dst: &mut Vec<String>, src: &Vec<String>)
    ensures
        texts(final(dst)@) == texts(old(dst)@) + texts(src@),
{
    let mut i: usize = 0;
    while i < src.len()
        invariant
            i <= src.len(),
            texts(dst@) == texts(old(dst)@) + texts(src@.take(i as int)),
        decreases src.len() - i,
    {
        let ghost before = dst@;
        dst.push(src[i].clone());
        proof {
            lemma_texts_push(before, src@[i as int]);
            assert(src@.take(i as int + 1) == src@.take(i as int).push(src@[i as int]));
            lemma_texts_push(src@.take(i as int), src@[i as int]);
        }
        i = i + 1;
    }
    assert(src@.take(src@.len() as int) == src@);
}

/// Copy each of `src`, with `suffix` appended, onto the end of `dst`.
fn extend_suffixed(dst: &mut Vec<String>, src: &Vec<String>, suffix: &str)
    ensures
        texts(final(dst)@) == texts(old(dst)@) + suffix_all(texts(src@), suffix@),
{
    let mut i: usize = 0;
    while i < src.len()
        invariant
            i <= src.len(),
            texts(dst@) == texts(old(dst)@) + suffix_all(texts(src@.take(i as int)), suffix@),
        decreases src.len() - i,
    {
        let ghost before = dst@;
        let named = suffixed(&src[i], suffix);
        dst.push(named);
        proof {
            lemma_texts_push(before, named);
            assert(src@.take(i as int + 1) == src@.take(i as int).push(src@[i as int]));
            lemma_texts_push(src@.take(i as int), src@[i as int]);
            assert(suffix_all(texts(src@.take(i as int + 1)), suffix@)
                =~= suffix_all(texts(src@.take(i as int)), suffix@).push(src@[i as int]@ + suffix@));
        }
        i = i + 1;
    }
    assert(src@.take(src@.len() as int) == src@);
}

/// Copy the top and bottom halves of each gate onto the end of `dst`.
fn extend_gate_parts(dst: &mut Vec<String>, gates: &Vec<String>)
    ensures
        texts(final(dst)@) == texts(old(dst)@) + gate_parts(texts(gates@)),
{
    let mut i: usize = 0;
    while i < gates.len()
        invariant
            i <= gates.len(),
            texts(dst@) == texts(old(dst)@) + gate_parts(texts(gates@.take(i as int))),
        decreases gates.len() - i,
    {
        let ghost before = dst@;
        let top = suffixed(&gates[i], "_top");
        let bot = suffixed(&gates[i], "_bot");
        dst.push(top);
        dst.push(bot);
        proof {
            lemma_texts_push(before, top);
            lemma_texts_push(before.push(top), bot);
            assert(gates@.take(i as int + 1) == gates@.take(i as int).push(gates@[i as int]));
            lemma_texts_push(gates@.take(i as int), gates@[i as int]);
            let t = texts(gates@.take(i as int + 1));
            assert(t.drop_last() == texts(gates@.take(i as int)));
        }
        i = i + 1;
    }
    assert(gates@.take(gates@.len() as int) == gates@);
}

/// The ids of `src` that are not among `ids`, in order.
fn keep_unlisted(src: &Vec<String>, ids: &Vec<String>) -> (r: Vec<String>)
    ensures
        texts(r@) == without(texts(src@), texts(ids@)),
{
    let mut r: Vec<String> = Vec::new();
    let mut i: usize = 0;
    while i < src.len()
        invariant
            i <= src.len(),
            texts(r@) == without(texts(src@.take(i as int)), texts(ids@)),
        decreases src.len() - i,
    {
        let ghost before = r@;
        proof {
            assert(src@.take(i as int + 1) == src@.take(i as int).push(src@[i as int]));
            lemma_texts_push(src@.take(i as int), src@[i as int]);
            let t = texts(src@.take(i as int + 1));
            assert(t.drop_last() == texts(src@.take(i as int)));
        }
        if !is_listed(&src[i], ids) {
            r.push(src[i].clone());
            proof { lemma_texts_push(before, src@[i as int]); }
        }
        i = i + 1;
    }
    assert(src@.take(src@.len() as int) == src@);
    r
}

/// Add each of `ids` to `live` unless it is already there.
fn enroll(live: &mut Vec<String>, ids: &Vec<String>)
    ensures
        texts(final(live)@) == enrolled(texts(old(live)@), texts(ids@)),
{
    let mut i: usize = 0;
    while i < ids.len()
        invariant
            i <= ids.len(),
            texts(live@) == enrolled(texts(old(live)@), texts(ids@.take(i as int))),
        decreases ids.len() - i,
    {
        let ghost before = live@;
        proof {
            assert(ids@.take(i as int + 1) == ids@.take(i as int).push(ids@[i as int]));
            lemma_texts_push(ids@.take(i as int), ids@[i as int]);
            let t = texts(ids@.take(i as int + 1));
            assert(t.drop_last() == texts(ids@.take(i as int)));
        }
        if !is_listed(&ids[i], live) {
            live.push(ids[i].clone());
            proof { lemma_texts_push(before, ids@[i as int]); }
        }
        i = i + 1;
    }
    assert(ids@.take(ids@.len() as int) == ids@);
}

/// Every pool of the level that a fight clears.
pub struct LevelPools {
    pub hooks: Pool,
    pub pads: Pool,
    pub spinners: Pool,
    pub coins: Pool,
    pub flips: Pool,
    pub score_x2: Pool,
    pub zero_g: Pool,
    pub gates: Pool,
    pub gwells: Pool,
    pub turrets: Pool,
    pub bullets: Pool,
    pub rocket_pads: Pool,
    /// The floating asteroids; the arena's own rocks stay in play.
    pub asteroids: Pool,
}

/// What the clear leaves the caller to do.
pub struct Cleared {
    /// Objects to hide and move off-screen, pad thrusters and both halves of
    /// each gate included.
    pub hide: Vec<String>,
    /// Ids whose spawn animations and timers die with them.
    pub gone: Vec<String>,
}

pub open spec fn emptied(old_p: Pool, new_p: Pool) -> bool {
    &&& new_p.live@.len() == 0
    &&& new_p.free@ == old_p.free@ + old_p.live@
}

/// The one-shot clear of the level as the arena opens: every pool is put
/// away, the floating asteroids too except the arena's own rocks
/// (`rocks`), which are enrolled as live asteroids instead.
pub fn clear_level(p: &mut LevelPools, rocks: &Vec<String>) -> (c: Cleared)
    ensures
        emptied(old(p).hooks, final(p).hooks),
        emptied(old(p).pads, final(p).pads),
        emptied(old(p).spinners, final(p).spinners),
        emptied(old(p).coins, final(p).coins),
        emptied(old(p).flips, final(p).flips),
        emptied(old(p).score_x2, final(p).score_x2),
        emptied(old(p).zero_g, final(p).zero_g),
        emptied(old(p).gates, final(p).gates),
        emptied(old(p).gwells, final(p).gwells),
        emptied(old(p).turrets, final(p).turrets),
        emptied(old(p).bullets, final(p).bullets),
        emptied(old(p).rocket_pads, final(p).rocket_pads),
        ({
            let world = without(texts(old(p).asteroids.live@), texts(rocks@));
            &&& texts(final(p).asteroids.free@) == texts(old(p).asteroids.free@) + world
            &&& texts(final(p).asteroids.live@) == enrolled(seq![], texts(rocks@))
            &&& texts(c.hide@) == texts(old(p).hooks.live@)
                + texts(old(p).pads.live@)
                + suffix_all(texts(old(p).pads.live@), "_thruster"@)
                + texts(old(p).spinners.live@)
                + texts(old(p).coins.live@)
                + texts(old(p).flips.live@)
                + texts(old(p).score_x2.live@)
                + texts(old(p).zero_g.live@)
                + gate_parts(texts(old(p).gates.live@))
                + texts(old(p).gwells.live@)
                + texts(old(p).turrets.live@)
                + texts(old(p).bullets.live@)
                + texts(old(p).rocket_pads.live@)
                + world
            &&& texts(c.gone@) == texts(old(p).hooks.live@)
                + texts(old(p).spinners.live@)
                + texts(old(p).pads.live@)
                + texts(old(p).coins.live@)
                + texts(old(p).flips.live@)
                + texts(old(p).score_x2.live@)
                + texts(old(p).zero_g.live@)
                + texts(old(p).gates.live@)
                + texts(old(p).gwells.live@)
                + texts(old(p).turrets.live@)
                + texts(old(p).rocket_pads.live@)
                + world
        }),
{
    let hooks = put_away(&mut p.hooks);
    let pads = put_away(&mut p.pads);
    let spinners = put_away(&mut p.spinners);
    let coins = put_away(&mut p.coins);
    let flips = put_away(&mut p.flips);
    let sx2 = put_away(&mut p.score_x2);
    let zg = put_away(&mut p.zero_g);
    let gates = put_away(&mut p.gates);
    let gwells = put_away(&mut p.gwells);
    let turrets = put_away(&mut p.turrets);
    let bullets = put_away(&mut p.bullets);
    let rpads = put_away(&mut p.rocket_pads);

    let drifting = p.asteroids.live.clone();
    let world = keep_unlisted(&drifting, rocks);
    let mut freed = world.clone();
    let ghost free0 = p.asteroids.free@;
    p.asteroids.free.append(&mut freed);
    proof { lemma_texts_add(free0, world@); }
    p.asteroids.live = Vec::new();
    enroll(&mut p.asteroids.live, rocks);

    let mut hide: Vec<String> = Vec::new();
    extend_from(&mut hide, &hooks);
    extend_from(&mut hide, &pads);
    extend_suffixed(&mut hide, &pads, "_thruster");
    extend_from(&mut hide, &spinners);
    extend_from(&mut hide, &coins);
    extend_from(&mut hide, &flips);
    extend_from(&mut hide, &sx2);
    extend_from(&mut hide, &zg);
    extend_gate_parts(&mut hide, &gates);
    extend_from(&mut hide, &gwells);
    extend_from(&mut hide, &turrets);
    extend_from(&mut hide, &bullets);
    extend_from(&mut hide, &rpads);
    extend_from(&mut hide, &world);

    let mut gone: Vec<String> = Vec::new();
    extend_from(&mut gone, &hooks);
    extend_from(&mut gone, &spinners);
    extend_from(&mut gone, &pads);
    extend_from(&mut gone, &coins);
    extend_from(&mut gone, &flips);
    extend_from(&mut gone, &sx2);
    extend_from(&mut gone, &zg);
    extend_from(&mut gone, &gates);
    extend_from(&mut gone, &gwells);
    extend_from(&mut gone, &turrets);
    extend_from(&mut gone, &rpads);
    extend_from(&mut gone, &world);
    assert(texts(Seq::<String>::empty()) =~= Seq::<Seq<char>>::empty());
    Cleared { hide, gone }
}

proof fn lemma_push_has(s: Seq<Seq<char>>, y: Seq<char>, x: Seq<char>)
    ensures
        s.push(y).contains(x) <==> (s.contains(x) || x == y),
{
    if s.contains(x) {
        let k = choose|k: int| 0 <= k < s.len() && s[k] == x;
        assert(s.push(y)[k] == x);
    }
    if x == y {
        assert(s.push(y)[s.len() as int] == x);
    }
    if s.push(y).contains(x) {
        let k = choose|k: int| 0 <= k < s.len() + 1 && s.push(y)[k] == x;
        if k < s.len() {
            assert(s[k] == x);
        }
    }
}

/// The arena's own rocks are never put away by the clear, and every other
/// floating asteroid is: the clear keeps exactly the rocks.
pub proof fn law_clear_keeps_the_rocks(live: Seq<Seq<char>>, rocks: Seq<Seq<char>>, x: Seq<char>)
    ensures
        without(live, rocks).contains(x) <==> (live.contains(x) && !rocks.contains(x)),
    decreases live.len(),
{
    if live.len() > 0 {
        let init = live.drop_last();
        let y = live.last();
        law_clear_keeps_the_rocks(init, rocks, x);
        assert(live == init.push(y));
        lemma_push_has(init, y, x);
        if !rocks.contains(y) {
            lemma_push_has(without(init, rocks), y, x);
        }
    }
}

// ── Arena tether nodes ──────────────────────────────────────────────────────

/// Where a tether node of the arena goes: a cell of the main grid, or one of
/// the gap-fill spots between its columns.
#[derive(Clone, Copy, PartialEq, Eq, Debug, Structural)]
pub enum NodeSpot {
    /// Column (left to right) and row (bottom to top) of the grid.
    Grid { col: u32, row: u32 },
    /// Gap between two columns (left to right), and its height (top, middle,
    /// bottom).
    Gap { gap: u32, level: u32 },
}

/// An arena node taken from the hook pool.
pub struct TetherNode {
    pub id: String,
    pub spot: NodeSpot,
    /// A buff node: tethering it charges the player.
    pub buff: bool,
}

pub const GRID_COLS: u32 = 5;
pub const GRID_ROWS: u32 = 6;
pub const GAP_SPOTS: u32 = 4;
pub const GAP_LEVELS: u32 = 3;

/// The grid holds `GRID_COLS * GRID_ROWS` nodes, the gaps `GAP_SPOTS *
/// GAP_LEVELS` more.
pub open spec fn node_capacity() -> nat {
    (GRID_COLS * GRID_ROWS + GAP_SPOTS * GAP_LEVELS) as nat
}

/// The spot of the `i`-th node placed: the grid row by row, then the gaps
/// column by column, each from the top down.
pub open spec fn spot_of(i: nat) -> NodeSpot {
    let grid = (GRID_COLS * GRID_ROWS) as nat;
    if i < grid {
        NodeSpot::Grid { col: (i % GRID_COLS as nat) as u32, row: (i / GRID_COLS as nat) as u32 }
    } else {
        NodeSpot::Gap { gap: ((i - grid) as nat / GAP_LEVELS as nat) as u32, level: ((i - grid) as nat % GAP_LEVELS as nat) as u32 }
    }
}

/// Every third node of the grid is a buff node; the gap fills never are.
pub open spec fn buff_slot(i: nat) -> bool {
    i < (GRID_COLS * GRID_ROWS) as nat && i % 3 == 0
}

/// Take the arena's tether nodes from the free hooks, the most recently freed
/// first, and put them in play: as many as the arena has spots, or as the
/// pool has left.
pub fn take_tether_nodes(hooks: &mut Pool) -> (nodes: Vec<TetherNode>)
    ensures
        ({
            let have = old(hooks).free@.len();
            let n = if have < node_capacity() { have } else { node_capacity() };
            &&& nodes@.len() == n
            &&& final(hooks).free@ == old(hooks).free@.take(have - n)
            &&& forall|i: int| 0 <= i < n ==> {
                &&& (#[trigger] nodes@[i]).id@ == old(hooks).free@[have - 1 - i]@
                &&& nodes@[i].spot == spot_of(i as nat)
                &&& nodes@[i].buff == buff_slot(i as nat)
            }
            &&& texts(final(hooks).live@) == texts(old(hooks).live@)
                + Seq::new(n, |i: int| nodes@[i].id@)
        }),
{
    let total: u32 = GRID_COLS * GRID_ROWS + GAP_SPOTS * GAP_LEVELS;
    let grid: u32 = GRID_COLS * GRID_ROWS;
    let ghost have = hooks.free@.len();
    let mut nodes: Vec<TetherNode> = Vec::new();
    let mut i: u32 = 0;
    while i < total
        invariant
            total == node_capacity(),
            grid == GRID_COLS * GRID_ROWS,
            i <= total,
            have == old(hooks).free@.len(),
            nodes@.len() == i,
            i <= have,
            hooks.free@ == old(hooks).free@.take(have - i),
            forall|k: int| 0 <= k < i ==> {
                &&& (#[trigger] nodes@[k]).id@ == old(hooks).free@[have - 1 - k]@
                &&& nodes@[k].spot == spot_of(k as nat)
                &&& nodes@[k].buff == buff_slot(k as nat)
            },
            texts(hooks.live@) == texts(old(hooks).live@) + Seq::new(i as nat, |k: int| nodes@[k].id@),
        ensures
            nodes@.len() == (if have < node_capacity() { have } else { node_capacity() }),
            hooks.free@ == old(hooks).free@.take(have - nodes@.len()),
            forall|k: int| 0 <= k < nodes@.len() ==> {
                &&& (#[trigger] nodes@[k]).id@ == old(hooks).free@[have - 1 - k]@
                &&& nodes@[k].spot == spot_of(k as nat)
                &&& nodes@[k].buff == buff_slot(k as nat)
            },
            texts(hooks.live@) == texts(old(hooks).live@) + Seq::new(nodes@.len(), |k: int| nodes@[k].id@),
        decreases total - i,
    {
        let ghost before_free = hooks.free@;
        let ghost before_live = hooks.live@;
        let ghost before_nodes = nodes@;
        let id = match hooks.free.pop() {
            Some(id) => id,
            None => break,
        };
        assert(before_free.take(before_free.len() - 1) == old(hooks).free@.take(have - i - 1));
        let spot = if i < grid {
            NodeSpot::Grid { col: i % GRID_COLS, row: i / GRID_COLS }
        } else {
            NodeSpot::Gap { gap: (i - grid) / GAP_LEVELS, level: (i - grid) % GAP_LEVELS }
        };
        hooks.live.push(id.clone());
        nodes.push(TetherNode { id, spot, buff: i < grid && i % 3 == 0 });
        proof {
            lemma_texts_push(before_live, nodes@[i as int].id);
            assert(Seq::new((i + 1) as nat, |k: int| nodes@[k].id@)
                =~= Seq::new(i as nat, |k: int| before_nodes[k].id@).push(nodes@[i as int].id@));
        }
        i = i + 1;
    }
    nodes
}

/// Every fourth node in play, from the first, is a shelter from the flares.
pub open spec fn shelter_slot(i: int) -> bool {
    i % 4 == 0
}

/// The nodes that shelter the player from the Flare Titan's flares.
pub fn shelter_ids(live: &Vec<String>) -> (r: Vec<String>)
    ensures
        texts(r@) == Seq::new(((live@.len() + 3) / 4) as nat, |k: int| live@[4 * k]@),
{
    let mut r: Vec<String> = Vec::new();
    let mut i: usize = 0;
    while i < live.len()
        invariant
            i <= live.len(),
            texts(r@) == Seq::new(((i + 3) / 4) as nat, |k: int| live@[4 * k]@),
        decreases live.len() - i,
    {
        let ghost before = r@;
        if i % 4 == 0 {
            r.push(live[i].clone());
            proof {
                lemma_texts_push(before, live@[i as int]);
                assert(Seq::new((((i + 1) + 3) / 4) as nat, |k: int| live@[4 * k]@)
                    =~= Seq::new(((i + 3) / 4) as nat, |k: int| live@[4 * k]@).push(live@[i as int]@));
            }
        } else {
            assert(((i + 1) + 3) / 4 == (i + 3) / 4);
        }
        i = i + 1;
    }
    r
}

/// The buff nodes that wore an aura last frame but no longer do: their aura
/// must be taken off, or a recycled node would keep it.
pub fn stale_auras(previous: &Vec<String>, now: &Vec<String>) -> (r: Vec<String>)
    ensures
        texts(r@) == without(texts(previous@), texts(now@)),
{
    keep_unlisted(previous, now)
}

} // verus!
