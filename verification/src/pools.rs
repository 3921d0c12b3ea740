//! The names of the scene's pooled objects: each pool is `prefix_0`,
//! `prefix_1`, ... and starts out free, but for the starter hooks.

use vstd::prelude::*;
use crate::level::{texts, lemma_texts_push};

verus! {

/// The character of a decimal digit.
pub open spec fn digit(d: nat) -> char {
    (48 + d % 10) as char
}

/// The decimal text of `n`.
pub open spec fn decimal(n: nat) -> Seq<char>
    decreases n,
{
    if n < 10 {
        seq![digit(n)]
    } else {
        decimal(n / 10).push(digit(n % 10))
    }
}

/// The name of the `i`-th object of a pool.
pub open spec fn pooled(prefix: Seq<char>, i: nat) -> Seq<char> {
    prefix + seq!['_'] + decimal(i)
}

/// The number a run of decimal digits reads as.
pub open spec fn decimal_value(s: Seq<char>) -> int
    decreases s.len(),
{
    if s.len() == 0 {
        0
    } else {
        decimal_value(s.drop_last()) * 10 + (s.last() as int - 48)
    }
}

proof fn lemma_decimal_reads_back(n: nat)
    ensures
        decimal_value(decimal(n)) == n,
    decreases n,
{
    let d: nat = n % 10;
    assert(d % 10 == d);
    assert((48 + d) as char as int == 48 + d);
    assert(digit(d) as int == 48 + d);
    if n >= 10 {
        lemma_decimal_reads_back(n / 10);
        let s = decimal(n);
        assert(s == decimal(n / 10).push(digit(d)));
        assert(s.drop_last() == decimal(n / 10));
        assert(s.last() == digit(d));
        assert(decimal_value(s) == decimal_value(s.drop_last()) * 10 + (s.last() as int - 48));
        assert((n / 10) * 10 + n % 10 == n) by (nonlinear_arith);
    } else {
        let s = decimal(n);
        assert(d == n);
        assert(s == seq![digit(n)]);
        assert(s.drop_last() =~= Seq::<char>::empty());
        assert(decimal_value(s) == decimal_value(s.drop_last()) * 10 + (s.last() as int - 48));
    }
}

/// No two objects of a pool share a name.
pub proof fn law_pool_names_distinct(prefix: Seq<char>, i: nat, j: nat)
    requires
        i != j,
    ensures
        pooled(prefix, i) != pooled(prefix, j),
{
    if pooled(prefix, i) == pooled(prefix, j) {
        let k = prefix.len() + 1;
        assert(pooled(prefix, i).subrange(k as int, pooled(prefix, i).len() as int) =~= decimal(i));
        assert(pooled(prefix, j).subrange(k as int, pooled(prefix, j).len() as int) =~= decimal(j));
        lemma_decimal_reads_back(i);
        lemma_decimal_reads_back(j);
    }
}

/// `usize`'s `to_string`: `Display` writes a `usize` in decimal, without
/// sign or padding.
#[verifier::external_body]
fn decimal_text(i: usize) -> (r: String)
    ensures
        r@ == decimal(i as nat),
{
    i.to_string()
}

/// The name of object `i` of the pool named `prefix`.
pub fn pool_name(prefix: &str, i: usize) -> (r: String)
    ensures
        r@ == pooled(prefix@, i as nat),
{
    let digits = decimal_text(i);
    let mut r = String::from_str(prefix);
    r.append("_");
    r.append(digits.as_str());
    proof {
        reveal_strlit("_");
    }
    r
}

/// The names of a pool's objects from `from` up to (not including) `to`.
pub fn pool_names(prefix: &str, from: usize, to: usize) -> (names: Vec<String>)
    ensures
        from <= to ==> texts(names@) == Seq::new((to - from) as nat, |k: int| pooled(prefix@, (from + k) as nat)),
        from > to ==> names@.len() == 0,
{
    let mut names: Vec<String> = Vec::new();
    let mut i: usize = from;
    while i < to
        invariant
            from <= i <= to || (from > to && i == from),
            from <= to ==> texts(names@) == Seq::new((i - from) as nat, |k: int| pooled(prefix@, (from + k) as nat)),
            from > to ==> names@.len() == 0,
        decreases to - i,
    {
        let ghost before = names@;
        let id = pool_name(prefix, i);
        names.push(id);
        proof {
            lemma_texts_push(before, id);
            assert(Seq::new((i + 1 - from) as nat, |k: int| pooled(prefix@, (from + k) as nat))
                =~= Seq::new((i - from) as nat, |k: int| pooled(prefix@, (from + k) as nat)).push(pooled(prefix@, i as nat)));
        }
        i = i + 1;
    }
    proof {
        if from <= to {
            assert(texts(names@) == Seq::new((to - from) as nat, |k: int| pooled(prefix@, (from + k) as nat)));
        }
    }
    names
}

/// How many objects each pool holds.
#[derive(Clone, Copy, PartialEq, Eq, Debug, Structural)]
pub struct PoolSizes {
    pub hooks: usize,
    /// How many of the hooks are the starter hooks, placed and visible.
    pub starters: usize,
    pub pads: usize,
    pub spinners: usize,
    pub coins: usize,
    pub flips: usize,
    pub score_x2: usize,
    pub zero_g: usize,
    pub gates: usize,
    pub gwells: usize,
    pub turrets: usize,
    pub bullets: usize,
    pub rocket_pads: usize,
    pub space_planets: usize,
    pub space_hooks: usize,
    pub space_coins: usize,
    pub space_blue_coins: usize,
    pub space_blackholes: usize,
    pub space_asteroids: usize,
    pub space_red_coins: usize,
    pub space_oxygen_pickups: usize,
    pub upgrades: usize,
    pub cannons: usize,
    pub boss_bolts: usize,
    pub boss_asteroids: usize,
    pub comets: usize,
    pub comet_warnings: usize,
}

/// The names of every pool the scene is built with.
pub struct PoolSets {
    pub starter_names: Vec<String>,
    pub pool_free: Vec<String>,
    pub pad_free: Vec<String>,
    pub spinner_free: Vec<String>,
    pub coin_free: Vec<String>,
    pub flip_free: Vec<String>,
    pub score_x2_free: Vec<String>,
    pub zero_g_free: Vec<String>,
    pub gate_free: Vec<String>,
    pub gwell_free: Vec<String>,
    pub turret_free: Vec<String>,
    pub bullet_free: Vec<String>,
    pub rocket_pad_free: Vec<String>,
    pub space_planet_free: Vec<String>,
    pub space_hook_free: Vec<String>,
    pub space_coin_free: Vec<String>,
    pub space_blue_coin_free: Vec<String>,
    pub space_bh_free: Vec<String>,
    pub space_asteroid_free: Vec<String>,
    pub space_red_coin_free: Vec<String>,
    pub space_oxygen_pickup_free: Vec<String>,
    pub upgrade_free: Vec<String>,
    pub cannon_free: Vec<String>,
    pub boss_bolt_free: Vec<String>,
    pub boss_asteroid_ids: Vec<String>,
    pub comet_free: Vec<String>,
    pub warn_free: Vec<String>,
}

/// The names `prefix_0` to `prefix_{n-1}`.
pub open spec fn names_of(prefix: Seq<char>, n: nat) -> Seq<Seq<char>> {
    Seq::new(n, |k: int| pooled(prefix, k as nat))
}

/// Every pool's names, all free but the starter hooks.
pub fn pool_sets(n: &PoolSizes) -> (p: PoolSets)
    ensures
        ({
            let starters = if n.starters < n.hooks { n.starters } else { n.hooks };
            &&& texts(p.starter_names@) == names_of("hook"@, starters as nat)
            &&& texts(p.pool_free@) == Seq::new((n.hooks - starters) as nat, |k: int| pooled("hook"@, (starters + k) as nat))
        }),
        texts(p.pad_free@) == names_of("pad"@, n.pads as nat),
        texts(p.spinner_free@) == names_of("spinner"@, n.spinners as nat),
        texts(p.coin_free@) == names_of("coin"@, n.coins as nat),
        texts(p.flip_free@) == names_of("flip"@, n.flips as nat),
        texts(p.score_x2_free@) == names_of("score_x2"@, n.score_x2 as nat),
        texts(p.zero_g_free@) == names_of("zero_g"@, n.zero_g as nat),
        texts(p.gate_free@) == names_of("gate"@, n.gates as nat),
        texts(p.gwell_free@) == names_of("gwell"@, n.gwells as nat),
        texts(p.turret_free@) == names_of("turret"@, n.turrets as nat),
        texts(p.bullet_free@) == names_of("bullet"@, n.bullets as nat),
        texts(p.rocket_pad_free@) == names_of("rocket_pad"@, n.rocket_pads as nat),
        texts(p.space_planet_free@) == names_of("space_planet"@, n.space_planets as nat),
        texts(p.space_hook_free@) == names_of("space_hook"@, n.space_hooks as nat),
        texts(p.space_coin_free@) == names_of("space_coin"@, n.space_coins as nat),
        texts(p.space_blue_coin_free@) == names_of("space_blue_coin"@, n.space_blue_coins as nat),
        texts(p.space_bh_free@) == names_of("space_bh"@, n.space_blackholes as nat),
        texts(p.space_asteroid_free@) == names_of("space_asteroid"@, n.space_asteroids as nat),
        texts(p.space_red_coin_free@) == names_of("space_red_coin"@, n.space_red_coins as nat),
        texts(p.space_oxygen_pickup_free@) == names_of("space_oxygen_pickup"@, n.space_oxygen_pickups as nat),
        texts(p.upgrade_free@) == names_of("upgrade_node"@, n.upgrades as nat),
        texts(p.cannon_free@) == names_of("cannon"@, n.cannons as nat),
        texts(p.boss_bolt_free@) == names_of("boss_bolt"@, n.boss_bolts as nat),
        texts(p.boss_asteroid_ids@) == names_of("boss_asteroid"@, n.boss_asteroids as nat),
        texts(p.comet_free@) == names_of("comet"@, n.comets as nat),
        texts(p.warn_free@) == names_of("comet_warn"@, n.comet_warnings as nat),
{
    let starters = if n.starters < n.hooks { n.starters } else { n.hooks };
    let starter_names = pool_names("hook", 0, starters);
    let pool_free = pool_names("hook", starters, n.hooks);
    assert(texts(starter_names@) =~= names_of("hook"@, starters as nat));
    let p = PoolSets {
        starter_names,
        pool_free,
        pad_free: pool_names("pad", 0, n.pads),
        spinner_free: pool_names("spinner", 0, n.spinners),
        coin_free: pool_names("coin", 0, n.coins),
        flip_free: pool_names("flip", 0, n.flips),
        score_x2_free: pool_names("score_x2", 0, n.score_x2),
        zero_g_free: pool_names("zero_g", 0, n.zero_g),
        gate_free: pool_names("gate", 0, n.gates),
        gwell_free: pool_names("gwell", 0, n.gwells),
        turret_free: pool_names("turret", 0, n.turrets),
        bullet_free: pool_names("bullet", 0, n.bullets),
        rocket_pad_free: pool_names("rocket_pad", 0, n.rocket_pads),
        space_planet_free: pool_names("space_planet", 0, n.space_planets),
        space_hook_free: pool_names("space_hook", 0, n.space_hooks),
        space_coin_free: pool_names("space_coin", 0, n.space_coins),
        space_blue_coin_free: pool_names("space_blue_coin", 0, n.space_blue_coins),
        space_bh_free: pool_names("space_bh", 0, n.space_blackholes),
        space_asteroid_free: pool_names("space_asteroid", 0, n.space_asteroids),
        space_red_coin_free: pool_names("space_red_coin", 0, n.space_red_coins),
        space_oxygen_pickup_free: pool_names("space_oxygen_pickup", 0, n.space_oxygen_pickups),
        upgrade_free: pool_names("upgrade_node", 0, n.upgrades),
        cannon_free: pool_names("cannon", 0, n.cannons),
        boss_bolt_free: pool_names("boss_bolt", 0, n.boss_bolts),
        boss_asteroid_ids: pool_names("boss_asteroid", 0, n.boss_asteroids),
        comet_free: pool_names("comet", 0, n.comets),
        warn_free: pool_names("comet_warn", 0, n.comet_warnings),
    };
    assert(texts(p.pad_free@) =~= names_of("pad"@, n.pads as nat));
    p
}

} // verus!
