//! The player's buff: a damage tool that also shields a limited number of hits.

use vstd::prelude::*;

verus! {

/// The buff as the fight sees it.
#[derive(Clone, Copy, PartialEq, Eq, Debug, Structural)]
pub struct Buff {
    /// Non-zero while the player is buffed.
    pub level: u32,
    /// Ticks of buff left.
    pub timer: u32,
    /// Hits the buff can still absorb.
    pub absorbs: u32,
    /// Ticks left of the "hit absorbed / landed" flash.
    pub hit_flash: u32,
}

impl Buff {
    pub open spec fn active(self) -> bool {
        self.level > 0
    }
}

/// The buff after it ate a hit that was aimed at a buffed player: one absorption
/// is spent, and when none remain the buff ends.
pub open spec fn spent(b: Buff) -> Buff {
    if b.level > 0 {
        let a = if b.absorbs > 0 { (b.absorbs - 1) as u32 } else { 0u32 };
        if a == 0 {
            Buff { level: 0, timer: 0, absorbs: a, ..b }
        } else {
            Buff { absorbs: a, ..b }
        }
    } else {
        b
    }
}

/// A shielded hit costs a buffed player exactly one absorption; the buff
/// ends (with its timer) when none remain, and an unbuffed player is left
/// as they were.
pub proof fn law_hit_spends_one(b: Buff)
    ensures
        b.level == 0 ==> spent(b) == b,
        b.level > 0 && b.absorbs > 1 ==> spent(b) == (Buff { absorbs: (b.absorbs - 1) as u32, ..b }),
        b.level > 0 && b.absorbs <= 1 ==> spent(b) == (Buff { level: 0, timer: 0, absorbs: 0, ..b }),
        spent(b).hit_flash == b.hit_flash,
{
}

/// A shielded hit: spend one absorption; the buff ends when none are left.
pub fn spend_absorb(b: &mut Buff)
    ensures
        *final(b) == spent(*old(b)),
{
    if b.level > 0 {
        b.absorbs = b.absorbs.saturating_sub(1);
        if b.absorbs == 0 {
            b.level = 0;
            b.timer = 0;
        }
    }
}

/// What a boss bolt does to the player.
#[derive(Clone, Copy, PartialEq, Eq, Debug, Structural)]
pub enum BoltHit {
    /// The buff absorbed it: no damage, the tether holds.
    Absorbed,
    /// It breaks the tether (if any) and costs a heart.
    Wounded,
}

/// A boss bolt reaching the player. While buffed with absorptions left the
/// buff takes it (a short flash, one absorption spent, the buff ending after
/// the last one); otherwise it wounds.
pub fn absorb_bolt(b: &mut Buff) -> (hit: BoltHit)
    ensures
        hit == (if old(b).level > 0 && old(b).absorbs > 0 { BoltHit::Absorbed } else { BoltHit::Wounded }),
        hit == BoltHit::Absorbed ==> {
            let a = (old(b).absorbs - 1) as u32;
            *final(b) == (if a == 0 {
                Buff { level: 0, timer: 0, absorbs: 0, hit_flash: 6 }
            } else {
                Buff { absorbs: a, hit_flash: 6, ..*old(b) }
            })
        },
        hit == BoltHit::Wounded ==> *final(b) == *old(b),
{
    if b.level > 0 && b.absorbs > 0 {
        b.absorbs = b.absorbs - 1;
        b.hit_flash = 6;
        if b.absorbs == 0 {
            b.level = 0;
            b.timer = 0;
        }
        BoltHit::Absorbed
    } else {
        BoltHit::Wounded
    }
}

/// Sheltering on a shielded node during a flare grants (or refreshes) the
/// Solar Charge buff: ten seconds, three absorptions.
pub fn grant_solar_charge(b: &mut Buff)
    ensures
        *final(b) == (Buff { level: 1, timer: 600, absorbs: 3, ..*old(b) }),
{
    b.level = 1;
    b.timer = 600;
    b.absorbs = 3;
}

/// The buff is a limited resource: from any buffed state with `n` absorptions
/// left, `n` shielded hits end it.
pub proof fn law_buff_runs_out(b: Buff)
    requires
        b.level > 0,
        b.absorbs > 0,
    ensures
        spent_n(b, b.absorbs as nat).level == 0,
        spent_n(b, b.absorbs as nat).timer == 0,
        forall|k: nat| k < b.absorbs ==> #[trigger] spent_n(b, k).level == b.level,
    decreases b.absorbs,
{
    if b.absorbs == 1 {
        assert(spent_n(b, 0) == b);
        assert(spent_n(b, 1) == spent(spent_n(b, 0)));
    } else {
        let c = spent(b);
        assert(c.absorbs == b.absorbs - 1 && c.level == b.level);
        law_buff_runs_out(c);
        lemma_spent_n_shift(b, b.absorbs as nat);
        assert forall|k: nat| k < b.absorbs implies #[trigger] spent_n(b, k).level == b.level by {
            if k > 0 {
                lemma_spent_n_shift(b, k);
                assert(spent_n(c, (k - 1) as nat).level == c.level);
            }
        }
    }
}

/// `n` shielded hits in a row.
pub open spec fn spent_n(b: Buff, n: nat) -> Buff
    decreases n,
{
    if n == 0 { b } else { spent(spent_n(b, (n - 1) as nat)) }
}

proof fn lemma_spent_n_shift(b: Buff, n: nat)
    requires
        n > 0,
    ensures
        spent_n(b, n) == spent_n(spent(b), (n - 1) as nat),
    decreases n,
{
    if n > 1 {
        lemma_spent_n_shift(b, (n - 1) as nat);
        assert(spent_n(b, n) == spent(spent_n(b, (n - 1) as nat)));
        assert(spent_n(spent(b), (n - 1) as nat) == spent(spent_n(spent(b), (n - 2) as nat)));
    } else {
        assert(spent_n(b, 0) == b);
        assert(spent_n(spent(b), 0) == spent(b));
    }
}

} // verus!
