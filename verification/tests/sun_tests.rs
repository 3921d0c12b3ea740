use boss_fight::buff::{BoltHit, Buff};
use boss_fight::sun_devourer::{
    all_generators_down, arm_generators, forcefields, Forcefields, any_generator_up, bolts_hit_player, clear_darkness, damage_generators, darkness_tick,
    fire_bolt, lunge_tick, player_hits_boss, recall_bolts, recycle_bolt, tick_bolts, BoltPool, DarkTurn, Darkness, Lunge,
    LungeTurn, SunTuning,
};

fn tuning() -> SunTuning {
    SunTuning { dark_interval: 4, dark_duration: 3, lunge_telegraph: 2, shoot_interval: 5, bolt_lifetime: 2 }
}

#[test]
fn darkness_comes_and_lasts_its_duration() {
    let t = tuning();
    let mut d = Darkness { active: false, ticks: 0, cooldown: 2 };
    assert_eq!(darkness_tick(&mut d, &t), DarkTurn::Light);
    assert_eq!(darkness_tick(&mut d, &t), DarkTurn::Begins);
    assert_eq!(darkness_tick(&mut d, &t), DarkTurn::Holds);
    assert_eq!(darkness_tick(&mut d, &t), DarkTurn::Holds);
    assert_eq!(darkness_tick(&mut d, &t), DarkTurn::Ends);
    assert_eq!(d, Darkness { active: false, ticks: 0, cooldown: 4 });
}

#[test]
fn clearing_the_darkness_rearms_it() {
    let t = tuning();
    let mut d = Darkness { active: true, ticks: 2, cooldown: 0 };
    clear_darkness(&mut d, &t);
    assert_eq!(d, Darkness { active: false, ticks: 0, cooldown: 4 });
}

#[test]
fn the_barrier_falls_with_the_last_generator() {
    let mut hp = vec![2, 1];
    let mut barrier = true;
    let mut finale = false;
    assert!(any_generator_up(&hp));
    assert!(!damage_generators(&mut hp, &vec![1], &mut barrier, &mut finale));
    assert_eq!(hp, vec![2, 0]);
    assert!(barrier);
    assert!(!damage_generators(&mut hp, &vec![0], &mut barrier, &mut finale));
    assert!(damage_generators(&mut hp, &vec![0, 1], &mut barrier, &mut finale));
    assert_eq!(hp, vec![0, -1]);
    assert!(!barrier);
    assert!(finale);
    assert!(all_generators_down(&hp));
    assert!(!any_generator_up(&hp));
}

#[test]
fn no_generators_means_none_down() {
    assert!(!all_generators_down(&Vec::new()));
    assert!(!any_generator_up(&Vec::new()));
}

#[test]
fn the_lunge_winds_up_locks_and_charges() {
    let t = tuning();
    let mut l = Lunge { telegraph: 2, ticks: 0 };
    assert_eq!(lunge_tick(&mut l, &t), LungeTurn::Waiting);
    assert_eq!(lunge_tick(&mut l, &t), LungeTurn::LockTarget);
    assert_eq!(l, Lunge { telegraph: 0, ticks: 90 });
    assert_eq!(lunge_tick(&mut l, &t), LungeTurn::Charging);
    assert_eq!(l.ticks, 89);
}

#[test]
fn bolts_fire_age_and_come_back() {
    let t = tuning();
    let mut pool = BoltPool { live: Vec::new(), free: vec![0, 1] };
    let mut timer = 0u32;
    assert_eq!(fire_bolt(&mut pool, &mut timer, &t), Some(1));
    assert_eq!(timer, 5);
    assert_eq!(pool.live, vec![(1, 2)]);
    assert_eq!(fire_bolt(&mut pool, &mut timer, &t), None);
    assert_eq!(timer, 4);
    let gone = tick_bolts(&mut pool);
    assert!(gone.is_empty());
    assert_eq!(pool.live, vec![(1, 1)]);
    let gone = tick_bolts(&mut pool);
    assert_eq!(gone, vec![1]);
    assert!(pool.live.is_empty());
    assert_eq!(pool.free, vec![0, 1]);
}

#[test]
fn an_empty_pool_fires_nothing_but_rearms() {
    let t = tuning();
    let mut pool = BoltPool { live: vec![(0, 2)], free: Vec::new() };
    let mut timer = 0u32;
    assert_eq!(fire_bolt(&mut pool, &mut timer, &t), None);
    assert_eq!(timer, 5);
    assert_eq!(pool.live, vec![(0, 2)]);
}

#[test]
fn a_bolt_that_hits_is_recycled() {
    let mut pool = BoltPool { live: vec![(3, 2), (4, 1)], free: vec![7] };
    let mut buff = Buff { level: 0, timer: 0, absorbs: 0, hit_flash: 0 };
    let mut hooked = true;
    assert_eq!(bolts_hit_player(&mut pool, &vec![4], &mut buff, &mut hooked), Some(BoltHit::Wounded));
    assert!(!hooked);
    assert_eq!(pool.live, vec![(3, 2)]);
    assert_eq!(pool.free, vec![7, 4]);
    recycle_bolt(&mut pool, 3);
    assert!(pool.live.is_empty());
    assert_eq!(pool.free, vec![7, 4, 3]);
}

#[test]
fn many_bolts_in_one_tick_cost_one_absorption() {
    let mut pool = BoltPool { live: vec![(1, 5), (2, 5), (3, 5)], free: vec![0] };
    let mut buff = Buff { level: 1, timer: 300, absorbs: 3, hit_flash: 0 };
    let mut hooked = true;
    assert_eq!(bolts_hit_player(&mut pool, &vec![3, 1], &mut buff, &mut hooked), Some(BoltHit::Absorbed));
    assert_eq!(buff.absorbs, 2);
    assert_eq!(buff.level, 1);
    assert_eq!(buff.hit_flash, 6);
    assert!(hooked);
    assert_eq!(pool.live, vec![(2, 5)]);
    assert_eq!(pool.free, vec![0, 3, 1]);
}

#[test]
fn many_bolts_in_one_tick_cost_one_wound() {
    let mut pool = BoltPool { live: vec![(1, 5), (2, 5)], free: Vec::new() };
    let mut buff = Buff { level: 0, timer: 0, absorbs: 0, hit_flash: 0 };
    let mut hooked = true;
    assert_eq!(bolts_hit_player(&mut pool, &vec![1, 2], &mut buff, &mut hooked), Some(BoltHit::Wounded));
    assert!(!hooked);
    assert!(pool.live.is_empty());
    assert_eq!(pool.free, vec![1, 2]);
}

#[test]
fn a_tick_without_bolt_hits_costs_nothing() {
    let mut pool = BoltPool { live: vec![(1, 5)], free: Vec::new() };
    let mut buff = Buff { level: 0, timer: 0, absorbs: 0, hit_flash: 0 };
    let mut hooked = true;
    assert_eq!(bolts_hit_player(&mut pool, &Vec::new(), &mut buff, &mut hooked), None);
    assert!(hooked);
    assert_eq!(pool.live, vec![(1, 5)]);
}

#[test]
fn recalling_frees_every_bolt_in_flight() {
    let mut pool = BoltPool { live: vec![(5, 1), (2, 9)], free: vec![4] };
    recall_bolts(&mut pool);
    assert!(pool.live.is_empty());
    assert_eq!(pool.free, vec![4, 5, 2]);
}

#[test]
fn only_a_buffed_weakpoint_hit_with_the_generators_down_damages() {
    let mut hp = 3;
    let mut flash = 0;
    let mut hooked = true;
    let h = player_hits_boss(&mut hp, &mut flash, &mut hooked, true, true, true, true);
    assert!(h.damaged && h.pushed && !h.unhooked && !h.lose_heart);
    assert_eq!(hp, 2);
    assert!(hooked);
    let h = player_hits_boss(&mut hp, &mut flash, &mut hooked, true, true, true, false);
    assert!(!h.damaged && h.unhooked && !h.lose_heart);
    assert!(!hooked);
    let h = player_hits_boss(&mut hp, &mut flash, &mut hooked, true, false, true, true);
    assert!(h.lose_heart);
    assert_eq!(hp, 2);
}

#[test]
fn the_finale_is_armed_with_full_generators() {
    let t = tuning();
    let mut hp = vec![0, -1, 5];
    let mut barrier = false;
    let mut finale = true;
    let mut lunge = Lunge { telegraph: 0, ticks: 40 };
    arm_generators(&mut hp, &mut barrier, &mut finale, &mut lunge, 2, 3, &t);
    assert_eq!(hp, vec![3, 3]);
    assert!(barrier);
    assert!(!finale);
    assert_eq!(lunge, Lunge { telegraph: 2, ticks: 0 });
}

#[test]
fn the_forcefields() {
    assert_eq!(forcefields(true, 5, true, &vec![1, 0]), Forcefields { boundary: true, ring: true });
    assert_eq!(forcefields(true, 5, true, &vec![0, 0]), Forcefields { boundary: true, ring: false });
    assert_eq!(forcefields(true, 5, false, &vec![1]), Forcefields { boundary: true, ring: false });
    assert_eq!(forcefields(true, 0, true, &vec![1]), Forcefields { boundary: false, ring: false });
    assert_eq!(forcefields(false, 5, true, &vec![1]), Forcefields { boundary: false, ring: false });
}

#[test]
fn a_spent_charge_rearms_the_wind_up() {
    let t = tuning();
    let mut l = Lunge { telegraph: 0, ticks: 1 };
    assert_eq!(lunge_tick(&mut l, &t), LungeTurn::Charging);
    assert_eq!(l, Lunge { telegraph: 2, ticks: 0 });
    let mut idle = Lunge { telegraph: 0, ticks: 0 };
    assert_eq!(lunge_tick(&mut idle, &t), LungeTurn::Waiting);
    assert_eq!(idle, Lunge { telegraph: 2, ticks: 0 });
}
