use boss_fight::pools::{pool_name, pool_names, pool_sets, PoolSizes};

fn sizes() -> PoolSizes {
    PoolSizes {
        hooks: 7,
        starters: 5,
        pads: 2,
        spinners: 1,
        coins: 12,
        flips: 0,
        score_x2: 1,
        zero_g: 1,
        gates: 1,
        gwells: 1,
        turrets: 1,
        bullets: 1,
        rocket_pads: 1,
        space_planets: 1,
        space_hooks: 1,
        space_coins: 1,
        space_blue_coins: 1,
        space_blackholes: 1,
        space_asteroids: 1,
        space_red_coins: 1,
        space_oxygen_pickups: 1,
        upgrades: 1,
        cannons: 1,
        boss_bolts: 2,
        boss_asteroids: 1,
        comets: 1,
        comet_warnings: 1,
    }
}

#[test]
fn pool_names_are_prefix_underscore_index() {
    assert_eq!(pool_names("pad", 0, 3), vec!["pad_0", "pad_1", "pad_2"]);
    assert_eq!(pool_names("coin", 9, 12), vec!["coin_9", "coin_10", "coin_11"]);
    assert!(pool_names("x", 3, 3).is_empty());
    assert!(pool_names("x", 4, 3).is_empty());
}

#[test]
fn the_starter_hooks_are_the_first_and_the_rest_are_free() {
    let p = pool_sets(&sizes());
    assert_eq!(p.starter_names, vec!["hook_0", "hook_1", "hook_2", "hook_3", "hook_4"]);
    assert_eq!(p.pool_free, vec!["hook_5", "hook_6"]);
    assert_eq!(p.pad_free, vec!["pad_0", "pad_1"]);
    assert_eq!(p.coin_free.len(), 12);
    assert_eq!(p.coin_free[11], "coin_11");
    assert!(p.flip_free.is_empty());
    assert_eq!(p.upgrade_free, vec!["upgrade_node_0"]);
    assert_eq!(p.space_bh_free, vec!["space_bh_0"]);
    assert_eq!(p.warn_free, vec!["comet_warn_0"]);
    assert_eq!(p.boss_bolt_free, vec!["boss_bolt_0", "boss_bolt_1"]);
    assert_eq!(p.boss_asteroid_ids, vec!["boss_asteroid_0"]);
}

#[test]
fn more_starters_than_hooks_uses_them_all() {
    let p = pool_sets(&PoolSizes { hooks: 3, starters: 5, ..sizes() });
    assert_eq!(p.starter_names, vec!["hook_0", "hook_1", "hook_2"]);
    assert!(p.pool_free.is_empty());
}

#[test]
fn no_two_objects_of_a_pool_share_a_name() {
    let names = pool_names("hook", 0, 120);
    let distinct: std::collections::HashSet<&String> = names.iter().collect();
    assert_eq!(distinct.len(), 120);
    assert_eq!(names[1], "hook_1");
    assert_eq!(names[11], "hook_11");
    assert_eq!(names[110], "hook_110");
}

#[test]
fn a_single_pool_name_is_prefix_underscore_decimal() {
    assert_eq!(pool_name("boss_bolt", 0), "boss_bolt_0");
    assert_eq!(pool_name("hook", 107), "hook_107");
    assert_eq!(pool_name("", usize::MAX), format!("_{}", usize::MAX));
}
