use boss_fight::level::{
    clear_level, is_listed, put_away, shelter_ids, stale_auras, take_tether_nodes, LevelPools, NodeSpot, Pool,
};

fn names(v: &[&str]) -> Vec<String> {
    v.iter().map(|s| s.to_string()).collect()
}

fn pool(live: &[&str], free: &[&str]) -> Pool {
    Pool { live: names(live), free: names(free) }
}

#[test]
fn listing_compares_by_text() {
    let ids = names(&["hook_1", "pad_2"]);
    assert!(is_listed(&"pad_2".to_string(), &ids));
    assert!(!is_listed(&"pad_3".to_string(), &ids));
    assert!(!is_listed(&"pad_2".to_string(), &Vec::new()));
}

#[test]
fn putting_a_pool_away_keeps_its_order() {
    let mut p = pool(&["a", "b"], &["c"]);
    let gone = put_away(&mut p);
    assert_eq!(gone, names(&["a", "b"]));
    assert!(p.live.is_empty());
    assert_eq!(p.free, names(&["c", "a", "b"]));
}

#[test]
fn the_arena_clears_the_level_but_keeps_its_rocks() {
    let mut p = LevelPools {
        hooks: pool(&["hook_0"], &["hook_9"]),
        pads: pool(&["pad_1"], &[]),
        spinners: pool(&["spinner_0"], &[]),
        coins: pool(&[], &["coin_3"]),
        flips: pool(&["flip_0"], &[]),
        score_x2: pool(&[], &[]),
        zero_g: pool(&["zero_g_2"], &[]),
        gates: pool(&["gate_4"], &[]),
        gwells: pool(&["gwell_1"], &[]),
        turrets: pool(&["turret_0"], &[]),
        bullets: pool(&["bullet_5"], &[]),
        rocket_pads: pool(&["rocket_pad_0"], &[]),
        asteroids: pool(&["space_asteroid_1", "boss_asteroid_0", "space_asteroid_2"], &["space_asteroid_7"]),
    };
    let rocks = names(&["boss_asteroid_0", "boss_asteroid_1", "boss_asteroid_0"]);
    let c = clear_level(&mut p, &rocks);
    assert_eq!(
        c.hide,
        names(&[
            "hook_0",
            "pad_1",
            "pad_1_thruster",
            "spinner_0",
            "flip_0",
            "zero_g_2",
            "gate_4_top",
            "gate_4_bot",
            "gwell_1",
            "turret_0",
            "bullet_5",
            "rocket_pad_0",
            "space_asteroid_1",
            "space_asteroid_2",
        ])
    );
    assert_eq!(
        c.gone,
        names(&[
            "hook_0",
            "spinner_0",
            "pad_1",
            "flip_0",
            "zero_g_2",
            "gate_4",
            "gwell_1",
            "turret_0",
            "rocket_pad_0",
            "space_asteroid_1",
            "space_asteroid_2",
        ])
    );
    assert!(p.hooks.live.is_empty());
    assert_eq!(p.hooks.free, names(&["hook_9", "hook_0"]));
    assert_eq!(p.coins.free, names(&["coin_3"]));
    assert_eq!(p.asteroids.free, names(&["space_asteroid_7", "space_asteroid_1", "space_asteroid_2"]));
    assert_eq!(p.asteroids.live, names(&["boss_asteroid_0", "boss_asteroid_1"]));
}

#[test]
fn tether_nodes_come_from_the_free_hooks() {
    let free: Vec<String> = (0..50).map(|i| format!("hook_{i}")).collect();
    let mut hooks = Pool { live: names(&["hook_x"]), free };
    let nodes = take_tether_nodes(&mut hooks);
    assert_eq!(nodes.len(), 42);
    assert_eq!(nodes[0].id, "hook_49");
    assert_eq!(nodes[0].spot, NodeSpot::Grid { col: 0, row: 0 });
    assert!(nodes[0].buff);
    assert!(!nodes[1].buff);
    assert!(nodes[3].buff);
    assert_eq!(nodes[7].spot, NodeSpot::Grid { col: 2, row: 1 });
    assert_eq!(nodes[29].spot, NodeSpot::Grid { col: 4, row: 5 });
    assert_eq!(nodes[30].spot, NodeSpot::Gap { gap: 0, level: 0 });
    assert!(!nodes[30].buff);
    assert_eq!(nodes[34].spot, NodeSpot::Gap { gap: 1, level: 1 });
    assert_eq!(nodes[41].spot, NodeSpot::Gap { gap: 3, level: 2 });
    assert_eq!(hooks.free.len(), 8);
    assert_eq!(hooks.live.len(), 43);
    assert_eq!(hooks.live[1], "hook_49");
}

#[test]
fn a_short_pool_places_what_it_has() {
    let mut hooks = pool(&[], &["hook_0", "hook_1"]);
    let nodes = take_tether_nodes(&mut hooks);
    assert_eq!(nodes.len(), 2);
    assert_eq!(nodes[0].id, "hook_1");
    assert_eq!(nodes[1].id, "hook_0");
    assert!(hooks.free.is_empty());
}

#[test]
fn every_fourth_node_is_a_shelter() {
    let live = names(&["a", "b", "c", "d", "e", "f"]);
    assert_eq!(shelter_ids(&live), names(&["a", "e"]));
    assert!(shelter_ids(&Vec::new()).is_empty());
}

#[test]
fn stale_auras_are_those_no_longer_buffed() {
    let previous = names(&["hook_1", "hook_2", "hook_3"]);
    let now = names(&["hook_2"]);
    assert_eq!(stale_auras(&previous, &now), names(&["hook_1", "hook_3"]));
}
