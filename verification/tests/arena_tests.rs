use boss_fight::arena::{
    appearance_tick, approach_due, begin_clear, complete_finish, enter_arena, enter_stasis, fight_running,
    colossus_frame_start, colossus_tick_end, conductor_round, serpent_tick_end, SerpentTickEnd,
    finish_boss, hud_dirty, indicators, release_all, reset_boss_after_fall, settle_colossus, settle_serpent,
    stasis_tick, strike_conductor, strike_core, sun_body_strike, warp_flash_tick, zone_entry_tick, ArenaTuning,
    Contender, CoreStrike, Fight, Indicators, StasisTurn, ZoneEntry,
};
use boss_fight::buff::Buff;
use boss_fight::colossus::ColossusCounters;
use boss_fight::parts::{BossPart, PartId, PartState};
use boss_fight::serpent::{SerpentAct, SerpentClock, SerpentTuning};
use boss_fight::roster::BossKind;
use boss_fight::single::{Conductor, ConductorTuning};
use boss_fight::sun_devourer::{BoltPool, Darkness, Lunge, SunTuning};

fn tuning() -> ArenaTuning {
    ArenaTuning { max_hp: 12, shoot_interval: 90, entry_delay: 3, coin_reward: 50 }
}

fn sun() -> SunTuning {
    SunTuning { dark_interval: 400, dark_duration: 180, lunge_telegraph: 60, shoot_interval: 90, bolt_lifetime: 120 }
}

fn idle() -> Fight {
    Fight {
        active: false,
        spawned: false,
        cleared: false,
        stasis: false,
        stasis_ticks: 0,
        entry_ticks: 0,
        hp: 0,
        killed: false,
        index: 0,
        barrier_up: false,
        final_phase: false,
        approach_shown: false,
        shoot_timer: 0,
        coins: 0,
        kind: BossKind::Colossus,
    }
}

fn part(id: PartId, hp: i32, alive: bool, shielded: bool) -> BossPart {
    BossPart {
        id,
        hp,
        alive,
        shielded,
        state: PartState::Idle,
        state_ticks: 0,
        post_attack: true,
        weakpoint_open: false,
        beam_shots: 0,
        beam_hit_done: false,
    }
}

fn contender(kind: BossKind, parts: Vec<BossPart>) -> Contender {
    Contender { scheduled: kind, scheduled_parts: parts, sun_devourer_override: false }
}

fn dark() -> Darkness {
    Darkness { active: true, ticks: 9, cooldown: 1 }
}

fn lunge() -> Lunge {
    Lunge { ticks: 5, telegraph: 1 }
}

#[test]
fn approach_markers_show_once() {
    let mut f = idle();
    assert!(!approach_due(&mut f, false));
    assert!(approach_due(&mut f, true));
    assert!(!approach_due(&mut f, true));
    assert!(f.approach_shown);
}

#[test]
fn entering_arms_a_full_health_fight() {
    let t = tuning();
    let mut f = Fight { approach_shown: true, cleared: true, hp: 1, ..idle() };
    assert!(!enter_arena(&mut f, false, false, &t));
    assert!(enter_arena(&mut f, true, false, &t));
    assert!(f.active && !f.cleared && !f.approach_shown);
    assert_eq!(f.hp, 12);
    assert_eq!(f.shoot_timer, 90);
    assert!(!enter_arena(&mut f, true, true, &t), "an open arena is not entered again");
}

#[test]
fn the_level_is_cleared_once() {
    let mut f = Fight { active: true, ..idle() };
    assert!(begin_clear(&mut f));
    assert!(!begin_clear(&mut f));
}

#[test]
fn the_zone_entry_runs_approach_entry_clear_then_confinement() {
    let t = tuning();
    let mut f = idle();
    let mut parts: Vec<BossPart> = Vec::new();
    let next = contender(BossKind::Serpent, vec![part(PartId::Head, 4, true, true), part(PartId::Tail, 2, true, false)]);
    let none = ZoneEntry { approach: false, entered: false, clear: false, confine: false };
    assert_eq!(zone_entry_tick(&mut f, &mut parts, &next, false, false, true, true, false, &t), none);
    assert_eq!(zone_entry_tick(&mut f, &mut parts, &next, true, true, true, true, false, &t), none);
    assert_eq!(
        zone_entry_tick(&mut f, &mut parts, &next, true, false, true, false, false, &t),
        ZoneEntry { approach: true, ..none }
    );
    assert!(parts.is_empty());
    assert_eq!(
        zone_entry_tick(&mut f, &mut parts, &next, true, false, true, true, false, &t),
        ZoneEntry { entered: true, ..none }
    );
    assert_eq!(f.kind, BossKind::Serpent);
    assert_eq!(parts, next.scheduled_parts);
    assert_eq!(f.hp, 12);
    assert_eq!(zone_entry_tick(&mut f, &mut parts, &next, true, false, true, true, false, &t), ZoneEntry { clear: true, ..none });
    assert_eq!(zone_entry_tick(&mut f, &mut parts, &next, true, false, true, true, false, &t), ZoneEntry { confine: true, ..none });
    f.hp = 0;
    assert_eq!(zone_entry_tick(&mut f, &mut parts, &next, true, false, true, true, false, &t), none);
}

#[test]
fn the_sun_devourer_override_arms_a_single_body_boss() {
    let t = tuning();
    let mut f = idle();
    let mut parts = vec![part(PartId::Seg, 1, true, false)];
    let next = Contender { sun_devourer_override: true, ..contender(BossKind::Colossus, vec![part(PartId::Torso, 4, true, true)]) };
    let z = zone_entry_tick(&mut f, &mut parts, &next, true, false, false, false, true, &t);
    assert!(z.entered);
    assert_eq!(f.kind, BossKind::SunDevourer);
    assert!(parts.is_empty());
}

#[test]
fn the_flare_titan_core_takes_four_and_a_killing_hit_wins() {
    let t = tuning();
    let st = sun();
    let mut f = Fight { active: true, spawned: true, hp: 6, kind: BossKind::FlareTitan, ..idle() };
    let mut flash = 0u32;
    let mut lg = lunge();
    let mut dk = dark();
    let mut hooked = true;
    let none = CoreStrike { landed: false, won: false };
    assert_eq!(strike_core(&mut f, &mut flash, false, true, true, &mut lg, &mut dk, &mut hooked, &t, &st), none);
    assert_eq!(strike_core(&mut f, &mut flash, true, false, true, &mut lg, &mut dk, &mut hooked, &t, &st), none);
    assert_eq!(f.hp, 6);
    assert_eq!(flash, 0);
    let s = strike_core(&mut f, &mut flash, true, true, true, &mut lg, &mut dk, &mut hooked, &t, &st);
    assert_eq!(s, CoreStrike { landed: true, won: false });
    assert_eq!(f.hp, 2);
    assert_eq!(flash, 20);
    assert!(hooked);
    let s = strike_core(&mut f, &mut flash, true, true, true, &mut lg, &mut dk, &mut hooked, &t, &st);
    assert_eq!(s, CoreStrike { landed: true, won: true });
    assert_eq!(f.hp, 0);
    assert!(f.killed && f.stasis && !f.spawned);
    assert_eq!(f.coins, 50);
    assert!(!hooked);
    assert!(!dk.active);
    assert_eq!(lg, Lunge { ticks: 0, telegraph: 60 });
}

#[test]
fn the_other_cores_take_two() {
    let t = tuning();
    let st = sun();
    let mut f = Fight { active: true, spawned: true, hp: 5, kind: BossKind::Magnetar, ..idle() };
    let mut flash = 0u32;
    let (mut lg, mut dk, mut hooked) = (lunge(), dark(), true);
    strike_core(&mut f, &mut flash, true, true, true, &mut lg, &mut dk, &mut hooked, &t, &st);
    assert_eq!(f.hp, 3);
    assert!(!f.killed);
}

#[test]
fn a_conductor_hit_spends_the_resonance() {
    let t = tuning();
    let st = sun();
    let mut c = Conductor { beat_ticks: 1, beat_interval: 36, release_window: 0, resonance: 3, was_hooked: true, window: 100 };
    let mut f = Fight { active: true, spawned: true, hp: 10, kind: BossKind::Conductor, ..idle() };
    let mut flash = 0u32;
    let (mut lg, mut dk, mut hooked) = (lunge(), dark(), true);
    let s = strike_conductor(&mut c, &mut f, &mut flash, true, true, true, &mut lg, &mut dk, &mut hooked, &t, &st);
    assert_eq!(s, CoreStrike { landed: true, won: false });
    assert_eq!(f.hp, 8);
    assert_eq!(c.resonance, 0);
    let mut c2 = Conductor { resonance: 3, ..c };
    strike_conductor(&mut c2, &mut f, &mut flash, true, true, false, &mut lg, &mut dk, &mut hooked, &t, &st);
    assert_eq!(c2.resonance, 3);
    assert_eq!(f.hp, 8);
}

#[test]
fn the_sun_devourers_last_health_wins_and_recalls_the_bolts() {
    let t = tuning();
    let st = sun();
    let mut f = Fight { active: true, spawned: true, hp: 1, kind: BossKind::SunDevourer, ..idle() };
    let mut pool = BoltPool { live: vec![(2, 4), (6, 1)], free: vec![0] };
    let mut flash = 0u32;
    let (mut lg, mut dk, mut hooked) = (lunge(), dark(), true);
    let (h, won) = sun_body_strike(&mut f, &mut pool, &mut flash, &mut hooked, true, true, true, true, &mut lg, &mut dk, &t, &st);
    assert!(h.damaged && won);
    assert!(f.killed && f.stasis);
    assert_eq!(f.hp, 0);
    assert!(pool.live.is_empty());
    assert_eq!(pool.free, vec![0, 2, 6]);
    assert!(!dk.active);
    assert!(!hooked);
}

#[test]
fn the_sun_devourer_is_only_struck_while_it_is_up() {
    let t = tuning();
    let st = sun();
    let mut f = Fight { active: true, spawned: false, hp: 3, kind: BossKind::SunDevourer, ..idle() };
    let mut pool = BoltPool { live: vec![(2, 4)], free: Vec::new() };
    let mut flash = 0u32;
    let (mut lg, mut dk, mut hooked) = (lunge(), dark(), true);
    let (h, won) = sun_body_strike(&mut f, &mut pool, &mut flash, &mut hooked, true, true, true, true, &mut lg, &mut dk, &t, &st);
    assert!(!h.pushed && !won);
    assert_eq!(f.hp, 3);
    f.spawned = true;
    let (h, won) = sun_body_strike(&mut f, &mut pool, &mut flash, &mut hooked, true, false, true, true, &mut lg, &mut dk, &t, &st);
    assert!(!h.damaged && h.lose_heart && h.unhooked && !won);
    assert_eq!(f.hp, 3);
    assert!(!hooked);
    assert_eq!(pool.live, vec![(2, 4)]);
}

#[test]
fn a_settled_serpent_tick_gates_resyncs_and_wins_when_all_are_down() {
    let t = tuning();
    let st = sun();
    let mut f = Fight { active: true, spawned: true, hp: 12, kind: BossKind::Serpent, ..idle() };
    let (mut lg, mut dk, mut hooked) = (lunge(), dark(), true);
    let mut parts = vec![part(PartId::Seg, 0, false, false), part(PartId::Head, 3, true, true), part(PartId::Tail, 2, true, true)];
    assert!(!settle_serpent(&mut parts, &mut f, &mut lg, &mut dk, &mut hooked, &t, &st));
    assert!(!parts[1].shielded);
    assert!(!parts[1].post_attack);
    assert!(parts[2].shielded);
    assert_eq!(f.hp, 5);
    assert!(hooked);
    let mut gone = vec![part(PartId::Seg, 0, false, false), part(PartId::Head, 0, false, false)];
    assert!(settle_serpent(&mut gone, &mut f, &mut lg, &mut dk, &mut hooked, &t, &st));
    assert_eq!(f.hp, 0);
    assert!(f.killed && f.stasis && !f.spawned);
    assert!(!hooked);
}

#[test]
fn the_colossus_wins_on_the_tick_after_its_last_part_falls() {
    let t = tuning();
    let st = sun();
    let mut f = Fight { active: true, spawned: true, hp: 12, ..idle() };
    let (mut lg, mut dk, mut hooked) = (lunge(), dark(), true);
    let frame = vec![part(PartId::HandL, 0, false, false), part(PartId::Head, 1, true, false)];
    let mut parts = vec![part(PartId::HandL, 0, false, false), part(PartId::Head, 0, false, false)];
    assert!(!settle_colossus(&mut parts, &frame, &mut f, &mut lg, &mut dk, &mut hooked, &t, &st));
    assert_eq!(f.hp, 0);
    assert!(!f.killed);
    let frame = parts.clone();
    assert!(settle_colossus(&mut parts, &frame, &mut f, &mut lg, &mut dk, &mut hooked, &t, &st));
    assert!(f.killed && f.stasis);
}

#[test]
fn colossus_gating_keeps_post_attack_windows() {
    let t = tuning();
    let st = sun();
    let mut f = Fight { active: true, spawned: true, hp: 12, ..idle() };
    let (mut lg, mut dk, mut hooked) = (lunge(), dark(), true);
    let frame = vec![part(PartId::Torso, 4, true, true)];
    let mut parts = vec![part(PartId::HandL, 0, false, false), part(PartId::Torso, 4, true, true)];
    settle_colossus(&mut parts, &frame, &mut f, &mut lg, &mut dk, &mut hooked, &t, &st);
    assert!(!parts[1].shielded);
    assert!(parts[1].post_attack);
    assert_eq!(f.hp, 4);
}

#[test]
fn tethering_out_of_stasis_starts_the_fight_and_after_a_kill_ends_it() {
    let t = tuning();
    let s = sun();
    let mut f = Fight { active: true, hp: 12, ..idle() };
    let mut hooked = true;
    enter_stasis(&mut f, &mut hooked);
    assert!(!hooked);
    assert_eq!(stasis_tick(&mut f, false, &t), StasisTurn::Orbit);
    assert_eq!(f.stasis_ticks, 1);
    assert_eq!(stasis_tick(&mut f, true, &t), StasisTurn::Begin);
    assert!(!f.stasis);
    assert_eq!(f.entry_ticks, 3);
    assert_eq!(stasis_tick(&mut f, true, &t), StasisTurn::Idle);

    let mut lunge = Lunge { telegraph: 0, ticks: 30 };
    let mut dark = Darkness { active: true, ticks: 20, cooldown: 0 };
    let mut hooked = true;
    f.spawned = true;
    finish_boss(&mut f, &mut lunge, &mut dark, &mut hooked, &t, &s);
    assert!(f.killed && f.stasis && !f.spawned);
    assert_eq!(f.hp, 0);
    assert_eq!(f.coins, 50);
    assert_eq!(lunge, Lunge { ticks: 0, telegraph: 60 });
    assert_eq!(dark, Darkness { active: false, ticks: 0, cooldown: 400 });
    assert_eq!(stasis_tick(&mut f, true, &t), StasisTurn::Victory);
    let mut hooked = true;
    assert_eq!(complete_finish(&mut f, &mut hooked), 1);
    assert!(!f.active && !hooked);
    assert_eq!(f.index, 1);
}

#[test]
fn the_coin_reward_saturates() {
    let t = tuning();
    let s = sun();
    let mut f = Fight { active: true, hp: 1, coins: u32::MAX - 10, ..idle() };
    let mut lunge = Lunge { telegraph: 0, ticks: 0 };
    let mut dark = Darkness { active: false, ticks: 0, cooldown: 1 };
    let mut hooked = false;
    finish_boss(&mut f, &mut lunge, &mut dark, &mut hooked, &t, &s);
    assert_eq!(f.coins, u32::MAX);
}

#[test]
fn a_fall_keeps_the_boss_health_and_lifts_the_dark() {
    let mut f = Fight { active: true, spawned: true, hp: 7, ..idle() };
    let mut dark = Darkness { active: true, ticks: 50, cooldown: 0 };
    let mut hooked = true;
    reset_boss_after_fall(&mut f, &mut dark, &mut hooked);
    assert_eq!(f.hp, 7);
    assert!(f.stasis && !f.spawned && !hooked);
    assert!(!dark.active);
    assert_eq!(dark.ticks, 0);
}

#[test]
fn the_boss_appears_after_the_entry_delay() {
    let t = tuning();
    let mut f = Fight { active: true, hp: 12, ..idle() };
    assert!(!appearance_tick(&mut f, &t));
    assert!(!appearance_tick(&mut f, &t));
    assert!(appearance_tick(&mut f, &t));
    assert!(f.spawned);
    assert!(fight_running(&f));
    assert!(!appearance_tick(&mut f, &t));
}

#[test]
fn the_hud_redraws_only_on_change() {
    let mut last = -999;
    assert!(hud_dirty(12, &mut last));
    assert!(!hud_dirty(12, &mut last));
    assert!(hud_dirty(11, &mut last));
    assert_eq!(last, 11);
}

#[test]
fn the_warp_flash_counts_down() {
    assert_eq!(warp_flash_tick(2), (1, false));
    assert_eq!(warp_flash_tick(1), (0, true));
    assert_eq!(warp_flash_tick(0), (0, false));
}

#[test]
fn pools_are_released_in_order() {
    let mut live = vec![3, 4];
    let mut free = vec![1];
    release_all(&mut live, &mut free);
    assert!(live.is_empty());
    assert_eq!(free, vec![1, 3, 4]);
}

#[test]
fn overlays_follow_the_fight() {
    assert_eq!(
        indicators(true, true, true, false),
        Indicators { banner: true, boss_arrow: true, generator_arrows: true }
    );
    assert_eq!(
        indicators(true, true, true, true),
        Indicators { banner: true, boss_arrow: true, generator_arrows: false }
    );
    assert_eq!(
        indicators(true, false, true, false),
        Indicators { banner: false, boss_arrow: false, generator_arrows: false }
    );
}

fn counters() -> ColossusCounters {
    ColossusCounters {
        pattern_cooldown: 3,
        part_invuln: 2,
        meteor_lock: 0,
        torso_attack: 0,
        hand_attack: 0,
        contact_cooldown: 0,
        vent_hit_cooldown: 0,
    }
}

#[test]
fn the_colossus_tick_does_nothing_outside_a_running_fight() {
    let t = tuning();
    let st = sun();
    let (mut lg, mut dk, mut hooked) = (lunge(), dark(), true);
    let mut c = counters();
    let mut flash = 0u32;
    let mut parts = vec![part(PartId::HandL, 1, true, false)];
    let frame = parts.clone();
    let open = vec![true];
    let reach = vec![true];
    for mut f in [
        Fight { active: false, hp: 5, ..idle() },
        Fight { active: true, stasis: true, hp: 5, ..idle() },
    ] {
        let before = f;
        assert!(!colossus_frame_start(&f, false, &mut c));
        assert_eq!(c, counters());
        assert!(!colossus_tick_end(&mut parts, &frame, &open, &reach, true, &mut c, &mut flash, 40, &mut f, false, &mut lg, &mut dk, &mut hooked, &t, &st));
        assert_eq!(f, before);
        assert_eq!(parts[0].hp, 1);
    }
    let mut f = Fight { active: true, hp: 5, ..idle() };
    assert!(!colossus_tick_end(&mut parts, &frame, &open, &reach, true, &mut c, &mut flash, 40, &mut f, true, &mut lg, &mut dk, &mut hooked, &t, &st));
    assert_eq!(parts[0].hp, 1);
}

#[test]
fn a_running_colossus_tick_counts_down_hits_and_settles() {
    let t = tuning();
    let st = sun();
    let (mut lg, mut dk, mut hooked) = (lunge(), dark(), true);
    let mut c = Fight { active: true, spawned: true, hp: 12, ..idle() };
    let mut k = ColossusCounters { part_invuln: 1, ..counters() };
    assert!(colossus_frame_start(&c, false, &mut k));
    assert_eq!(k.part_invuln, 0);
    assert_eq!(k.pattern_cooldown, 2);
    let mut parts = vec![part(PartId::HandL, 1, true, false), part(PartId::Torso, 3, true, true)];
    let frame = parts.clone();
    let mut flash = 0u32;
    let won = colossus_tick_end(&mut parts, &frame, &vec![true, true], &vec![true, true], true, &mut k, &mut flash, 40, &mut c, false, &mut lg, &mut dk, &mut hooked, &t, &st);
    assert!(!won);
    assert!(!parts[0].alive);
    assert_eq!(parts[1].hp, 3);
    assert!(!parts[1].shielded);
    assert_eq!(k.part_invuln, 40);
    assert_eq!(c.hp, 3);
}

fn serpent_tuning() -> SerpentTuning {
    SerpentTuning {
        notice_ticks: 60,
        attack_gap: 90,
        coil_ticks: 120,
        sweep_ticks: 80,
        telegraph_ticks: 40,
        tail_launch_ticks: 100,
        lash_ticks: 70,
        rift_count: 3,
        rift_hidden: 30,
        rift_surface: 20,
        gambit_react: 50,
        gambit_exit_close: 25,
        contact_cooldown: 45,
        part_invuln: 30,
    }
}

fn serpent_clock() -> SerpentClock {
    SerpentClock {
        act: SerpentAct::Prowl,
        act_ticks: 0,
        cooldown: 0,
        entry_ticks: 0,
        contact_cooldown: 0,
        tail_out: false,
        gambit_react: 0,
        gambit_exit_ticks: 0,
        surfaced: 0,
    }
}

#[test]
fn a_serpent_tick_hits_touches_and_wins_once_all_are_down() {
    let t = serpent_tuning();
    let at = tuning();
    let st = sun();
    let (mut lg, mut dk, mut hooked) = (lunge(), dark(), true);
    let mut f = Fight { active: true, spawned: true, hp: 12, kind: BossKind::Serpent, ..idle() };
    let mut clock = serpent_clock();
    let mut buff = Buff { level: 1, timer: 100, absorbs: 2, hit_flash: 0 };
    let (mut invuln, mut flash) = (0u32, 0u32);
    let mut parts = vec![part(PartId::Seg, 1, true, false), part(PartId::Head, 2, true, true)];
    let e = serpent_tick_end(
        &mut parts, &vec![true, true], &vec![true, true], Some(PartId::Head), true, &mut clock, &mut buff,
        &mut invuln, &mut flash, &mut f, false, &mut lg, &mut dk, &mut hooked, &t, &at, &st,
    );
    assert_eq!(e, SerpentTickEnd { lose_heart: false, won: false });
    assert!(!parts[0].alive);
    assert_eq!(parts[1].hp, 2);
    assert!(!parts[1].shielded);
    assert_eq!(invuln, 29);
    assert_eq!(clock.contact_cooldown, 45);
    assert_eq!(buff.absorbs, 1);
    assert!(!hooked);
    assert_eq!(f.hp, 2);
    parts[1].hp = 0;
    parts[1].alive = false;
    let e = serpent_tick_end(
        &mut parts, &vec![true, true], &vec![false, false], None, false, &mut clock, &mut buff,
        &mut invuln, &mut flash, &mut f, false, &mut lg, &mut dk, &mut hooked, &t, &at, &st,
    );
    assert!(e.won);
    assert!(f.killed && f.stasis);
}

#[test]
fn the_serpent_tick_does_nothing_while_the_player_is_dead() {
    let t = serpent_tuning();
    let at = tuning();
    let st = sun();
    let (mut lg, mut dk, mut hooked) = (lunge(), dark(), true);
    let mut f = Fight { active: true, spawned: true, hp: 12, kind: BossKind::Serpent, ..idle() };
    let mut clock = serpent_clock();
    let mut buff = Buff { level: 1, timer: 100, absorbs: 2, hit_flash: 0 };
    let (mut invuln, mut flash) = (3u32, 0u32);
    let mut parts = vec![part(PartId::Seg, 1, true, false)];
    let e = serpent_tick_end(
        &mut parts, &vec![true], &vec![true], Some(PartId::Seg), true, &mut clock, &mut buff,
        &mut invuln, &mut flash, &mut f, true, &mut lg, &mut dk, &mut hooked, &t, &at, &st,
    );
    assert_eq!(e, SerpentTickEnd { lose_heart: false, won: false });
    assert_eq!(invuln, 3);
    assert_eq!(parts[0].hp, 1);
    assert_eq!(f.hp, 12);
}

#[test]
fn a_conductor_round_beats_arms_and_strikes() {
    let t = tuning();
    let st = sun();
    let ct = ConductorTuning { release_window: 10, resonance_required: 3, max_hp: 20 };
    let (mut lg, mut dk, mut hooked) = (lunge(), dark(), false);
    let mut c = Conductor { beat_ticks: 1, beat_interval: 36, release_window: 5, resonance: 2, was_hooked: false, window: 0 };
    let mut f = Fight { active: true, spawned: true, hp: 8, kind: BossKind::Conductor, ..idle() };
    let mut flash = 0u32;
    let (beat, s) = conductor_round(&mut c, &mut f, &mut flash, true, true, false, &mut lg, &mut dk, &mut hooked, &ct, &t, &st);
    assert!(beat);
    assert_eq!(s, CoreStrike { landed: true, won: false });
    assert_eq!(c.beat_interval, 30);
    assert_eq!(c.beat_ticks, 30);
    assert_eq!(c.resonance, 0);
    assert_eq!(f.hp, 6);
    let (beat, s) = conductor_round(&mut c, &mut f, &mut flash, true, true, true, &mut lg, &mut dk, &mut hooked, &ct, &t, &st);
    assert!(!beat && !s.landed);
    assert_eq!(c.beat_ticks, 30);
}
