use boss_fight::buff::Buff;
use boss_fight::parts::{BossPart, PartId, PartState};
use boss_fight::serpent::{
    burrow_tick, commit_act, contact_cut, contact_strike, count_live_segments, director_tick, gambit_tick,
    serpent_act_len, serpent_acts, serpent_chain_index, serpent_chain_span, serpent_cut_for, serpent_damage, serpent_direct,
    strike_player, tail_launch_tick, Burrow, Cut, Direction, Gambit, RiftPhase, SerpentAct, SerpentClock,
    SerpentTuning, Strike,
};

fn tuning() -> SerpentTuning {
    SerpentTuning {
        notice_ticks: 60,
        attack_gap: 90,
        coil_ticks: 120,
        sweep_ticks: 80,
        telegraph_ticks: 40,
        tail_launch_ticks: 100,
        lash_ticks: 70,
        rift_count: 3,
        rift_hidden: 30,
        rift_surface: 20,
        gambit_react: 50,
        gambit_exit_close: 25,
        contact_cooldown: 45,
        part_invuln: 30,
    }
}

fn part(id: PartId, alive: bool) -> BossPart {
    BossPart {
        id,
        hp: if alive { 3 } else { 0 },
        alive,
        shielded: false,
        state: PartState::Idle,
        state_ticks: 0,
        post_attack: false,
        weakpoint_open: false,
        beam_shots: 0,
        beam_hit_done: false,
    }
}

fn clock(act: SerpentAct) -> SerpentClock {
    SerpentClock {
        act,
        act_ticks: 0,
        cooldown: 0,
        entry_ticks: 0,
        contact_cooldown: 0,
        tail_out: false,
        gambit_react: 0,
        gambit_exit_ticks: 0,
        surfaced: 0,
    }
}

#[test]
fn the_moves_follow_what_is_left_of_the_body() {
    let full = vec![part(PartId::Head, true), part(PartId::Seg, true), part(PartId::Seg, false), part(PartId::Tail, true)];
    assert_eq!(
        serpent_acts(&full),
        vec![SerpentAct::Coil, SerpentAct::RiftStrikes, SerpentAct::TailLaunch, SerpentAct::TailSweep]
    );
    let spine = vec![part(PartId::Head, true), part(PartId::Seg, false), part(PartId::Tail, true)];
    assert_eq!(serpent_acts(&spine), vec![SerpentAct::SpineLash]);
    let head_only = vec![part(PartId::Head, true), part(PartId::Seg, false), part(PartId::Tail, false)];
    assert_eq!(serpent_acts(&head_only), vec![SerpentAct::WormholeGambit]);
    let tailless = vec![part(PartId::Head, true), part(PartId::Seg, true), part(PartId::Tail, false)];
    assert_eq!(serpent_acts(&tailless), vec![SerpentAct::Coil, SerpentAct::RiftStrikes]);
}

#[test]
fn the_chain_counts_living_links() {
    let parts = vec![
        part(PartId::Head, true),
        part(PartId::Seg, true),
        part(PartId::Seg, false),
        part(PartId::Seg, true),
        part(PartId::Tail, true),
    ];
    assert_eq!(count_live_segments(&parts, 5), 2);
    assert_eq!(count_live_segments(&parts, 2), 1);
    assert_eq!(serpent_chain_span(&parts), 4);
    assert_eq!(serpent_chain_index(&parts, 0, PartId::Head), 0);
    assert_eq!(serpent_chain_index(&parts, 3, PartId::Seg), 2);
    assert_eq!(serpent_chain_index(&parts, 4, PartId::Tail), 3);
    let none: Vec<BossPart> = vec![part(PartId::Head, false)];
    assert_eq!(serpent_chain_span(&none), 1);
}

#[test]
fn only_the_aimed_strikes_cut_the_rope() {
    assert_eq!(serpent_cut_for(Strike::TailSweep), Cut::Rope);
    assert_eq!(serpent_cut_for(Strike::TailLaunch), Cut::Rope);
    assert_eq!(serpent_cut_for(Strike::Bite), Cut::Rope);
    assert_eq!(serpent_cut_for(Strike::HeadContact), Cut::Rope);
    assert_eq!(serpent_cut_for(Strike::BodyContact), Cut::Keep);
    assert_eq!(serpent_cut_for(Strike::RiftEruption), Cut::Keep);
    assert_eq!(serpent_cut_for(Strike::SpineLash), Cut::Keep);
    assert_eq!(contact_strike(PartId::Head), Strike::HeadContact);
    assert_eq!(contact_strike(PartId::Seg), Strike::BodyContact);
}

#[test]
fn act_lengths() {
    let t = tuning();
    assert_eq!(serpent_act_len(SerpentAct::Prowl, &t, 10, 5), 90);
    assert_eq!(serpent_act_len(SerpentAct::Coil, &t, 10, 5), 120);
    assert_eq!(serpent_act_len(SerpentAct::RiftStrikes, &t, 10, 5), 40 + 4 * (10 + 5 + 30 + 20));
    assert_eq!(serpent_act_len(SerpentAct::WormholeGambit, &t, 10, 5), 40 + 180);
    assert_eq!(serpent_act_len(SerpentAct::SpineLash, &t, 10, 5), 70);
}

#[test]
fn the_director_chooses_after_the_notice_and_the_gap() {
    let t = tuning();
    let mut c = clock(SerpentAct::Prowl);
    c.entry_ticks = 59;
    c.act_ticks = 89;
    assert_eq!(director_tick(&mut c, &t, 10, 5), Direction::Choose);
    let mut early = clock(SerpentAct::Prowl);
    early.entry_ticks = 10;
    early.act_ticks = 89;
    assert_eq!(director_tick(&mut early, &t, 10, 5), Direction::BackToProwl);
    assert_eq!(early.act, SerpentAct::Prowl);
    assert_eq!(early.cooldown, 90);
    let mut mid = clock(SerpentAct::Coil);
    assert_eq!(director_tick(&mut mid, &t, 10, 5), Direction::Continue);
    assert_eq!(mid.act_ticks, 1);
}

#[test]
fn a_finished_act_goes_back_to_prowling() {
    let t = tuning();
    let mut c = clock(SerpentAct::Coil);
    c.act_ticks = 119;
    c.tail_out = true;
    assert_eq!(director_tick(&mut c, &t, 10, 5), Direction::BackToProwl);
    assert_eq!(c.act, SerpentAct::Prowl);
    assert_eq!(c.act_ticks, 0);
    assert!(!c.tail_out);
}

#[test]
fn committing_clamps_the_pick() {
    let mut c = clock(SerpentAct::Prowl);
    let acts = vec![SerpentAct::Coil, SerpentAct::RiftStrikes];
    assert!(commit_act(&mut c, &acts, 7));
    assert_eq!(c.act, SerpentAct::RiftStrikes);
    let mut d = clock(SerpentAct::Prowl);
    assert!(!commit_act(&mut d, &Vec::new(), 0));
    assert_eq!(d.act, SerpentAct::Prowl);
}

#[test]
fn a_burrow_dives_and_surfaces() {
    let t = tuning();
    let mut b = Burrow { phase: RiftPhase::Approach, ticks: 0, surfaced: 0, hole_open: false, next_open: false };
    let ev = burrow_tick(&mut b, 0, &t, false, false, false);
    assert!(ev.open_next);
    assert!(b.next_open);
    let ev = burrow_tick(&mut b, 40, &t, true, false, false);
    assert!(ev.enter_next);
    assert_eq!(b.phase, RiftPhase::Swallow);
    burrow_tick(&mut b, 41, &t, false, true, false);
    assert_eq!(b.phase, RiftPhase::Underground);
    for _ in 0..29 {
        let ev = burrow_tick(&mut b, 42, &t, false, false, false);
        assert!(!ev.erupt);
    }
    let ev = burrow_tick(&mut b, 42, &t, false, false, false);
    assert!(ev.erupt);
    assert_eq!(b.phase, RiftPhase::Emerge);
    assert_eq!(b.surfaced, 1);
}

#[test]
fn tethering_out_of_the_gambit_escapes_the_bite() {
    let t = tuning();
    let mut g = Gambit { react: 0, exit_ticks: 0, exit_open: false, holes_open: false };
    let mut hooked = true;
    let ev = gambit_tick(&mut g, &mut hooked, 0, false, false, &t);
    assert!(ev.seed_holes);
    let ev = gambit_tick(&mut g, &mut hooked, 40, false, false, &t);
    assert!(ev.unhooked);
    assert!(!hooked);
    let ev = gambit_tick(&mut g, &mut hooked, 41, false, true, &t);
    assert!(ev.captured);
    assert_eq!(g.react, 50);
    assert!(g.exit_open);
    hooked = true;
    let ev = gambit_tick(&mut g, &mut hooked, 42, false, false, &t);
    assert!(ev.escaped);
    assert_eq!(g.react, 0);
}

#[test]
fn a_capture_left_alone_ends_in_the_bite() {
    let t = tuning();
    let mut g = Gambit { react: 1, exit_ticks: 0, exit_open: true, holes_open: false };
    let mut hooked = false;
    let ev = gambit_tick(&mut g, &mut hooked, 60, false, false, &t);
    assert!(ev.bitten);
}

#[test]
fn the_tail_flies_once_the_telegraph_is_over() {
    let t = tuning();
    let mut out = false;
    assert!(!tail_launch_tick(&mut out, 10, &t));
    assert!(!out);
    assert!(!tail_launch_tick(&mut out, 40, &t));
    assert!(out);
    assert!(tail_launch_tick(&mut out, 41, &t));
}

#[test]
fn only_a_buffed_hit_damages_a_part() {
    let t = tuning();
    let mut parts = vec![part(PartId::Head, true), part(PartId::Seg, true)];
    let open = vec![false, true];
    let reach = vec![true, true];
    let mut invuln = 0u32;
    let mut flash = 0u32;
    assert!(!serpent_damage(&mut parts, &open, &reach, false, &mut invuln, &mut flash, &t));
    assert_eq!(parts[1].hp, 3);
    assert!(!serpent_damage(&mut parts, &open, &reach, true, &mut invuln, &mut flash, &t));
    assert_eq!(parts[0].hp, 3);
    assert_eq!(parts[1].hp, 2);
    assert_eq!(flash, 20);
}

#[test]
fn a_shielded_head_takes_no_damage_until_the_segments_are_gone() {
    let t = tuning();
    let mut head = part(PartId::Head, true);
    head.shielded = true;
    let mut parts = vec![part(PartId::Seg, true), head];
    let open = vec![false, true];
    let reach = vec![true, true];
    let mut invuln = 0u32;
    let mut flash = 0u32;
    assert!(!serpent_damage(&mut parts, &open, &reach, true, &mut invuln, &mut flash, &t));
    assert_eq!(parts[1].hp, 3);
    assert_eq!(parts[0].hp, 3);
    assert_eq!(flash, 0);
}

#[test]
fn only_the_first_open_piece_in_reach_is_hit_and_a_kill_pauses_damage() {
    let t = tuning();
    let mut parts = vec![part(PartId::Head, true), part(PartId::Seg, true), part(PartId::Seg, true)];
    parts[1].hp = 1;
    let open = vec![true, true, true];
    let reach = vec![false, true, true];
    let mut invuln = 0u32;
    let mut flash = 0u32;
    assert!(serpent_damage(&mut parts, &open, &reach, true, &mut invuln, &mut flash, &t));
    assert!(!parts[1].alive);
    assert_eq!(parts[2].hp, 3);
    assert_eq!(parts[0].hp, 3);
    // The kill armed the invulnerability, already one tick down.
    assert_eq!(invuln, t.part_invuln - 1);
    assert!(!serpent_damage(&mut parts, &open, &reach, true, &mut invuln, &mut flash, &t));
    assert_eq!(parts[2].hp, 3);
    assert_eq!(invuln, t.part_invuln - 2);
}

#[test]
fn a_strike_resets_the_contact_cooldown_and_may_cut() {
    let t = tuning();
    let mut cd = 0u32;
    let mut hooked = true;
    let mut buff = Buff { level: 0, timer: 0, absorbs: 0, hit_flash: 0 };
    assert!(strike_player(&mut cd, &mut hooked, &mut buff, Cut::Rope, false, false, &t));
    assert_eq!(cd, 45);
    assert!(!hooked);
    let mut hooked2 = true;
    let mut buff2 = Buff { level: 1, timer: 100, absorbs: 2, hit_flash: 0 };
    assert!(!strike_player(&mut cd, &mut hooked2, &mut buff2, Cut::Keep, true, false, &t));
    assert!(hooked2);
    assert_eq!(buff2.absorbs, 1);
}

#[test]
fn contact_cuts_only_off_cooldown() {
    assert_eq!(contact_cut(0, false, Some(PartId::Head)), Some(Cut::Rope));
    assert_eq!(contact_cut(0, false, Some(PartId::Seg)), Some(Cut::Keep));
    assert_eq!(contact_cut(3, false, Some(PartId::Head)), None);
    assert_eq!(contact_cut(0, true, Some(PartId::Head)), None);
    assert_eq!(contact_cut(0, false, None), None);
}

#[test]
fn an_attack_is_always_followed_by_a_lull() {
    let t = tuning();
    let mut c = clock(SerpentAct::Coil);
    c.entry_ticks = 500;
    c.act_ticks = 119;
    assert_eq!(director_tick(&mut c, &t, 10, 5), Direction::BackToProwl);
    c.act_ticks = 89;
    assert_eq!(director_tick(&mut c, &t, 10, 5), Direction::BackToProwl);
    assert_eq!(c.cooldown, 90);
}

#[test]
fn the_director_picks_only_what_the_body_allows() {
    let t = tuning();
    let parts = vec![part(PartId::Head, true), part(PartId::Seg, false), part(PartId::Tail, true)];
    let mut c = clock(SerpentAct::Prowl);
    c.entry_ticks = 100;
    c.act_ticks = 89;
    assert_eq!(serpent_direct(&mut c, &parts, 5, &t, 10, 5), Direction::Choose);
    assert_eq!(c.act, SerpentAct::SpineLash);
    assert_eq!(c.act_ticks, 0);
}

#[test]
fn no_attack_is_picked_in_the_opening_grace() {
    let t = tuning();
    let parts = vec![part(PartId::Head, true), part(PartId::Seg, true)];
    let mut c = clock(SerpentAct::Prowl);
    c.act_ticks = 89;
    assert_eq!(serpent_direct(&mut c, &parts, 0, &t, 10, 5), Direction::BackToProwl);
    assert_eq!(c.act, SerpentAct::Prowl);
    assert_eq!(c.cooldown, 90);
}
