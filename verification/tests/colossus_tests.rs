use boss_fight::colossus::{
    apply_part_events, both_hands_ready, clap_tick, colossus_hits, colossus_idle_len, meteor_schedule, SkyHalf, contact_outcome, contact_step,
    frame_flags, gaze_hit, meteor_tick, resolve_strike, step_part, tick_frame_counters, vent_step, weakpoint_open,
    well_unhooks, ColossusCounters, ColossusTuning, HitOutcome, PartEvents,
};
use boss_fight::parts::{BossPart, PartId, PartState};

fn tuning() -> ColossusTuning {
    ColossusTuning {
        idle_ticks: 100,
        head_vuln_after: 60,
        head_rearm_gap: 40,
        telegraph_ticks: 50,
        beam_ticks: 20,
        beam_gap_ticks: 10,
        storm_ticks: 200,
        vent_ticks: 150,
        hold_ticks: 30,
        recover_ticks: 40,
        vent_vuln_delay: 20,
        vent_vuln_after: 60,
        clap_vuln_after: 25,
        attack_vuln_delay: 10,
        vuln_after_ticks: 35,
        pattern_cooldown: 90,
        comet_warn_total: 60,
        vent_hit_cooldown: 45,
    }
}

fn part(id: PartId, state: PartState, ticks: u32) -> BossPart {
    BossPart {
        id,
        hp: 5,
        alive: true,
        shielded: false,
        state,
        state_ticks: ticks,
        post_attack: false,
        weakpoint_open: false,
        beam_shots: 0,
        beam_hit_done: false,
    }
}

fn counters() -> ColossusCounters {
    ColossusCounters {
        pattern_cooldown: 0,
        part_invuln: 0,
        meteor_lock: 0,
        torso_attack: 0,
        hand_attack: 0,
        contact_cooldown: 0,
        vent_hit_cooldown: 0,
    }
}

#[test]
fn idle_lengths_jitter_per_part_and_the_head_follows_its_window() {
    let t = tuning();
    assert_eq!(colossus_idle_len(0, &t), 100);
    assert_eq!(colossus_idle_len(1, &t), 100 + 26 + 7);
    assert_eq!(colossus_idle_len(2, &t), 100 + 14);
    assert_eq!(colossus_idle_len(3, &t), 60 + 40);
    assert_eq!(colossus_idle_len(4, &t), 100 + 28 % 17);
}

#[test]
fn an_idle_part_commits_only_when_its_time_is_up_and_the_director_allows() {
    let t = tuning();
    let mut p = part(PartId::Torso, PartState::Idle, 113);
    let ev = step_part(&mut p, 2, false, false, 0, &t);
    assert_eq!(p.state, PartState::Idle);
    assert_eq!(p.state_ticks, 114);
    assert!(!ev.began_attack);
    let ev = step_part(&mut p, 2, true, false, 0, &t);
    assert_eq!(p.state, PartState::Telegraph);
    assert_eq!(p.state_ticks, 0);
    assert!(ev.began_attack);
    assert!(ev.next_torso_attack);
    assert!(!ev.next_hand_attack);
}

#[test]
fn the_cycle_runs_telegraph_attack_recover_in_order() {
    let t = tuning();
    let mut p = part(PartId::Torso, PartState::Telegraph, 49);
    let ev = step_part(&mut p, 2, true, true, 0, &t);
    assert_eq!(p.state, PartState::Attack);
    assert!(ev.start_storm);
    p.state_ticks = 199;
    step_part(&mut p, 2, true, true, 0, &t);
    assert_eq!(p.state, PartState::Recover);
    assert!(p.post_attack);
}

#[test]
fn a_hand_attack_lasts_its_arrival_plus_the_hold() {
    let t = tuning();
    let mut p = part(PartId::HandL, PartState::Attack, 0);
    for _ in 0..(12 + 30 - 1) {
        step_part(&mut p, 0, true, false, 12, &t);
        assert_eq!(p.state, PartState::Attack);
    }
    step_part(&mut p, 0, true, false, 12, &t);
    assert_eq!(p.state, PartState::Recover);
}

#[test]
fn the_head_is_closed_while_its_beam_fires() {
    let t = tuning();
    let mut head = part(PartId::Head, PartState::Attack, 5);
    head.beam_shots = 2;
    assert!(!weakpoint_open(&head, false, false, 0, &t));
    let flags = frame_flags(&head, false, &t);
    assert!(flags.beam_firing);
}

#[test]
fn a_well_only_cuts_a_hooked_player_in_its_first_ticks() {
    let t = tuning();
    let hand = part(PartId::HandL, PartState::Telegraph, 3);
    let flags = frame_flags(&hand, false, &t);
    assert!(flags.zone_visible && !flags.zone_solid);
    assert!(well_unhooks(&flags, 3, true));
    assert!(!well_unhooks(&flags, 3, false));
    assert!(!well_unhooks(&flags, 30, true));
}

#[test]
fn a_strike_costs_a_heart_unless_buffed() {
    assert_eq!(
        resolve_strike(true, false, true),
        HitOutcome { thrown: true, unhook: false, spend_absorb: false, lose_heart: true }
    );
    assert_eq!(
        resolve_strike(true, true, true),
        HitOutcome { thrown: true, unhook: true, spend_absorb: true, lose_heart: false }
    );
    assert_eq!(
        resolve_strike(false, true, true),
        HitOutcome { thrown: false, unhook: false, spend_absorb: false, lose_heart: false }
    );
}

#[test]
fn a_clap_lasts_as_long_as_the_slower_hand() {
    assert_eq!(clap_tick(Some(12), Some(20)), 20);
    assert_eq!(clap_tick(Some(12), None), 12);
    assert_eq!(clap_tick(None, None), 0);
}

#[test]
fn both_hands_ready_needs_two_living_unshielded_hands() {
    let parts = vec![part(PartId::HandL, PartState::Idle, 0), part(PartId::HandR, PartState::Idle, 0)];
    assert!(both_hands_ready(&parts));
    let mut shielded = part(PartId::HandR, PartState::Idle, 0);
    shielded.shielded = true;
    let parts = vec![part(PartId::HandL, PartState::Idle, 0), shielded];
    assert!(!both_hands_ready(&parts));
}

#[test]
fn counters_tick_down_and_events_arm_them() {
    let t = tuning();
    let mut c = ColossusCounters { pattern_cooldown: 2, part_invuln: 0, meteor_lock: 1, ..counters() };
    tick_frame_counters(&mut c);
    assert_eq!(c.pattern_cooldown, 1);
    assert_eq!(c.part_invuln, 0);
    assert_eq!(c.meteor_lock, 0);
    let ev = PartEvents {
        began_attack: true,
        next_torso_attack: true,
        next_hand_attack: true,
        roll_beam_shot: false,
        roll_burst: false,
        start_storm: true,
    };
    let clap = apply_part_events(&mut c, &ev, &t, true, true);
    assert!(clap);
    assert_eq!(c.pattern_cooldown, 90);
    assert_eq!(c.meteor_lock, 260);
    assert_eq!(c.torso_attack, 1);
    assert_eq!(c.hand_attack, 1);
}

#[test]
fn body_contact_has_a_cooldown() {
    let mut c = counters();
    assert!(contact_step(&mut c, true, false));
    assert_eq!(c.contact_cooldown, 45);
    assert!(!contact_step(&mut c, true, false));
    assert_eq!(c.contact_cooldown, 44);
    assert_eq!(
        contact_outcome(true, false),
        HitOutcome { thrown: true, unhook: false, spend_absorb: false, lose_heart: true }
    );
}

#[test]
fn the_vent_hits_once_per_cooldown() {
    let t = tuning();
    let mut c = counters();
    let o = vent_step(&mut c, true, true, false, false, &t);
    assert!(o.thrown && o.lose_heart && o.unhook);
    assert_eq!(c.vent_hit_cooldown, 45);
    let o = vent_step(&mut c, true, true, false, false, &t);
    assert!(!o.thrown);
    assert_eq!(c.vent_hit_cooldown, 44);
}

#[test]
fn meteors_launch_in_order_when_due() {
    let mut q: Vec<(u32, char)> = vec![(1, 'a'), (3, 'b'), (0, 'c'), (2, 'd')];
    let launched = meteor_tick(&mut q, true);
    assert_eq!(launched, vec!['a', 'c']);
    assert_eq!(q, vec![(2, 'b'), (1, 'd')]);
    let launched = meteor_tick(&mut q, true);
    assert_eq!(launched, vec!['d']);
    assert_eq!(q, vec![(1, 'b')]);
}

#[test]
fn a_finished_fight_drops_its_meteors() {
    let mut q: Vec<(u32, char)> = vec![(1, 'a'), (3, 'b')];
    let launched = meteor_tick(&mut q, false);
    assert!(launched.is_empty());
    assert!(q.is_empty());
}

#[test]
fn the_gaze_costs_a_heart_once_per_shot() {
    let mut head = part(PartId::Head, PartState::Attack, 3);
    let o = gaze_hit(&mut head, true, true, false);
    assert_eq!(o, HitOutcome { thrown: true, unhook: false, spend_absorb: false, lose_heart: true });
    assert!(head.beam_hit_done);
    let o = gaze_hit(&mut head, true, true, false);
    assert!(!o.thrown && !o.lose_heart);
    let mut idle = part(PartId::Head, PartState::Attack, 3);
    assert!(!gaze_hit(&mut idle, false, true, false).thrown);
    assert!(!gaze_hit(&mut idle, true, false, false).thrown);
    let mut late = part(PartId::Head, PartState::Attack, 3);
    let o = gaze_hit(&mut late, true, true, true);
    assert!(o.thrown && !o.lose_heart);
}

#[test]
fn a_buffed_hit_costs_each_open_part_in_reach_one_health() {
    let mut parts = vec![part(PartId::HandL, PartState::Recover, 0), part(PartId::HandR, PartState::Recover, 0)];
    let open = vec![true, true];
    let reach = vec![true, true];
    let mut invuln = 0u32;
    let mut flash = 0u32;
    assert!(!colossus_hits(&mut parts, &open, &reach, true, &mut invuln, &mut flash, 40));
    assert_eq!(parts[0].hp, 4);
    assert_eq!(parts[1].hp, 4);
    assert_eq!(flash, 20);
    assert_eq!(invuln, 0);
}

#[test]
fn only_a_buffed_player_hurts_an_open_unshielded_part() {
    let mut parts = vec![part(PartId::HandL, PartState::Recover, 0), part(PartId::Torso, PartState::Recover, 0)];
    parts[1].shielded = true;
    let open = vec![false, true];
    let reach = vec![true, true];
    let mut invuln = 0u32;
    let mut flash = 0u32;
    assert!(!colossus_hits(&mut parts, &open, &reach, false, &mut invuln, &mut flash, 40));
    assert!(!colossus_hits(&mut parts, &open, &reach, true, &mut invuln, &mut flash, 40));
    assert_eq!(parts[0].hp, 5);
    assert_eq!(parts[1].hp, 5);
    assert_eq!(flash, 0);
}

#[test]
fn a_kill_stops_the_rest_of_the_ticks_hits() {
    let mut parts = vec![part(PartId::HandL, PartState::Recover, 0), part(PartId::HandR, PartState::Recover, 0)];
    parts[0].hp = 1;
    let open = vec![true, true];
    let reach = vec![true, true];
    let mut invuln = 0u32;
    let mut flash = 0u32;
    assert!(colossus_hits(&mut parts, &open, &reach, true, &mut invuln, &mut flash, 40));
    assert!(!parts[0].alive);
    assert_eq!(parts[1].hp, 5);
    assert_eq!(invuln, 40);
    assert!(!colossus_hits(&mut parts, &open, &reach, true, &mut invuln, &mut flash, 40));
    assert_eq!(parts[1].hp, 5);
    assert_eq!(invuln, 40);
}

#[test]
fn a_storm_alternates_sides_with_held_gaps() {
    let out = meteor_schedule(&vec![40, 3, 90, 45], 30, 60);
    assert_eq!(
        out,
        vec![(30, SkyHalf::Upper), (70, SkyHalf::Lower), (100, SkyHalf::Upper), (160, SkyHalf::Lower)]
    );
    assert!(meteor_schedule(&Vec::new(), 30, 60).is_empty());
}

#[test]
fn a_storm_is_timed_as_long_as_its_last_launch_fits() {
    let hi = u32::MAX / 2;
    let out = meteor_schedule(&vec![10, 10, 10], 5, hi);
    assert_eq!(out, vec![(5, SkyHalf::Upper), (15, SkyHalf::Lower), (25, SkyHalf::Upper)]);
}
