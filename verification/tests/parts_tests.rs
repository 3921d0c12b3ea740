use boss_fight::buff::{absorb_bolt, grant_solar_charge, spend_absorb, BoltHit, Buff};
use boss_fight::parts::{all_parts_down, any_shielded, boss_total_hp, damage_part, first_alive_with_id, gate_phases, BossPart, PartId, PartState};

fn part(id: PartId, hp: i32, alive: bool, shielded: bool) -> BossPart {
    BossPart {
        id,
        hp,
        alive,
        shielded,
        state: PartState::Idle,
        state_ticks: 0,
        post_attack: false,
        weakpoint_open: false,
        beam_shots: 0,
        beam_hit_done: false,
    }
}

#[test]
fn total_hp_counts_only_living_positive_health() {
    let parts = vec![
        part(PartId::Torso, 5, true, false),
        part(PartId::HandL, 3, false, false),
        part(PartId::Head, -2, true, false),
        part(PartId::Seg, 4, true, true),
    ];
    assert_eq!(boss_total_hp(&parts), 9);
}

#[test]
fn total_hp_of_a_destroyed_boss_is_zero() {
    let parts = vec![part(PartId::HandL, 0, false, false), part(PartId::HandR, 0, false, false)];
    assert_eq!(boss_total_hp(&parts), 0);
    assert_eq!(boss_total_hp(&Vec::new()), 0);
}

#[test]
fn gating_releases_the_next_part_once_all_before_it_fall() {
    let mut hand = part(PartId::HandR, 3, true, true);
    hand.post_attack = true;
    let mut parts = vec![part(PartId::HandL, 0, false, false), hand, part(PartId::Torso, 5, true, true)];
    gate_phases(&mut parts, true);
    assert!(!parts[1].shielded);
    assert!(!parts[1].post_attack);
    assert!(parts[2].shielded, "the torso waits for the right hand");
    gate_phases(&mut parts, true);
    assert!(parts[2].shielded, "gating again changes nothing");
}

#[test]
fn gating_keeps_post_attack_unless_asked() {
    let mut hand = part(PartId::HandR, 3, true, true);
    hand.post_attack = true;
    let mut parts = vec![part(PartId::HandL, 0, false, false), hand];
    gate_phases(&mut parts, false);
    assert!(!parts[1].shielded);
    assert!(parts[1].post_attack);
}

#[test]
fn the_first_part_is_never_released_by_gating() {
    let mut parts = vec![part(PartId::HandL, 3, true, true), part(PartId::HandR, 3, true, true)];
    gate_phases(&mut parts, true);
    assert!(parts[0].shielded);
    assert!(parts[1].shielded);
}

#[test]
fn first_alive_with_id_skips_the_dead() {
    let parts = vec![
        part(PartId::Seg, 0, false, false),
        part(PartId::Head, 4, true, false),
        part(PartId::Seg, 2, true, false),
        part(PartId::Seg, 2, true, false),
    ];
    assert_eq!(first_alive_with_id(&parts, PartId::Seg), Some(2));
    assert_eq!(first_alive_with_id(&parts, PartId::Tail), None);
}

#[test]
fn a_hit_costs_one_health_and_a_kill_arms_invulnerability() {
    let mut parts = vec![part(PartId::HandL, 2, true, false)];
    let mut invuln = 0u32;
    let mut flash = 0u32;
    assert!(!damage_part(&mut parts, 0, &mut invuln, 40, &mut flash));
    assert_eq!(parts[0].hp, 1);
    assert!(parts[0].alive);
    assert_eq!(invuln, 0);
    assert_eq!(flash, 20);
    assert!(damage_part(&mut parts, 0, &mut invuln, 40, &mut flash));
    assert_eq!(parts[0].hp, 0);
    assert!(!parts[0].alive);
    assert_eq!(invuln, 40);
}

#[test]
fn a_shielded_or_destroyed_part_takes_no_damage() {
    let mut parts = vec![part(PartId::Torso, 4, true, true), part(PartId::HandL, 0, false, false)];
    let mut invuln = 0u32;
    let mut flash = 0u32;
    assert!(!damage_part(&mut parts, 0, &mut invuln, 40, &mut flash));
    assert!(!damage_part(&mut parts, 1, &mut invuln, 40, &mut flash));
    assert_eq!(parts[0].hp, 4);
    assert!(parts[0].alive);
    assert_eq!(parts[1].hp, 0);
    assert_eq!(flash, 0);
    assert_eq!(invuln, 0);
}

#[test]
fn no_damage_while_invulnerable() {
    let mut parts = vec![part(PartId::HandL, 2, true, false)];
    let mut invuln = 5u32;
    let mut flash = 3u32;
    assert!(!damage_part(&mut parts, 0, &mut invuln, 40, &mut flash));
    assert_eq!(parts[0].hp, 2);
    assert_eq!(invuln, 5);
    assert_eq!(flash, 3);
}

#[test]
fn a_buff_absorbs_bolts_until_its_charges_run_out() {
    let mut b = Buff { level: 0, timer: 0, absorbs: 0, hit_flash: 0 };
    grant_solar_charge(&mut b);
    assert_eq!(b, Buff { level: 1, timer: 600, absorbs: 3, hit_flash: 0 });
    assert_eq!(absorb_bolt(&mut b), BoltHit::Absorbed);
    assert_eq!(b, Buff { level: 1, timer: 600, absorbs: 2, hit_flash: 6 });
    assert_eq!(absorb_bolt(&mut b), BoltHit::Absorbed);
    assert_eq!(absorb_bolt(&mut b), BoltHit::Absorbed);
    assert_eq!(b, Buff { level: 0, timer: 0, absorbs: 0, hit_flash: 6 });
    assert_eq!(absorb_bolt(&mut b), BoltHit::Wounded);
    assert_eq!(b, Buff { level: 0, timer: 0, absorbs: 0, hit_flash: 6 });
}

#[test]
fn spending_an_absorb_without_a_buff_changes_nothing() {
    let mut b = Buff { level: 0, timer: 0, absorbs: 0, hit_flash: 2 };
    spend_absorb(&mut b);
    assert_eq!(b, Buff { level: 0, timer: 0, absorbs: 0, hit_flash: 2 });
    let mut c = Buff { level: 1, timer: 100, absorbs: 1, hit_flash: 0 };
    spend_absorb(&mut c);
    assert_eq!(c.level, 0);
    assert_eq!(c.absorbs, 0);
}

#[test]
fn the_boss_is_beaten_when_every_part_is_down() {
    let parts = vec![part(PartId::HandL, 0, false, false), part(PartId::Torso, 2, true, true)];
    assert!(!all_parts_down(&parts));
    assert!(any_shielded(&parts));
    let parts = vec![part(PartId::HandL, 0, false, true), part(PartId::Torso, 0, false, false)];
    assert!(all_parts_down(&parts));
    assert_eq!(boss_total_hp(&parts), 0);
    assert!(!any_shielded(&parts));
    assert!(all_parts_down(&Vec::new()));
}
