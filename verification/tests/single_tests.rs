use boss_fight::buff::Buff;
use boss_fight::single::{
    body_contact, conductor_tick, conductor_window_open, core_hit, flare_tick, magnetar_tick,
    start_beat, weaver_tick, Conductor, ConductorTuning, FlareCycle, FlareTitanTuning, Magnetar, MagnetarTuning,
    Weaver, WeaverTuning,
};

#[test]
fn a_core_hit_needs_the_window_the_buff_and_reach() {
    let mut hp = 5;
    let mut flash = 0;
    assert!(core_hit(&mut hp, &mut flash, 2, true, true, true));
    assert_eq!(hp, 3);
    assert_eq!(flash, 20);
    assert!(core_hit(&mut hp, &mut flash, 5, true, true, true));
    assert_eq!(hp, 0, "health stops at zero");
    let mut hp2 = 5;
    let mut flash2 = 1;
    assert!(!core_hit(&mut hp2, &mut flash2, 2, false, true, true));
    assert!(!core_hit(&mut hp2, &mut flash2, 2, true, false, true));
    assert!(!core_hit(&mut hp2, &mut flash2, 2, true, true, false));
    assert_eq!(hp2, 5);
    assert_eq!(flash2, 1);
}

#[test]
fn touching_a_single_body_costs_a_heart_unless_dead() {
    assert!(body_contact(true, false));
    assert!(!body_contact(true, true));
    assert!(!body_contact(false, false));
}

fn conductor() -> Conductor {
    Conductor { beat_ticks: 1, beat_interval: 36, release_window: 0, resonance: 0, was_hooked: true, window: 0 }
}

#[test]
fn releasing_on_the_beat_builds_resonance_and_opens_the_core() {
    let t = ConductorTuning { release_window: 10, resonance_required: 2, max_hp: 20 };
    let mut c = conductor();
    assert!(conductor_tick(&mut c, false, 20, &t));
    assert_eq!(c.resonance, 1);
    assert_eq!(c.beat_ticks, 36);
    assert!(!conductor_window_open(&c, &t));
    c.beat_ticks = 1;
    c.was_hooked = true;
    assert!(conductor_tick(&mut c, false, 8, &t));
    assert_eq!(c.resonance, 2);
    assert_eq!(c.beat_interval, 30, "the beat quickens below half health");
    assert_eq!(c.window, 180);
    assert!(conductor_window_open(&c, &t));
}

#[test]
fn a_beat_without_a_release_loses_resonance() {
    let t = ConductorTuning { release_window: 10, resonance_required: 3, max_hp: 20 };
    let mut c = Conductor { resonance: 2, was_hooked: true, ..conductor() };
    assert!(conductor_tick(&mut c, true, 20, &t));
    assert_eq!(c.resonance, 1);
}

#[test]
fn a_new_beat_starts_a_full_bar() {
    let mut c = Conductor { resonance: 3, window: 100, ..conductor() };
    start_beat(&mut c);
    assert_eq!(c.beat_ticks, c.beat_interval);
}

#[test]
fn the_magnetar_pulls_then_opens_its_window() {
    let t = MagnetarTuning { pull_interval: 3, pull_ticks: 2, window_ticks: 4 };
    let mut m = Magnetar { window: 0, pull: 0, cooldown: 0 };
    assert!(!magnetar_tick(&mut m, &t));
    assert_eq!(m, Magnetar { window: 0, pull: 2, cooldown: 3 });
    assert!(magnetar_tick(&mut m, &t));
    assert!(magnetar_tick(&mut m, &t));
    assert_eq!(m, Magnetar { window: 4, pull: 0, cooldown: 3 });
    assert!(!magnetar_tick(&mut m, &t));
    assert_eq!(m.window, 3);
}

#[test]
fn a_flare_warns_ignites_and_burns_the_unsheltered() {
    let t = FlareTitanTuning { interval: 5, telegraph_ticks: 2, active_ticks: 3, damage_interval: 1, window_ticks: 6 };
    let mut f = FlareCycle { window: 0, active: false, active_ticks: 0, damage_timer: 0, warn: 0, cooldown: 0 };
    let mut buff = Buff { level: 0, timer: 0, absorbs: 0, hit_flash: 0 };
    let mut hooked = true;
    let ev = flare_tick(&mut f, &mut buff, false, &mut hooked, &t);
    assert!(!ev.warning && !ev.ignited);
    assert_eq!(f.warn, 2);
    let ev = flare_tick(&mut f, &mut buff, false, &mut hooked, &t);
    assert!(ev.warning);
    let ev = flare_tick(&mut f, &mut buff, false, &mut hooked, &t);
    assert!(ev.ignited);
    assert!(f.active);
    let ev = flare_tick(&mut f, &mut buff, false, &mut hooked, &t);
    assert!(ev.burned);
    assert!(!hooked);
}

#[test]
fn shelter_charges_instead_of_burning() {
    let t = FlareTitanTuning { interval: 5, telegraph_ticks: 2, active_ticks: 3, damage_interval: 1, window_ticks: 6 };
    let mut f = FlareCycle { window: 0, active: true, active_ticks: 3, damage_timer: 1, warn: 0, cooldown: 5 };
    let mut buff = Buff { level: 0, timer: 0, absorbs: 0, hit_flash: 0 };
    let mut hooked = true;
    let ev = flare_tick(&mut f, &mut buff, true, &mut hooked, &t);
    assert!(ev.charged);
    assert!(!ev.burned);
    assert!(hooked);
    assert_eq!(buff, Buff { level: 1, timer: 600, absorbs: 3, hit_flash: 0 });
}

#[test]
fn the_weaver_flips_and_opens_its_core() {
    let t = WeaverTuning { window_ticks: 5, flip_interval: 2 };
    let mut w = Weaver { window: 0, flip_ticks: 1 };
    assert!(!weaver_tick(&mut w, &t));
    assert!(weaver_tick(&mut w, &t));
    assert_eq!(w, Weaver { window: 5, flip_ticks: 2 });
}

#[test]
fn a_flare_burns_an_unsheltered_player_even_off_the_rope() {
    let t = FlareTitanTuning { interval: 5, telegraph_ticks: 2, active_ticks: 3, damage_interval: 1, window_ticks: 6 };
    let mut f = FlareCycle { window: 0, active: true, active_ticks: 3, damage_timer: 1, warn: 0, cooldown: 5 };
    let mut buff = Buff { level: 0, timer: 0, absorbs: 0, hit_flash: 0 };
    let mut hooked = false;
    let ev = flare_tick(&mut f, &mut buff, false, &mut hooked, &t);
    assert!(ev.burned);
    assert!(!hooked);
}
