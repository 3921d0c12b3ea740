use boss_fight::backdrop::{tick_background, Backdrop, Theme};
use boss_fight::roster::{has_generators, tick_boss, BossKind, FightLoop};

#[test]
fn the_background_changes_only_with_the_theme() {
    let mut prev = None;
    let t = Theme { dark: false, zone: 1, vivid: true, flipped: false };
    assert_eq!(tick_background(&mut prev, t), Some(Backdrop::Zone { zone: 1, vivid: true, flipped: false }));
    assert_eq!(tick_background(&mut prev, t), None);
    let far = Theme { zone: 7, ..t };
    assert_eq!(tick_background(&mut prev, far), Some(Backdrop::Zone { zone: 2, vivid: true, flipped: false }));
    let dark = Theme { dark: true, ..far };
    assert_eq!(tick_background(&mut prev, dark), Some(Backdrop::Dark));
    assert_eq!(prev, Some(dark));
}

#[test]
fn each_boss_runs_its_own_loop() {
    assert_eq!(tick_boss(BossKind::Serpent, true), FightLoop::Serpent);
    assert_eq!(tick_boss(BossKind::Colossus, true), FightLoop::Parts);
    assert_eq!(tick_boss(BossKind::FlareTitan, false), FightLoop::FlareTitan);
    assert_eq!(tick_boss(BossKind::GravityWeaver, false), FightLoop::GravityWeaver);
    assert_eq!(tick_boss(BossKind::Magnetar, false), FightLoop::Magnetar);
    assert_eq!(tick_boss(BossKind::Conductor, false), FightLoop::Conductor);
    assert_eq!(tick_boss(BossKind::SunDevourer, false), FightLoop::SunDevourer);
    assert_eq!(tick_boss(BossKind::Colossus, false), FightLoop::SunDevourer);
    assert!(has_generators(BossKind::SunDevourer));
    assert!(!has_generators(BossKind::Colossus));
}
