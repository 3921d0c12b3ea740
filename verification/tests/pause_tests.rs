use boss_fight::pause::{
    click, clear_pause, hover_to, key_command, open_pause, resume, set_drag, slide_tick, start_menu, Button,
    Channel, Click, KeyCommand, KeyPress, PauseMenu, Resumed, Slide,
};

fn running() -> PauseMenu {
    PauseMenu { paused: false, prompt: false, ..start_menu(14) }
}

#[test]
fn gameplay_keys_only_work_while_running() {
    assert_eq!(key_command(KeyPress::Digit(1), false, false, false, false), KeyCommand::ZeroG);
    assert_eq!(key_command(KeyPress::Digit(1), true, false, false, false), KeyCommand::Ignore);
    assert_eq!(key_command(KeyPress::Digit(2), false, false, false, false), KeyCommand::QueueFlip);
    assert_eq!(key_command(KeyPress::Digit(5), false, false, false, false), KeyCommand::SpawnRocketPad);
    assert_eq!(key_command(KeyPress::Digit(0), false, false, false, false), KeyCommand::ToggleGodMode);
    assert_eq!(key_command(KeyPress::Digit(0), true, false, false, false), KeyCommand::Ignore);
    assert_eq!(key_command(KeyPress::Letter('g'), false, false, false, false), KeyCommand::SpawnCannon);
    assert_eq!(key_command(KeyPress::Letter('g'), true, false, false, false), KeyCommand::Ignore);
    assert_eq!(key_command(KeyPress::Letter('o'), false, false, false, false), KeyCommand::SpawnSpecialHook);
    assert_eq!(key_command(KeyPress::Letter('k'), false, false, false, false), KeyCommand::SpawnExtendedHook);
    assert_eq!(key_command(KeyPress::Letter('j'), false, false, false, false), KeyCommand::SpawnComet);
}

#[test]
fn presets_and_music_work_paused_or_not() {
    assert_eq!(key_command(KeyPress::Digit(4), true, false, false, false), KeyCommand::QuietPreset);
    assert_eq!(key_command(KeyPress::Digit(3), true, false, false, false), KeyCommand::ArcadeDeathSound);
    assert_eq!(key_command(KeyPress::Digit(7), false, false, false, false), KeyCommand::SwitchMusic(1));
    assert_eq!(key_command(KeyPress::Digit(8), true, false, false, false), KeyCommand::SwitchMusic(2));
    assert_eq!(key_command(KeyPress::Digit(9), false, false, false, false), KeyCommand::SwitchMusic(3));
}

#[test]
fn the_volume_keys_need_the_settings_panel() {
    assert_eq!(key_command(KeyPress::Letter('a'), true, true, false, false), KeyCommand::Volume(Channel::Master, false));
    assert_eq!(key_command(KeyPress::Letter('d'), true, true, false, false), KeyCommand::Volume(Channel::Master, true));
    assert_eq!(key_command(KeyPress::Letter('j'), true, true, false, false), KeyCommand::Volume(Channel::Music, false));
    assert_eq!(key_command(KeyPress::Letter('l'), true, true, false, false), KeyCommand::Volume(Channel::Music, true));
    assert_eq!(key_command(KeyPress::Letter('n'), true, true, false, false), KeyCommand::Volume(Channel::Sound, false));
    assert_eq!(key_command(KeyPress::Letter('m'), true, true, false, false), KeyCommand::Volume(Channel::Sound, true));
    assert_eq!(key_command(KeyPress::Letter('a'), true, false, false, false), KeyCommand::Ignore);
}

#[test]
fn pause_and_space_resume_or_open_the_menu() {
    assert_eq!(key_command(KeyPress::Space, true, false, false, true), KeyCommand::Resume { launch: true });
    assert_eq!(key_command(KeyPress::Letter('p'), true, false, false, false), KeyCommand::Resume { launch: false });
    assert_eq!(key_command(KeyPress::Letter('p'), false, false, false, false), KeyCommand::OpenPause);
    assert_eq!(key_command(KeyPress::Letter('p'), false, false, true, false), KeyCommand::Ignore);
    assert_eq!(key_command(KeyPress::Space, false, false, false, false), KeyCommand::Ignore);
    assert_eq!(key_command(KeyPress::Other, false, false, false, false), KeyCommand::Ignore);
}

#[test]
fn a_fresh_scene_waits_on_the_prompt() {
    let m = start_menu(14);
    assert!(m.paused && m.prompt && !m.sliding);
    assert_eq!(m.dragging, -1);
    assert_eq!(m.hover, -1);
}

#[test]
fn the_menu_slides_in_then_holds_the_game() {
    let mut m = running();
    open_pause(&mut m, true, 3);
    assert!(m.sliding && m.rope_at_pause);
    assert_eq!(slide_tick(&mut m), Slide::Moving { left: 2, total: 3 });
    assert!(!m.paused);
    assert_eq!(slide_tick(&mut m), Slide::Moving { left: 1, total: 3 });
    assert_eq!(slide_tick(&mut m), Slide::Landed);
    assert!(m.paused && !m.sliding);
    assert_eq!(slide_tick(&mut m), Slide::Still);
}

#[test]
fn resuming_from_the_prompt_launches() {
    let mut m = start_menu(14);
    m.settings_open = true;
    m.dragging = 2;
    assert_eq!(resume(&mut m), Resumed { launch: true, rope_visible: false });
    assert!(!m.paused && !m.prompt && !m.settings_open);
    assert_eq!(m.dragging, -1);
}

#[test]
fn clearing_the_pause_needs_a_pause() {
    let mut m = running();
    assert!(!clear_pause(&mut m));
    let mut p = PauseMenu { paused: true, hover: 2, settings_open: true, ..running() };
    assert!(clear_pause(&mut p));
    assert!(!p.paused && !p.settings_open);
    assert_eq!(p.hover, -1);
}

#[test]
fn the_buttons() {
    let mut m = PauseMenu { paused: true, rope_at_pause: true, ..running() };
    assert_eq!(click(&mut m, Button::Settings, 0), Click::SettingsShown);
    assert!(m.settings_open);
    assert_eq!(click(&mut m, Button::Back, 0), Click::SettingsHidden);
    assert!(!m.settings_open);
    assert_eq!(click(&mut m, Button::Resume, 0), Click::Resumed { rope_visible: true });
    assert!(!m.paused);
    assert_eq!(click(&mut m, Button::Restart, 4), Click::Ignore);
    let mut r = PauseMenu { paused: true, ..running() };
    assert_eq!(click(&mut r, Button::Restart, 4), Click::Restart { nonce: 5 });
    let mut s = PauseMenu { paused: true, ..running() };
    assert_eq!(click(&mut s, Button::Restart, i32::MAX), Click::Restart { nonce: i32::MAX });
    let mut q = PauseMenu { paused: true, ..running() };
    assert_eq!(click(&mut q, Button::Menu, 0), Click::ToMenu);
}

#[test]
fn hover_changes_only_while_paused() {
    let mut m = PauseMenu { paused: true, ..running() };
    assert!(hover_to(&mut m, 1));
    assert!(!hover_to(&mut m, 1));
    assert!(hover_to(&mut m, -1));
    let mut r = running();
    assert!(!hover_to(&mut r, 2));
    assert_eq!(r.hover, -1);
}

#[test]
fn dragging_a_slider() {
    let mut m = running();
    set_drag(&mut m, Some(2));
    assert_eq!(m.dragging, 2);
    set_drag(&mut m, None);
    assert_eq!(m.dragging, -1);
}
