//! The game scene's keyboard commands and its pause menu: the slide-in, the
//! settings panel, resuming, and the buttons.

use vstd::prelude::*;

verus! {

/// A key the game scene reacts to.
#[derive(Clone, Copy, PartialEq, Eq, Debug, Structural)]
pub enum KeyPress {
    /// A digit key, `0` to `9`.
    Digit(u8),
    /// A letter key, lower case.
    Letter(char),
    Space,
    Other,
}

/// One of the three volume sliders.
#[derive(Clone, Copy, PartialEq, Eq, Debug, Structural)]
pub enum Channel {
    Master,
    Music,
    Sound,
}

/// What a key press asks for.
#[derive(Clone, Copy, PartialEq, Eq, Debug, Structural)]
pub enum KeyCommand {
    Ignore,
    /// Start the zero-gravity ability.
    ZeroG,
    /// Flip gravity on the next frame.
    QueueFlip,
    /// The plain death sound and the gentler space zoom.
    QuietPreset,
    /// The arcade death sound.
    ArcadeDeathSound,
    /// Test spawns ahead of the player.
    SpawnRocketPad,
    SpawnSpecialHook,
    SpawnExtendedHook,
    SpawnComet,
    SpawnCannon,
    /// Switch the music to track 1, 2 or 3.
    SwitchMusic(u8),
    ToggleGodMode,
    /// Nudge a volume slider down or up.
    Volume(Channel, bool),
    /// Leave the pause (or the start prompt); `launch` when it was the start
    /// prompt, which launches the ball out of its orbit.
    Resume { launch: bool },
    /// Slide the pause menu in.
    OpenPause,
}

/// The command for a key, given whether the game is paused, the settings
/// panel is open, the pause menu is still sliding in, and the start prompt is
/// showing.
pub open spec fn key_rule(key: KeyPress, paused: bool, settings: bool, sliding: bool, prompt: bool) -> KeyCommand {
    match key {
        KeyPress::Digit(1) => if paused { KeyCommand::Ignore } else { KeyCommand::ZeroG },
        KeyPress::Digit(2) => if paused { KeyCommand::Ignore } else { KeyCommand::QueueFlip },
        KeyPress::Digit(4) => KeyCommand::QuietPreset,
        KeyPress::Digit(5) => if paused { KeyCommand::Ignore } else { KeyCommand::SpawnRocketPad },
        KeyPress::Letter('o') if !paused => KeyCommand::SpawnSpecialHook,
        KeyPress::Letter('k') if !paused => KeyCommand::SpawnExtendedHook,
        KeyPress::Letter('j') if !paused => KeyCommand::SpawnComet,
        KeyPress::Digit(7) => KeyCommand::SwitchMusic(1),
        KeyPress::Digit(8) => KeyCommand::SwitchMusic(2),
        KeyPress::Digit(9) => KeyCommand::SwitchMusic(3),
        KeyPress::Digit(0) => if paused { KeyCommand::Ignore } else { KeyCommand::ToggleGodMode },
        KeyPress::Digit(3) => KeyCommand::ArcadeDeathSound,
        KeyPress::Letter('a') if settings => KeyCommand::Volume(Channel::Master, false),
        KeyPress::Letter('d') if settings => KeyCommand::Volume(Channel::Master, true),
        KeyPress::Letter('j') if settings => KeyCommand::Volume(Channel::Music, false),
        KeyPress::Letter('l') if settings => KeyCommand::Volume(Channel::Music, true),
        KeyPress::Letter('n') if settings => KeyCommand::Volume(Channel::Sound, false),
        KeyPress::Letter('m') if settings => KeyCommand::Volume(Channel::Sound, true),
        KeyPress::Letter('g') => if paused { KeyCommand::Ignore } else { KeyCommand::SpawnCannon },
        KeyPress::Letter('p') | KeyPress::Space =>
            if paused {
                KeyCommand::Resume { launch: prompt }
            } else if key == KeyPress::Letter('p') && !sliding {
                KeyCommand::OpenPause
            } else {
                KeyCommand::Ignore
            },
        _ => KeyCommand::Ignore,
    }
}

/// The game scene's key handler, as a decision.
pub fn key_command(key: KeyPress, paused: bool, settings: bool, sliding: bool, prompt: bool) -> (c: KeyCommand)
    ensures
        c == key_rule(key, paused, settings, sliding, prompt),
{
    match key {
        KeyPress::Digit(1) => if paused { KeyCommand::Ignore } else { KeyCommand::ZeroG },
        KeyPress::Digit(2) => if paused { KeyCommand::Ignore } else { KeyCommand::QueueFlip },
        KeyPress::Digit(4) => KeyCommand::QuietPreset,
        KeyPress::Digit(5) => if paused { KeyCommand::Ignore } else { KeyCommand::SpawnRocketPad },
        KeyPress::Letter('o') if !paused => KeyCommand::SpawnSpecialHook,
        KeyPress::Letter('k') if !paused => KeyCommand::SpawnExtendedHook,
        KeyPress::Letter('j') if !paused => KeyCommand::SpawnComet,
        KeyPress::Digit(7) => KeyCommand::SwitchMusic(1),
        KeyPress::Digit(8) => KeyCommand::SwitchMusic(2),
        KeyPress::Digit(9) => KeyCommand::SwitchMusic(3),
        KeyPress::Digit(0) => if paused { KeyCommand::Ignore } else { KeyCommand::ToggleGodMode },
        KeyPress::Digit(3) => KeyCommand::ArcadeDeathSound,
        KeyPress::Letter('a') if settings => KeyCommand::Volume(Channel::Master, false),
        KeyPress::Letter('d') if settings => KeyCommand::Volume(Channel::Master, true),
        KeyPress::Letter('j') if settings => KeyCommand::Volume(Channel::Music, false),
        KeyPress::Letter('l') if settings => KeyCommand::Volume(Channel::Music, true),
        KeyPress::Letter('n') if settings => KeyCommand::Volume(Channel::Sound, false),
        KeyPress::Letter('m') if settings => KeyCommand::Volume(Channel::Sound, true),
        KeyPress::Letter('g') => if paused { KeyCommand::Ignore } else { KeyCommand::SpawnCannon },
        KeyPress::Letter('p') => {
            if paused {
                KeyCommand::Resume { launch: prompt }
            } else if !sliding {
                KeyCommand::OpenPause
            } else {
                KeyCommand::Ignore
            }
        },
        KeyPress::Space => if paused { KeyCommand::Resume { launch: prompt } } else { KeyCommand::Ignore },
        _ => KeyCommand::Ignore,
    }
}

/// The pause menu's state.
#[derive(Clone, Copy, PartialEq, Eq, Debug, Structural)]
pub struct PauseMenu {
    /// Gameplay is held.
    pub paused: bool,
    /// The menu is sliding in; it holds the game once it lands.
    pub sliding: bool,
    /// Frames of the slide left, and its length.
    pub slide_left: i32,
    pub slide_total: i32,
    /// The run has not started: "hold space to begin".
    pub prompt: bool,
    pub settings_open: bool,
    /// The slider being dragged, or -1.
    pub dragging: i32,
    /// The button under the pointer, or -1.
    pub hover: i32,
    /// Whether the rope was showing when the pause began.
    pub rope_at_pause: bool,
}

/// A fresh game scene: paused on the start prompt, the menu hidden.
pub fn start_menu(slide_frames: i32) -> (m: PauseMenu)
    ensures
        m == (PauseMenu {
            paused: true,
            sliding: false,
            slide_left: 0,
            slide_total: slide_frames,
            prompt: true,
            settings_open: false,
            dragging: -1i32,
            hover: -1i32,
            rope_at_pause: false,
        }),
{
    PauseMenu {
        paused: true,
        sliding: false,
        slide_left: 0,
        slide_total: slide_frames,
        prompt: true,
        settings_open: false,
        dragging: -1i32,
        hover: -1i32,
        rope_at_pause: false,
    }
}

/// Start sliding the pause menu in, remembering whether the rope showed.
pub fn open_pause(m: &mut PauseMenu, rope_visible: bool, slide_frames: i32)
    ensures
        *final(m) == (PauseMenu {
            sliding: true,
            slide_left: slide_frames,
            slide_total: slide_frames,
            rope_at_pause: rope_visible,
            ..*old(m)
        }),
{
    m.rope_at_pause = rope_visible;
    m.slide_total = slide_frames;
    m.slide_left = slide_frames;
    m.sliding = true;
}

/// How resuming left things: whether it launches the ball from the start
/// orbit, and whether the rope comes back.
#[derive(Clone, Copy, PartialEq, Eq, Debug, Structural)]
pub struct Resumed {
    pub launch: bool,
    pub rope_visible: bool,
}

/// Resume from the keyboard: the pause and the start prompt end, the slide
/// stops, and the settings panel closes.
pub fn resume(m: &mut PauseMenu) -> (r: Resumed)
    ensures
        r == (Resumed { launch: old(m).prompt, rope_visible: old(m).rope_at_pause }),
        *final(m) == (PauseMenu {
            paused: false,
            sliding: false,
            slide_left: 0,
            prompt: false,
            settings_open: false,
            dragging: -1i32,
            ..*old(m)
        }),
{
    let r = Resumed { launch: m.prompt, rope_visible: m.rope_at_pause };
    m.sliding = false;
    m.slide_left = 0;
    m.paused = false;
    m.prompt = false;
    m.settings_open = false;
    m.dragging = -1;
    r
}

/// Clear the pause from a menu button: nothing happens unless paused; then
/// the slide, the hover, the settings panel and the drag all reset.
pub fn clear_pause(m: &mut PauseMenu) -> (was_paused: bool)
    ensures
        was_paused == old(m).paused,
        !was_paused ==> *final(m) == *old(m),
        was_paused ==> *final(m) == (PauseMenu {
            paused: false,
            sliding: false,
            slide_left: 0,
            hover: -1i32,
            settings_open: false,
            dragging: -1i32,
            ..*old(m)
        }),
{
    if !m.paused {
        return false;
    }
    m.sliding = false;
    m.slide_left = 0;
    m.hover = -1;
    m.settings_open = false;
    m.dragging = -1;
    m.paused = false;
    true
}

/// One frame of the slide-in.
#[derive(Clone, Copy, PartialEq, Eq, Debug, Structural)]
pub enum Slide {
    /// No slide under way: the frame goes on.
    Still,
    /// Moving: `left` of `total` frames remain. The frame ends here.
    Moving { left: i32, total: i32 },
    /// The menu landed and the game is now paused. The frame ends here.
    Landed,
}

/// One frame of the slide-in, as a step of the menu's state.
pub open spec fn slide_step(m: PauseMenu) -> (PauseMenu, Slide) {
    if !m.sliding {
        (m, Slide::Still)
    } else if m.slide_left <= 0 {
        (PauseMenu { sliding: false, ..m }, Slide::Still)
    } else if m.slide_left == 1 {
        (PauseMenu { sliding: false, paused: true, slide_left: 0, ..m }, Slide::Landed)
    } else {
        (
            PauseMenu { slide_left: (m.slide_left - 1) as i32, ..m },
            Slide::Moving {
                left: (m.slide_left - 1) as i32,
                total: if m.slide_total < 1 { 1 } else { m.slide_total },
            },
        )
    }
}

/// Advance the slide-in by one frame.
pub fn slide_tick(m: &mut PauseMenu) -> (s: Slide)
    ensures
        (*final(m), s) == slide_step(*old(m)),
{
    if !m.sliding {
        return Slide::Still;
    }
    let left = if m.slide_left < 0 { 0 } else { m.slide_left };
    let total = if m.slide_total < 1 { 1 } else { m.slide_total };
    if left > 0 {
        let left = left - 1;
        m.slide_left = left;
        if left == 0 {
            m.sliding = false;
            m.paused = true;
            return Slide::Landed;
        }
        return Slide::Moving { left, total };
    }
    m.sliding = false;
    Slide::Still
}

/// The menu after `n` frames of the slide.
pub open spec fn slide_n(m: PauseMenu, n: nat) -> PauseMenu
    decreases n,
{
    if n == 0 { m } else { slide_n(slide_step(m).0, (n - 1) as nat) }
}

/// A button of the pause menu or its settings panel.
#[derive(Clone, Copy, PartialEq, Eq, Debug, Structural)]
pub enum Button {
    Resume,
    Restart,
    Settings,
    Menu,
    Back,
}

/// What a button click does.
#[derive(Clone, Copy, PartialEq, Eq, Debug, Structural)]
pub enum Click {
    Ignore,
    /// Back to the game, the rope shown as it was.
    Resumed { rope_visible: bool },
    /// Load a new level: the run counter advances.
    Restart { nonce: i32 },
    /// Back to the main menu.
    ToMenu,
    /// The settings panel opened.
    SettingsShown,
    /// The settings panel closed; the menu buttons show again.
    SettingsHidden,
}

/// A click on a button, given the run counter. Every button but Back does
/// nothing unless the game is paused; Back always closes the settings panel.
pub fn click(m: &mut PauseMenu, b: Button, nonce: i32) -> (c: Click)
    ensures
        b != Button::Back && !old(m).paused ==> c == Click::Ignore && *final(m) == *old(m),
        b == Button::Back ==> c == Click::SettingsHidden
            && *final(m) == (PauseMenu { settings_open: false, dragging: -1i32, ..*old(m) }),
        old(m).paused && b == Button::Settings ==> c == Click::SettingsShown
            && *final(m) == (PauseMenu { settings_open: true, dragging: -1i32, ..*old(m) }),
        old(m).paused && (b == Button::Resume || b == Button::Restart || b == Button::Menu) ==>
            *final(m) == (PauseMenu {
                paused: false,
                sliding: false,
                slide_left: 0,
                hover: -1i32,
                settings_open: false,
                dragging: -1i32,
                ..*old(m)
            }),
        old(m).paused && b == Button::Resume ==> c == (Click::Resumed { rope_visible: old(m).rope_at_pause }),
        old(m).paused && b == Button::Restart ==>
            c == (Click::Restart { nonce: if nonce == i32::MAX { i32::MAX } else { (nonce + 1) as i32 } }),
        old(m).paused && b == Button::Menu ==> c == Click::ToMenu,
{
    match b {
        Button::Back => {
            m.settings_open = false;
            m.dragging = -1;
            Click::SettingsHidden
        },
        Button::Settings => {
            if !m.paused {
                return Click::Ignore;
            }
            m.settings_open = true;
            m.dragging = -1;
            Click::SettingsShown
        },
        Button::Resume => {
            if !clear_pause(m) {
                return Click::Ignore;
            }
            Click::Resumed { rope_visible: m.rope_at_pause }
        },
        Button::Restart => {
            if !clear_pause(m) {
                return Click::Ignore;
            }
            Click::Restart { nonce: if nonce == i32::MAX { nonce } else { nonce + 1 } }
        },
        Button::Menu => {
            if !clear_pause(m) {
                return Click::Ignore;
            }
            Click::ToMenu
        },
    }
}

/// The pointer moved over button `over` (-1 for none) while paused: returns
/// whether the highlight must change.
pub fn hover_to(m: &mut PauseMenu, over: i32) -> (changed: bool)
    ensures
        !old(m).paused ==> !changed && *final(m) == *old(m),
        old(m).paused ==> changed == (over != old(m).hover)
            && *final(m) == (PauseMenu { hover: over, ..*old(m) }),
{
    if !m.paused || over == m.hover {
        return false;
    }
    m.hover = over;
    true
}

/// A slider grabbed (`Some`) or the mouse released (`None`).
pub fn set_drag(m: &mut PauseMenu, slider: Option<u8>)
    ensures
        *final(m) == (PauseMenu {
            dragging: match slider { Some(i) => i as i32, None => -1i32 },
            ..*old(m)
        }),
{
    m.dragging = match slider {
        Some(i) => i as i32,
        None => -1,
    };
}

// ── Laws ────────────────────────────────────────────────────────────────────

/// A pause opened with `n` frames of slide lands, and holds the game, on
/// exactly the `n`-th frame: before it the menu is still sliding and the game
/// is not yet held by the landing.
pub proof fn law_slide_lands_paused(m: PauseMenu, n: nat)
    requires
        m.sliding,
        m.slide_left == n,
        n > 0,
    ensures
        slide_n(m, n).paused,
        !slide_n(m, n).sliding,
        forall|k: nat| k < n ==> (#[trigger] slide_n(m, k)).sliding,
    decreases n,
{
    let next = slide_step(m).0;
    assert(slide_n(m, n) == slide_n(next, (n - 1) as nat));
    if n == 1 {
        assert(slide_n(next, 0) == next);
    } else {
        law_slide_lands_paused(next, (n - 1) as nat);
        assert forall|k: nat| k < n implies (#[trigger] slide_n(m, k)).sliding by {
            if k > 0 {
                assert(slide_n(m, k) == slide_n(next, (k - 1) as nat));
            }
        }
    }
}

/// While the game is paused, no key acts on the run: only the presets, the
/// music, the volume and resuming are heard.
pub proof fn law_paused_keys_leave_the_run(key: KeyPress, settings: bool, sliding: bool, prompt: bool)
    ensures
        ({
            let c = key_rule(key, true, settings, sliding, prompt);
            ||| c == KeyCommand::Ignore
            ||| c == KeyCommand::QuietPreset
            ||| c == KeyCommand::ArcadeDeathSound
            ||| c is SwitchMusic
            ||| c is Volume
            ||| c is Resume
        }),
{
}

/// Space never opens the pause, and the pause key cannot restart a slide
/// already under way.
pub proof fn law_pause_opens_once(key: KeyPress, settings: bool, prompt: bool)
    ensures
        key_rule(KeyPress::Space, false, settings, false, prompt) != KeyCommand::OpenPause,
        key_rule(key, false, settings, true, prompt) != KeyCommand::OpenPause,
{
}

} // verus!
