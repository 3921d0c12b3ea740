//! Which background the level shows: the dark backdrop, or the zone's
//! gradient in its vivid and flipped variants, swapped only when the theme
//! changes.

use vstd::prelude::*;

verus! {

/// A background image to show.
#[derive(Clone, Copy, PartialEq, Eq, Debug, Structural)]
pub enum Backdrop {
    /// Dark mode's near-black backdrop.
    Dark,
    /// The gradient of a zone (0 start, 1 purple, 2 black: every later zone
    /// looks like the black one), vivid or not, upright or flipped with
    /// gravity.
    Zone { zone: u8, vivid: bool, flipped: bool },
}

/// The theme that decides the background: dark mode, the zone, vivid colours,
/// flipped gravity.
#[derive(Clone, Copy, PartialEq, Eq, Debug, Structural)]
pub struct Theme {
    pub dark: bool,
    pub zone: u32,
    pub vivid: bool,
    pub flipped: bool,
}

pub open spec fn backdrop_for(t: Theme) -> Backdrop {
    if t.dark {
        Backdrop::Dark
    } else {
        Backdrop::Zone { zone: if t.zone >= 2 { 2 } else { t.zone as u8 }, vivid: t.vivid, flipped: t.flipped }
    }
}

/// One frame of the background: the theme remembered, and the background to
/// swap in, if any.
pub open spec fn background_step(prev: Option<Theme>, t: Theme) -> (Option<Theme>, Option<Backdrop>) {
    (Some(t), if prev == Some(t) { None } else { Some(backdrop_for(t)) })
}

/// The background for this frame's theme, or `None` when the theme is the one
/// already showing. The theme is remembered either way.
pub fn tick_background(prev: &mut Option<Theme>, t: Theme) -> (b: Option<Backdrop>)
    ensures
        (*final(prev), b) == background_step(*old(prev), t),
{
    let same = match *prev {
        Some(p) => p == t,
        None => false,
    };
    *prev = Some(t);
    if same {
        return None;
    }
    if t.dark {
        Some(Backdrop::Dark)
    } else {
        let zone: u8 = if t.zone >= 2 { 2 } else { t.zone as u8 };
        Some(Backdrop::Zone { zone, vivid: t.vivid, flipped: t.flipped })
    }
}

/// A background is swapped in only when the theme changes: the frame after
/// any frame, with the same theme, swaps nothing; and the swap shows the dark
/// backdrop exactly in dark mode.
pub proof fn law_background_redraws_only_on_change(prev: Option<Theme>, t: Theme)
    ensures
        background_step(background_step(prev, t).0, t).1 is None,
        prev != Some(t) ==> (background_step(prev, t).1 == Some(Backdrop::Dark) <==> t.dark),
{
}

} // verus!
