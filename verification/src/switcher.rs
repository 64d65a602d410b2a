//! Switching the mode of a theme that has been brought up.
//!
//! A switch commits the mode and nothing else. The colour roles depend on the
//! mode and come anew from the toolkit's palette. The fonts, sizes, radii and
//! the shadow flag do not: they were written when the theme was initialised,
//! and writing them again would undo what the host has set since.

use vstd::prelude::*;
use crate::mode::ThemeMode;
use crate::theme::{GlobalTheme, Stage};

verus! {

/// Switch to Graphyn Light theme.
///
/// Only the mode is committed: the colour roles come anew from the light
/// palette, and the fonts, sizes, radii and shadow flag stay as they are.
pub fn set_graphyn_light(handle: &mut GlobalTheme)
    requires
        old(handle).stage != Stage::Dormant,
    ensures
        final(handle)@ == old(handle)@.after_change(ThemeMode::Light),
{
    handle.change(ThemeMode::Light);
}

/// Switch to Graphyn Dark theme.
///
/// Only the mode is committed: the colour roles come anew from the dark
/// palette, and the fonts, sizes, radii and shadow flag stay as they are.
pub fn set_graphyn_dark(handle: &mut GlobalTheme)
    requires
        old(handle).stage != Stage::Dormant,
    ensures
        final(handle)@ == old(handle)@.after_change(ThemeMode::Dark),
{
    handle.change(ThemeMode::Dark);
}

} // verus!
