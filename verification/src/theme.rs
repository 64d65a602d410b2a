//! The toolkit's shared theme, as the library sees it.
//!
//! The toolkit owns one theme object per process. The library never owns it:
//! every function that reads or writes it takes a handle to it, so that a
//! caller, or a test, decides which theme is meant.

use vstd::prelude::*;
use crate::mode::ThemeMode;
use crate::units::Pixels;

verus! {

/// The colour roles of a theme, each packed as `0xRRGGBBAA`.
#[derive(Debug, Clone, Copy, PartialEq, Eq, Structural)]
pub struct ColorRoles {
    pub background: u32,
    pub foreground: u32,
    pub primary: u32,
    pub accent: u32,
}

/// How far the toolkit's theme has been brought up.
#[derive(Debug, Clone, Copy, PartialEq, Eq, Structural)]
pub enum Stage {
    /// The theme subsystem has not been initialised.
    Dormant,
    /// The theme subsystem is initialised; no mode has been committed.
    Ready,
    /// A mode has been committed: the theme object exists and can be written.
    Live,
}

/// The theme object: the mode, the colour roles that the last commit of a
/// mode populated, and the tokens that do not depend on the mode.
pub struct Theme {
    pub mode: ThemeMode,
    pub colors: ColorRoles,
    pub font_family: String,
    pub mono_font_family: String,
    pub font_size: Pixels,
    pub radius: Pixels,
    pub radius_lg: Pixels,
    pub shadow: bool,
}

/// What a theme object holds, with each font family as its characters.
pub struct ThemeView {
    pub mode: ThemeMode,
    pub colors: ColorRoles,
    pub font_family: Seq<char>,
    pub mono_font_family: Seq<char>,
    pub font_size: Pixels,
    pub radius: Pixels,
    pub radius_lg: Pixels,
    pub shadow: bool,
}

impl View for Theme {
    type V = ThemeView;

    open spec fn view(&self) -> ThemeView {
        ThemeView {
            mode: self.mode,
            colors: self.colors,
            font_family: self.font_family@,
            mono_font_family: self.mono_font_family@,
            font_size: self.font_size,
            radius: self.radius,
            radius_lg: self.radius_lg,
            shadow: self.shadow,
        }
    }
}

/// The tokens of a theme that do not depend on its mode.
pub struct Tokens {
    pub font_family: Seq<char>,
    pub mono_font_family: Seq<char>,
    pub font_size: Pixels,
    pub radius: Pixels,
    pub radius_lg: Pixels,
    pub shadow: bool,
}

impl ThemeView {
    /// The tokens that this theme holds.
    pub open spec fn tokens(self) -> Tokens {
        Tokens {
            font_family: self.font_family,
            mono_font_family: self.mono_font_family,
            font_size: self.font_size,
            radius: self.radius,
            radius_lg: self.radius_lg,
            shadow: self.shadow,
        }
    }

    /// This theme with the given tokens written over its own; the mode and
    /// the colour roles stay.
    pub open spec fn with_tokens(self, tokens: Tokens) -> ThemeView {
        ThemeView {
            mode: self.mode,
            colors: self.colors,
            font_family: tokens.font_family,
            mono_font_family: tokens.mono_font_family,
            font_size: tokens.font_size,
            radius: tokens.radius,
            radius_lg: tokens.radius_lg,
            shadow: tokens.shadow,
        }
    }
}

/// Handle to the toolkit's theme state: how far it has been brought up, the
/// toolkit's built-in palette of each mode, and the theme object.
///
/// Before a mode has been committed, `theme` holds what the toolkit would
/// start from; it counts as the shared theme object once the stage is
/// [`Stage::Live`].
pub struct GlobalTheme {
    pub stage: Stage,
    pub light: ColorRoles,
    pub dark: ColorRoles,
    pub theme: Theme,
}

/// What a handle holds, with the theme object by its view.
pub struct GlobalThemeView {
    pub stage: Stage,
    pub light: ColorRoles,
    pub dark: ColorRoles,
    pub theme: ThemeView,
}

impl View for GlobalTheme {
    type V = GlobalThemeView;

    open spec fn view(&self) -> GlobalThemeView {
        GlobalThemeView {
            stage: self.stage,
            light: self.light,
            dark: self.dark,
            theme: self.theme@,
        }
    }
}

impl GlobalThemeView {
    /// The built-in palette of a mode.
    pub open spec fn palette(self, mode: ThemeMode) -> ColorRoles {
        match mode {
            ThemeMode::Light => self.light,
            ThemeMode::Dark => self.dark,
        }
    }

    /// The state after the theme subsystem has been initialised: a dormant
    /// one becomes ready, any other stays as it is.
    pub open spec fn after_init(self) -> GlobalThemeView {
        GlobalThemeView {
            stage: if self.stage == Stage::Dormant {
                Stage::Ready
            } else {
                self.stage
            },
            ..self
        }
    }

    /// The state after a mode has been committed: the theme object exists,
    /// has that mode and the colour roles of that mode's built-in palette,
    /// and keeps every other token.
    pub open spec fn after_change(self, mode: ThemeMode) -> GlobalThemeView {
        GlobalThemeView {
            stage: Stage::Live,
            theme: ThemeView { mode: mode, colors: self.palette(mode), ..self.theme },
            ..self
        }
    }
}

impl GlobalTheme {
    /// A handle to a toolkit that has not been brought up, with the given
    /// built-in palettes and the theme that it would start from.
    pub fn new(light: ColorRoles, dark: ColorRoles, theme: Theme) -> (handle: Self)
        ensures
            handle.stage == Stage::Dormant,
            handle.light == light,
            handle.dark == dark,
            handle.theme == theme,
    {
        GlobalTheme { stage: Stage::Dormant, light, dark, theme }
    }

    /// Initialises the theme subsystem. Safe to call again: only a dormant
    /// toolkit changes, and only in its stage.
    pub fn init(&mut self)
        ensures
            final(self)@ == old(self)@.after_init(),
    {
        match self.stage {
            Stage::Dormant => {
                self.stage = Stage::Ready;
            },
            Stage::Ready => {},
            Stage::Live => {},
        }
    }

    /// Commits a mode. This is the step that brings the shared theme object
    /// into existence; the colour roles are taken anew from the built-in
    /// palette of the mode, and no other token is touched.
    pub fn change(&mut self, mode: ThemeMode)
        requires
            old(self).stage != Stage::Dormant,
        ensures
            final(self)@ == old(self)@.after_change(mode),
    {
        self.stage = Stage::Live;
        self.theme.mode = mode;
        self.theme.colors = if mode.is_dark() {
            self.dark
        } else {
            self.light
        };
    }

    /// The shared theme object, for reading.
    pub fn global(&self) -> (theme: &Theme)
        requires
            self.stage == Stage::Live,
        ensures
            *theme == self.theme,
    {
        &self.theme
    }

    /// The shared theme object, for writing. What the caller leaves in it is
    /// what the handle holds afterwards; nothing else of the handle changes.
    pub fn global_mut(&mut self) -> (theme: &mut Theme)
        requires
            old(self).stage == Stage::Live,
        ensures
            *theme == old(self).theme,
            final(self).theme == *final(theme),
            final(self).stage == old(self).stage,
            final(self).light == old(self).light,
            final(self).dark == old(self).dark,
    {
        &mut self.theme
    }
}

} // verus!
