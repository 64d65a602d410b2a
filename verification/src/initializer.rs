//! Bringing the shared theme up with the Graphyn tokens.

use vstd::prelude::*;
use crate::config::{default_config, ConfigView, GraphynConfig};
use crate::mode::{resolve, GraphynMode, ThemeMode};
use crate::theme::{GlobalTheme, GlobalThemeView, Stage, ThemeView};
use crate::units::px;

verus! {

/// The theme state that an initialisation leaves behind.
///
/// The theme object exists, has the mode that the selector resolves to and
/// the colour roles of that mode's built-in palette. Its two font families,
/// its font size, its radius and its shadow flag are those of the
/// configuration; the large radius is locked to the radius. Of the state
/// before the call only the two palettes are carried over.
pub open spec fn initialized_with(
    before: GlobalThemeView,
    mode: GraphynMode,
    config: ConfigView,
) -> GlobalThemeView {
    GlobalThemeView {
        stage: Stage::Live,
        light: before.light,
        dark: before.dark,
        theme: ThemeView {
            mode: resolve(mode),
            colors: before.palette(resolve(mode)),
            font_family: config.font_sans,
            mono_font_family: config.font_mono,
            font_size: px(config.font_size),
            radius: px(config.radius),
            radius_lg: px(config.radius),
            shadow: config.shadow,
        },
    }
}

/// Initialize the Graphyn theme with default configuration.
///
/// This sets up the toolkit's theme with:
/// - Host Grotesk and Geist Mono fonts
/// - Zero radius (sharp edges)
/// - No shadows (flat design)
pub fn init_graphyn_theme(handle: &mut GlobalTheme, mode: GraphynMode)
    ensures
        final(handle)@ == initialized_with(old(handle)@, mode, default_config()),
{
    init_graphyn_theme_with_config(handle, mode, GraphynConfig::default());
}

/// Initialize the Graphyn theme with custom configuration.
///
/// The steps run in a fixed order. The theme subsystem is initialised first.
/// The mode is committed next, which is what brings the theme object into
/// existence. Only then are the tokens of the configuration written over it.
pub fn init_graphyn_theme_with_config(
    handle: &mut GlobalTheme,
    mode: GraphynMode,
    config: GraphynConfig,
)
    ensures
        final(handle)@ == initialized_with(old(handle)@, mode, config@),
{
    // Initialize the toolkit's theme system
    handle.init();

    // Set the theme mode first (this ensures the theme object exists)
    let theme_mode = ThemeMode::from(mode);
    handle.change(theme_mode);

    // Apply Graphyn design tokens
    let theme = handle.global_mut();
    theme.font_family = config.font_sans;
    theme.mono_font_family = config.font_mono;
    theme.font_size = px(config.font_size);
    theme.radius = px(config.radius);
    theme.radius_lg = px(config.radius);
    theme.shadow = config.shadow;
}

} // verus!
