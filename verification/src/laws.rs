//! What holds across the entry points, proved from their contracts.
//!
//! Each law speaks of theme states by their views and of the entry points by
//! the spec functions that their contracts are stated with.

use vstd::prelude::*;
use crate::config::{default_config, ConfigView};
use crate::initializer::initialized_with;
use crate::mode::{resolve, GraphynMode, ThemeMode, ZincMode};
use crate::theme::{GlobalThemeView, Stage};

verus! {

/// After an initialisation the theme reads back exactly what the
/// configuration held: both font families, the font size, the radius and the
/// shadow flag. The large radius reads back the radius, so the two are equal.
pub proof fn lemma_init_reflects_config(
    before: GlobalThemeView,
    mode: GraphynMode,
    config: ConfigView,
)
    ensures
        ({
            let theme = initialized_with(before, mode, config).theme;
            &&& theme.font_family == config.font_sans
            &&& theme.mono_font_family == config.font_mono
            &&& theme.font_size.bits == config.font_size.bits
            &&& theme.radius.bits == config.radius.bits
            &&& theme.radius_lg.bits == config.radius.bits
            &&& theme.radius_lg == theme.radius
            &&& theme.shadow == config.shadow
            &&& theme.tokens() == config.tokens()
        }),
{
}

/// An initialisation is its three steps in their order. Initialising the
/// subsystem leaves a state in which a mode can be committed; committing the
/// mode leaves one whose theme object exists; the state that the
/// initialisation leaves is that one with the tokens of the configuration
/// written over its theme, and with nothing else changed.
pub proof fn lemma_init_is_the_ordered_protocol(
    before: GlobalThemeView,
    mode: GraphynMode,
    config: ConfigView,
)
    ensures
        before.after_init().stage != Stage::Dormant,
        before.after_init().after_change(resolve(mode)).stage == Stage::Live,
        ({
            let committed = before.after_init().after_change(resolve(mode));
            initialized_with(before, mode, config) == GlobalThemeView {
                theme: committed.theme.with_tokens(config.tokens()),
                ..committed
            }
        }),
{
}

/// Initialising the subsystem twice is initialising it once.
pub proof fn lemma_subsystem_init_is_idempotent(before: GlobalThemeView)
    ensures
        before.after_init().after_init() == before.after_init(),
{
}

/// Initialising again with the same configuration, in whatever mode, leaves
/// the tokens as the first initialisation left them, and a third time in the
/// second mode changes nothing at all. So an initialisation with the defaults
/// in dark mode followed by two in light mode gives the same font families,
/// sizes, radii and shadow flag every time.
pub proof fn lemma_reinit_keeps_tokens(
    before: GlobalThemeView,
    first: GraphynMode,
    second: GraphynMode,
    config: ConfigView,
)
    ensures
        ({
            let once = initialized_with(before, first, config);
            let twice = initialized_with(once, second, config);
            let thrice = initialized_with(twice, second, config);
            &&& once.theme.tokens() == config.tokens()
            &&& twice.theme.tokens() == once.theme.tokens()
            &&& twice.light == once.light
            &&& twice.dark == once.dark
            &&& thrice == twice
            &&& second == first ==> twice == once
        }),
{
}

/// Where the toolkit's two built-in palettes differ, an initialisation in
/// dark mode followed by one in light mode gives different colour roles:
/// those of the dark palette first, those of the light palette then.
pub proof fn lemma_reinit_changes_colors(before: GlobalThemeView, config: ConfigView)
    requires
        before.light != before.dark,
    ensures
        ({
            let dark = initialized_with(before, GraphynMode::Dark, config);
            let light = initialized_with(dark, GraphynMode::Light, config);
            &&& dark.theme.colors == before.dark
            &&& light.theme.colors == before.light
            &&& dark.theme.colors != light.theme.colors
            &&& dark.theme.mode != light.theme.mode
        }),
{
}

/// A switch of mode changes the stage, the mode and the colour roles, and
/// nothing else: the tokens and both palettes stay.
pub proof fn lemma_switch_changes_only_mode_state(before: GlobalThemeView, to: ThemeMode)
    ensures
        before.after_change(to).theme.tokens() == before.theme.tokens(),
        before.after_change(to).light == before.light,
        before.after_change(to).dark == before.dark,
        before.after_change(to).theme.mode == to,
        before.after_change(to).theme.colors == before.palette(to),
        before.after_change(to).stage == Stage::Live,
{
}

/// The tokens that an initialisation wrote are still there after a switch to
/// light, and after a switch to dark that follows it. The second switch
/// leaves the state that a switch to dark alone would have left.
pub proof fn lemma_switches_keep_what_init_wrote(
    before: GlobalThemeView,
    mode: GraphynMode,
    config: ConfigView,
)
    ensures
        ({
            let ready = initialized_with(before, mode, config);
            let light = ready.after_change(ThemeMode::Light);
            let dark = light.after_change(ThemeMode::Dark);
            &&& light.theme.tokens() == config.tokens()
            &&& dark.theme.tokens() == config.tokens()
            &&& dark == ready.after_change(ThemeMode::Dark)
        }),
{
}

/// The initialiser under its Zinc name leaves the state that the current
/// one leaves: whatever the two contracts allow for the same state and mode
/// is one and the same view.
pub proof fn lemma_legacy_init_agrees(
    before: GlobalThemeView,
    mode: ZincMode,
    by_legacy: GlobalThemeView,
    by_current: GlobalThemeView,
)
    requires
        by_legacy == initialized_with(before, mode, default_config()),
        by_current == initialized_with(before, mode, default_config()),
    ensures
        by_legacy == by_current,
{
}

} // verus!
