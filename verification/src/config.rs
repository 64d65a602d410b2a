//! The bundle of token values that an initialisation applies.

use vstd::prelude::*;
use crate::theme::Tokens;
use crate::units::{px, Scalar, SIXTEEN_BITS, ZERO_BITS};

verus! {

/// Graphyn Design System configuration.
///
/// Every field can be replaced on its own, and no field depends on another.
/// No value is checked here: what the caller sets is what the theme gets.
pub struct GraphynConfig {
    /// Sans-serif font family (default: "Host Grotesk")
    pub font_sans: String,
    /// Monospace font family (default: "Geist Mono")
    pub font_mono: String,
    /// Base font size in pixels (default: 16)
    pub font_size: Scalar,
    /// Border radius in pixels (default: 0 for sharp edges)
    pub radius: Scalar,
    /// Enable shadows (default: false for flat design)
    pub shadow: bool,
}

/// What a configuration holds, with each font family as its characters.
pub struct ConfigView {
    pub font_sans: Seq<char>,
    pub font_mono: Seq<char>,
    pub font_size: Scalar,
    pub radius: Scalar,
    pub shadow: bool,
}

impl View for GraphynConfig {
    type V = ConfigView;

    open spec fn view(&self) -> ConfigView {
        ConfigView {
            font_sans: self.font_sans@,
            font_mono: self.font_mono@,
            font_size: self.font_size,
            radius: self.radius,
            shadow: self.shadow,
        }
    }
}

impl ConfigView {
    /// The tokens that a theme gets from this configuration: each length in
    /// the toolkit's pixel unit, and the large radius locked to the radius.
    pub open spec fn tokens(self) -> Tokens {
        Tokens {
            font_family: self.font_sans,
            mono_font_family: self.font_mono,
            font_size: px(self.font_size),
            radius: px(self.radius),
            radius_lg: px(self.radius),
            shadow: self.shadow,
        }
    }
}

/// The canonical bundle: Host Grotesk, Geist Mono, a base size of 16, sharp
/// edges and no shadows.
pub open spec fn default_config() -> ConfigView {
    ConfigView {
        font_sans: "Host Grotesk"@,
        font_mono: "Geist Mono"@,
        font_size: Scalar { bits: SIXTEEN_BITS },
        radius: Scalar { bits: ZERO_BITS },
        shadow: false,
    }
}

impl Default for GraphynConfig {
    fn default() -> (config: Self)
        ensures
            config@ == default_config(),
    {
        GraphynConfig {
            font_sans: "Host Grotesk".to_owned(),
            font_mono: "Geist Mono".to_owned(),
            font_size: Scalar::from_bits(SIXTEEN_BITS),
            radius: Scalar::from_bits(ZERO_BITS),
            shadow: false,
        }
    }
}

} // verus!
