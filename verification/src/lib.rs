//! gpui-mono: the Graphyn Design System for GPUI, as a verified theming core.
//!
//! The Graphyn Mono theme is:
//! - **Lavender primary** (#dddafb) and accent (#c4bff1) colors
//! - **Host Grotesk** sans-serif font
//! - **Geist Mono** monospace font
//! - **Zero radius** (sharp edges)
//! - **No shadows** (flat design)
//!
//! The crate decides what the toolkit's shared theme holds after it has been
//! initialised with a [`GraphynConfig`] and after its mode has been switched.
//! The theme is reached through a handle, [`GlobalTheme`], that the caller
//! passes in; the library keeps no state of its own. Every function is
//! verified against a contract over the view of that handle, and the laws
//! that tie the functions together are proved in [`laws`].
//!
//! # Usage
//!
//! ```rust,ignore
//! use gpui_mono::{init_graphyn_theme, set_graphyn_light, GraphynMode};
//!
//! init_graphyn_theme(&mut handle, GraphynMode::Dark);
//! // ... later, with the fonts, radii and shadow flag left as they are
//! set_graphyn_light(&mut handle);
//! ```

pub mod config;
pub mod documents;
pub mod initializer;
pub mod laws;
pub mod legacy;
pub mod mode;
pub mod switcher;
pub mod theme;
pub mod units;

pub use config::GraphynConfig;
pub use documents::{graphyn_theme_json, GRAPHYN_THEME_JSON, ZINC_THEME_JSON};
pub use initializer::{init_graphyn_theme, init_graphyn_theme_with_config};
pub use legacy::{init_zinc_theme, zinc_theme_json};
pub use mode::{GraphynMode, ThemeMode, ZincMode};
pub use switcher::{set_graphyn_dark, set_graphyn_light};
pub use theme::{ColorRoles, GlobalTheme, Stage, Theme};
pub use units::{px, Pixels, Scalar};
