//! The mode selector and its resolution to the toolkit's own mode.

use vstd::prelude::*;
use vstd::std_specs::convert::FromSpecImpl;

verus! {

/// Graphyn theme mode selector.
#[derive(Debug, Clone, Copy, PartialEq, Eq, Structural)]
pub enum GraphynMode {
    Light,
    Dark,
}

/// The mode enumeration of the toolkit's theme.
#[derive(Debug, Clone, Copy, PartialEq, Eq, Structural)]
pub enum ThemeMode {
    Light,
    Dark,
}

/// Legacy: the Zinc name of [`GraphynMode`]. It is the same type and has no
/// value of its own.
pub type ZincMode = GraphynMode;

/// The toolkit mode that a selector stands for: one case per value, with no
/// fallback.
pub open spec fn resolve(mode: GraphynMode) -> ThemeMode {
    match mode {
        GraphynMode::Light => ThemeMode::Light,
        GraphynMode::Dark => ThemeMode::Dark,
    }
}

impl Default for GraphynMode {
    /// The canonical mode is dark.
    fn default() -> (mode: Self)
        ensures
            mode == GraphynMode::Dark,
    {
        GraphynMode::Dark
    }
}

impl ThemeMode {
    /// Whether this is the dark mode.
    pub fn is_dark(&self) -> (dark: bool)
        ensures
            dark == (*self == ThemeMode::Dark),
    {
        match self {
            ThemeMode::Light => false,
            ThemeMode::Dark => true,
        }
    }
}

impl From<GraphynMode> for ThemeMode {
    /// Resolves a selector to the toolkit's mode.
    fn from(mode: GraphynMode) -> (native: Self)
        ensures
            native == resolve(mode),
    {
        match mode {
            GraphynMode::Light => ThemeMode::Light,
            GraphynMode::Dark => ThemeMode::Dark,
        }
    }
}

impl FromSpecImpl<GraphynMode> for ThemeMode {
    open spec fn obeys_from_spec() -> bool {
        true
    }

    open spec fn from_spec(mode: GraphynMode) -> Self {
        resolve(mode)
    }
}

/// Resolution is one-to-one: two selectors resolve to the same toolkit mode
/// exactly when they are the same selector, and every toolkit mode is the
/// resolution of a selector.
pub proof fn lemma_resolve_is_bijective(a: GraphynMode, b: GraphynMode, native: ThemeMode)
    ensures
        resolve(a) == resolve(b) <==> a == b,
        exists|m: GraphynMode| resolve(m) == native,
        resolve(GraphynMode::Light) == ThemeMode::Light,
        resolve(GraphynMode::Dark) == ThemeMode::Dark,
{
    match native {
        ThemeMode::Light => {
            assert(resolve(GraphynMode::Light) == native);
        },
        ThemeMode::Dark => {
            assert(resolve(GraphynMode::Dark) == native);
        },
    }
}

} // verus!
