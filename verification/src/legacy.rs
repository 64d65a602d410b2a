//! Entry points under their Zinc names.
//!
//! Each one only forwards. They are kept so that call sites written against
//! the Zinc names go on working, and are meant to be removed.

use vstd::prelude::*;
use crate::config::default_config;
use crate::documents::ZINC_THEME_JSON;
use crate::initializer::{init_graphyn_theme, initialized_with};
use crate::mode::ZincMode;
use crate::theme::GlobalTheme;

verus! {

/// Legacy: Initialize the Zinc theme (now uses Graphyn).
///
/// Use [`init_graphyn_theme`] instead.
pub fn init_zinc_theme(handle: &mut GlobalTheme, mode: ZincMode)
    ensures
        final(handle)@ == initialized_with(old(handle)@, mode, default_config()),
{
    init_graphyn_theme(handle, mode);
}

/// Legacy: Get Zinc theme JSON.
///
/// Use [`crate::documents::graphyn_theme_json`] instead.
pub fn zinc_theme_json() -> (document: &'static str)
    ensures
        document@ == ZINC_THEME_JSON@,
{
    ZINC_THEME_JSON
}

} // verus!
