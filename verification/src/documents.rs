//! The embedded token-set documents.
//!
//! Each document is a serialised theme set: a list of themes, each with its
//! mode and its colour roles by name. The library hands them out as they are
//! and never reads them.

use vstd::prelude::*;

verus! {

/// Graphyn theme JSON (includes both light and dark).
pub const GRAPHYN_THEME_JSON: &'static str = "{
  \"name\": \"Graphyn\",
  \"author\": \"Graphyn\",
  \"themes\": [
    {
      \"name\": \"Graphyn Light\",
      \"mode\": \"light\",
      \"font.family\": \"Host Grotesk\",
      \"mono.font.family\": \"Geist Mono\",
      \"font.size\": 16,
      \"radius\": 0,
      \"shadow\": false,
      \"colors\": {
        \"background\": \"#ffffff\",
        \"foreground\": \"#18181b\",
        \"border\": \"#e4e4e7\",
        \"primary.background\": \"#dddafb\",
        \"primary.foreground\": \"#18181b\",
        \"accent.background\": \"#c4bff1\",
        \"accent.foreground\": \"#18181b\"
      }
    },
    {
      \"name\": \"Graphyn Dark\",
      \"mode\": \"dark\",
      \"font.family\": \"Host Grotesk\",
      \"mono.font.family\": \"Geist Mono\",
      \"font.size\": 16,
      \"radius\": 0,
      \"shadow\": false,
      \"colors\": {
        \"background\": \"#09090b\",
        \"foreground\": \"#fafafa\",
        \"border\": \"#27272a\",
        \"primary.background\": \"#dddafb\",
        \"primary.foreground\": \"#18181b\",
        \"accent.background\": \"#c4bff1\",
        \"accent.foreground\": \"#18181b\"
      }
    }
  ]
}
";

/// Zinc theme JSON, the single dark theme that preceded Graphyn.
pub const ZINC_THEME_JSON: &'static str = "{
  \"name\": \"Zinc\",
  \"author\": \"Graphyn\",
  \"themes\": [
    {
      \"name\": \"Zinc Dark\",
      \"mode\": \"dark\",
      \"colors\": {
        \"background\": \"#09090b\",
        \"foreground\": \"#fafafa\",
        \"border\": \"#27272a\",
        \"primary.background\": \"#fafafa\",
        \"primary.foreground\": \"#18181b\",
        \"accent.background\": \"#27272a\",
        \"accent.foreground\": \"#fafafa\"
      }
    }
  ]
}
";

/// Whether `part` stands in `text` from position `at` on.
pub open spec fn stands_at(text: Seq<char>, part: Seq<char>, at: int) -> bool {
    &&& 0 <= at
    &&& at + part.len() <= text.len()
    &&& text.subrange(at, at + part.len()) == part
}

/// Whether `part` stands somewhere in `text`.
pub open spec fn stands_in(text: Seq<char>, part: Seq<char>) -> bool {
    exists|at: int| stands_at(text, part, at)
}

/// Get the Graphyn theme configuration as JSON.
pub fn graphyn_theme_json() -> (document: &'static str)
    ensures
        document@ == GRAPHYN_THEME_JSON@,
{
    GRAPHYN_THEME_JSON
}

/// Neither document is empty. The Graphyn document names a theme of each
/// mode: the entries `"mode": "light"` and `"mode": "dark"` both stand in it.
/// The Zinc document names a dark theme.
pub proof fn lemma_documents_name_their_modes()
    ensures
        GRAPHYN_THEME_JSON@.len() == 1045,
        ZINC_THEME_JSON@.len() == 406,
        stands_in(GRAPHYN_THEME_JSON@, "\"mode\": \"light\""@),
        stands_in(GRAPHYN_THEME_JSON@, "\"mode\": \"dark\""@),
        stands_in(ZINC_THEME_JSON@, "\"mode\": \"dark\""@),
{
    reveal_strlit("{
  \"name\": \"Graphyn\",
  \"author\": \"Graphyn\",
  \"themes\": [
    {
      \"name\": \"Graphyn Light\",
      \"mode\": \"light\",
      \"font.family\": \"Host Grotesk\",
      \"mono.font.family\": \"Geist Mono\",
      \"font.size\": 16,
      \"radius\": 0,
      \"shadow\": false,
      \"colors\": {
        \"background\": \"#ffffff\",
        \"foreground\": \"#18181b\",
        \"border\": \"#e4e4e7\",
        \"primary.background\": \"#dddafb\",
        \"primary.foreground\": \"#18181b\",
        \"accent.background\": \"#c4bff1\",
        \"accent.foreground\": \"#18181b\"
      }
    },
    {
      \"name\": \"Graphyn Dark\",
      \"mode\": \"dark\",
      \"font.family\": \"Host Grotesk\",
      \"mono.font.family\": \"Geist Mono\",
      \"font.size\": 16,
      \"radius\": 0,
      \"shadow\": false,
      \"colors\": {
        \"background\": \"#09090b\",
        \"foreground\": \"#fafafa\",
        \"border\": \"#27272a\",
        \"primary.background\": \"#dddafb\",
        \"primary.foreground\": \"#18181b\",
        \"accent.background\": \"#c4bff1\",
        \"accent.foreground\": \"#18181b\"
      }
    }
  ]
}
");
    reveal_strlit("{
  \"name\": \"Zinc\",
  \"author\": \"Graphyn\",
  \"themes\": [
    {
      \"name\": \"Zinc Dark\",
      \"mode\": \"dark\",
      \"colors\": {
        \"background\": \"#09090b\",
        \"foreground\": \"#fafafa\",
        \"border\": \"#27272a\",
        \"primary.background\": \"#fafafa\",
        \"primary.foreground\": \"#18181b\",
        \"accent.background\": \"#27272a\",
        \"accent.foreground\": \"#fafafa\"
      }
    }
  ]
}
");
    reveal_strlit("\"mode\": \"light\"");
    reveal_strlit("\"mode\": \"dark\"");
    let light = "\"mode\": \"light\""@;
    let dark = "\"mode\": \"dark\""@;
    assert(GRAPHYN_THEME_JSON@.subrange(103, 118) =~= light);
    assert(GRAPHYN_THEME_JSON@.subrange(593, 607) =~= dark);
    assert(ZINC_THEME_JSON@.subrange(96, 110) =~= dark);
    assert(stands_at(GRAPHYN_THEME_JSON@, light, 103));
    assert(stands_at(GRAPHYN_THEME_JSON@, dark, 593));
    assert(stands_at(ZINC_THEME_JSON@, dark, 96));
}

/// The two documents differ, as their lengths do.
pub proof fn lemma_documents_differ()
    ensures
        GRAPHYN_THEME_JSON@ != ZINC_THEME_JSON@,
{
    lemma_documents_name_their_modes();
}

} // verus!
