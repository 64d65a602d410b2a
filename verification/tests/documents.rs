use gpui_mono::{graphyn_theme_json, zinc_theme_json, GRAPHYN_THEME_JSON, ZINC_THEME_JSON};
use serde_json::Value;

fn modes(document: &str) -> Vec<String> {
    let parsed: Value = serde_json::from_str(document).expect("the document is JSON");
    let themes = parsed["themes"].as_array().expect("a list of themes");
    let mut found = Vec::new();
    for theme in themes {
        assert!(theme["name"].is_string());
        let colors = theme["colors"].as_object().expect("colour roles by name");
        assert!(!colors.is_empty());
        for value in colors.values() {
            let text = value.as_str().expect("a colour as text");
            assert!(text.starts_with('#') && text.len() == 7);
        }
        found.push(theme["mode"].as_str().expect("a mode").to_string());
    }
    found
}

#[test]
fn accessors_return_the_documents_verbatim() {
    assert_eq!(graphyn_theme_json(), GRAPHYN_THEME_JSON);
    assert_eq!(zinc_theme_json(), ZINC_THEME_JSON);
}

#[test]
fn documents_are_not_empty_and_differ() {
    assert_eq!(graphyn_theme_json().chars().count(), 1045);
    assert_eq!(zinc_theme_json().chars().count(), 406);
    assert_ne!(graphyn_theme_json(), zinc_theme_json());
}

#[test]
fn graphyn_document_has_an_entry_for_each_mode() {
    assert_eq!(modes(graphyn_theme_json()), vec!["light", "dark"]);
    assert_eq!(graphyn_theme_json().find("\"mode\": \"light\""), Some(103));
    assert_eq!(graphyn_theme_json().find("\"mode\": \"dark\""), Some(593));
}

#[test]
fn zinc_document_has_a_single_dark_entry() {
    assert_eq!(modes(zinc_theme_json()), vec!["dark"]);
    assert_eq!(zinc_theme_json().find("\"mode\": \"dark\""), Some(96));
    assert_eq!(zinc_theme_json().find("\"mode\": \"light\""), None);
}

#[test]
fn graphyn_document_carries_the_lavender_roles_in_both_modes() {
    let parsed: Value = serde_json::from_str(graphyn_theme_json()).expect("the document is JSON");
    assert_eq!(parsed["name"].as_str(), Some("Graphyn"));
    for theme in parsed["themes"].as_array().expect("a list of themes") {
        assert_eq!(theme["colors"]["primary.background"].as_str(), Some("#dddafb"));
        assert_eq!(theme["colors"]["accent.background"].as_str(), Some("#c4bff1"));
        assert_eq!(theme["font.family"].as_str(), Some("Host Grotesk"));
        assert_eq!(theme["mono.font.family"].as_str(), Some("Geist Mono"));
        assert_eq!(theme["font.size"].as_u64(), Some(16));
        assert_eq!(theme["radius"].as_u64(), Some(0));
        assert_eq!(theme["shadow"].as_bool(), Some(false));
    }
}
