use codex_onlysq::string_set::StringSet;
use codex_onlysq::warnings::fallback_model_metadata_warning_slug;
use codex_onlysq::warnings::WarningDisplayState;

const WARNING: &str = "Model metadata for `gpt-x` not found. Defaulting to fallback metadata; this can degrade performance and cause issues.";

#[test]
fn fallback_warning_slug_is_extracted() {
    assert_eq!(fallback_model_metadata_warning_slug(WARNING), Some("gpt-x"));
    assert_eq!(
        fallback_model_metadata_warning_slug("Model metadata for `` not found. Defaulting to fallback metadata; this can degrade performance and cause issues."),
        Some("")
    );
}

#[test]
fn other_messages_have_no_slug() {
    assert_eq!(fallback_model_metadata_warning_slug("Model metadata for `gpt-x`"), None);
    assert_eq!(fallback_model_metadata_warning_slug("something else"), None);
    assert_eq!(fallback_model_metadata_warning_slug(""), None);
    let shifted = format!(" {WARNING}");
    assert_eq!(fallback_model_metadata_warning_slug(&shifted), None);
}

#[test]
fn fallback_warnings_are_suppressed_and_recorded() {
    let mut state = WarningDisplayState::new();
    assert!(!state.has_suppressed("gpt-x"));
    assert!(!state.should_display(WARNING));
    assert!(state.has_suppressed("gpt-x"));
    assert!(!state.should_display(WARNING));
    assert!(state.should_display("Rate limit reached"));
    assert!(!state.has_suppressed("Rate limit reached"));
}

#[test]
fn default_state_suppresses_nothing_yet() {
    let state = WarningDisplayState::default();
    assert!(!state.has_suppressed("gpt-x"));
}

#[test]
fn string_set_holds_each_string_once() {
    let mut set = StringSet::new();
    assert_eq!(set.len(), 0);
    assert!(set.insert("a".to_string()));
    assert!(set.insert("b".to_string()));
    assert!(!set.insert("a".to_string()));
    assert_eq!(set.len(), 2);
    assert!(set.contains("a"));
    assert!(set.contains("b"));
    assert!(!set.contains("c"));
}
