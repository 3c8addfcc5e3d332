use codex_onlysq::model_catalog::model_is_available;
use codex_onlysq::model_catalog::preset_from_model;
use codex_onlysq::model_catalog::presets_from_catalog;
use codex_onlysq::model_catalog::OnlySqModel;
use codex_onlysq::model_catalog::ReasoningEffort;

fn model(name: &str, status: &str, can_think: bool) -> OnlySqModel {
    OnlySqModel {
        name: name.to_string(),
        description: format!("about {name}"),
        can_think,
        status: status.to_string(),
    }
}

#[test]
fn status_work_in_any_case_or_empty_is_available() {
    assert!(model_is_available(&model("a", "work", false)));
    assert!(model_is_available(&model("a", "WORK", false)));
    assert!(model_is_available(&model("a", "WoRk", false)));
    assert!(model_is_available(&model("a", "", false)));
    assert!(!model_is_available(&model("a", "down", false)));
    assert!(!model_is_available(&model("a", "working", false)));
    assert!(!model_is_available(&model("a", " work", false)));
}

#[test]
fn preset_fields() {
    let p = preset_from_model(&"gpt-4o".to_string(), &model("GPT 4o", "work", true));
    assert_eq!(p.id, "gpt-4o");
    assert_eq!(p.model, "gpt-4o");
    assert_eq!(p.display_name, "GPT 4o");
    assert_eq!(p.description, "about GPT 4o");
    assert_eq!(p.default_reasoning_effort, ReasoningEffort::Medium);
    assert!(!p.supports_personality);
    assert!(!p.is_default);
    assert!(p.show_in_picker);
    assert!(p.supported_in_api);
    assert!(p.supported_reasoning_efforts.is_empty());
    assert!(p.additional_speed_tiers.is_empty());
    assert!(p.service_tiers.is_empty());
    assert!(p.input_modalities.is_empty());
    assert_eq!(p.default_service_tier, None);
    assert_eq!(p.upgrade, None);
    assert_eq!(p.availability_nux, None);

    let q = preset_from_model(&"raw-id".to_string(), &model("", "", false));
    assert_eq!(q.display_name, "raw-id");
    assert_eq!(q.default_reasoning_effort, ReasoningEffort::Off);
}

#[test]
fn catalog_is_filtered_and_sorted_by_display_name() {
    let entries = vec![
        ("a-id".to_string(), model("Zeta", "work", false)),
        ("b-id".to_string(), model("Alpha", "down", false)),
        ("c-id".to_string(), model("", "", true)),
        ("d-id".to_string(), model("Beta", "Work", false)),
        ("e-id".to_string(), model("Beta", "work", true)),
        ("f-id".to_string(), model("beta", "work", true)),
    ];
    let presets = presets_from_catalog(&entries);
    let order: Vec<(&str, &str)> = presets
        .iter()
        .map(|p| (p.id.as_str(), p.display_name.as_str()))
        .collect();
    assert_eq!(
        order,
        vec![
            ("d-id", "Beta"),
            ("e-id", "Beta"),
            ("a-id", "Zeta"),
            ("f-id", "beta"),
            ("c-id", "c-id"),
        ]
    );
}

#[test]
fn empty_catalog_gives_no_presets() {
    assert!(presets_from_catalog(&Vec::new()).is_empty());
}

#[test]
fn non_ascii_names_sort_by_code_point() {
    let entries = vec![
        ("x".to_string(), model("Ярус", "", false)),
        ("y".to_string(), model("Яблоко", "", false)),
        ("z".to_string(), model("Zulu", "", false)),
    ];
    let presets = presets_from_catalog(&entries);
    let names: Vec<&str> = presets.iter().map(|p| p.display_name.as_str()).collect();
    assert_eq!(names, vec!["Zulu", "Яблоко", "Ярус"]);
}

#[test]
fn equal_display_names_come_in_ascending_id_order() {
    let entries = vec![
        ("alpha".to_string(), model("Same", "work", false)),
        ("beta".to_string(), model("Other", "work", false)),
        ("gamma".to_string(), model("Same", "", true)),
        ("omega".to_string(), model("Same", "WORK", false)),
    ];
    let presets = presets_from_catalog(&entries);
    let order: Vec<&str> = presets.iter().map(|p| p.id.as_str()).collect();
    assert_eq!(order, vec!["beta", "alpha", "gamma", "omega"]);
}
