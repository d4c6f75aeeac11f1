use codex_acp::model_metadata::{
    default_reasoning_effort_input, invalid_metadata, merge_model, model_info,
    reasoning_effort_inputs, InputModality, ModelMetadata, ModelVisibility,
};

/// Parses an effort name as the back end does for the efforts it knows.
fn parse_effort(name: &str) -> Result<(String, String), String> {
    match name {
        "low" | "medium" | "high" | "max" => Ok((name.to_string(), name.to_string())),
        other => Err(format!("unknown variant `{other}`")),
    }
}

fn kimi_metadata() -> ModelMetadata {
    ModelMetadata {
        id: "moonshotai/kimi-k3".to_string(),
        display_name: "Kimi K3".to_string(),
        description: "Agentic reasoning model".to_string(),
        context_window: 1048576,
        input_modalities: vec!["text".to_string(), "image".to_string()],
        reasoning_efforts: vec!["low".to_string(), "high".to_string(), "max".to_string()],
        default_reasoning_effort: "max".to_string(),
    }
}

fn overrides_for(
    metadata: ModelMetadata,
) -> Result<codex_acp::model_metadata::ModelOverrides<String>, String> {
    let efforts = reasoning_effort_inputs(&metadata)
        .iter()
        .map(|e| parse_effort(e))
        .collect::<Vec<_>>();
    let default_effort = parse_effort(&default_reasoning_effort_input(&metadata)).map(|(e, _)| e);
    model_info(metadata, efforts, default_effort)
}

#[test]
fn applies_metadata_at_the_catalog_boundary() {
    let model = overrides_for(kimi_metadata()).expect("metadata should be accepted");

    let catalog = vec![
        ("gpt-5".to_string(), "preserved".to_string()),
        ("moonshotai/kimi-k3".to_string(), "stale".to_string()),
        ("o3".to_string(), "other".to_string()),
    ];
    let other_models = catalog
        .iter()
        .filter(|(slug, _)| slug != "moonshotai/kimi-k3")
        .count();
    let merged = merge_model(catalog, model.slug.clone(), "fresh".to_string());

    assert_eq!(merged.len(), other_models + 1);
    assert!(merged.contains(&("gpt-5".to_string(), "preserved".to_string())));
    let models = merged
        .iter()
        .filter(|(slug, _)| slug == "moonshotai/kimi-k3")
        .collect::<Vec<_>>();
    assert_eq!(models.len(), 1);
    assert_eq!(models[0].1, "fresh");

    assert_eq!(model.context_window, 1_048_576);
    assert_eq!(model.max_context_window, 1_048_576);
    assert_eq!(model.input_modalities, Some(vec![InputModality::Text, InputModality::Image]));
    assert_eq!(
        model
            .supported_reasoning_levels
            .iter()
            .map(|preset| preset.effort.as_str())
            .collect::<Vec<_>>(),
        vec!["low", "high", "max"]
    );
    assert_eq!(model.supported_reasoning_levels[1].description, "high reasoning effort");
    assert_eq!(model.default_reasoning_level.as_deref(), Some("max"));
    assert!(!model.used_fallback_model_metadata);
    assert_eq!(model.visibility, ModelVisibility::List);
    assert_eq!(model.display_name, "Kimi K3");
    assert_eq!(model.description.as_deref(), Some("Agentic reasoning model"));
}

#[test]
fn requires_id_and_positive_context_window() {
    let mut blank_id = kimi_metadata();
    blank_id.id = "   ".to_string();
    assert_eq!(
        overrides_for(blank_id).err(),
        Some("id and a positive context_window are required".to_string())
    );
    let mut zero = kimi_metadata();
    zero.context_window = 0;
    assert!(overrides_for(zero).is_err());
}

#[test]
fn reports_errors_in_checking_order() {
    let mut bad = kimi_metadata();
    bad.reasoning_efforts = vec!["low".to_string(), " turbo ".to_string(), "nope".to_string()];
    bad.default_reasoning_effort = "bogus".to_string();
    bad.input_modalities = vec!["audio".to_string()];
    assert_eq!(
        overrides_for(bad).err(),
        Some("invalid reasoning effort: unknown variant `turbo`".to_string())
    );

    let mut bad_default = kimi_metadata();
    bad_default.default_reasoning_effort = " bogus ".to_string();
    bad_default.input_modalities = vec!["audio".to_string()];
    assert_eq!(
        overrides_for(bad_default).err(),
        Some("invalid default reasoning effort: unknown variant `bogus`".to_string())
    );

    let mut bad_modality = kimi_metadata();
    bad_modality.input_modalities = vec!["text".to_string(), " audio\"".to_string()];
    assert_eq!(
        overrides_for(bad_modality).err(),
        Some("unsupported input modality \"audio\\\"\"".to_string())
    );
}

#[test]
fn fills_defaults_from_blank_fields() {
    let metadata = ModelMetadata {
        id: "  local/model ".to_string(),
        display_name: "  ".to_string(),
        description: " ".to_string(),
        context_window: 8,
        input_modalities: Vec::new(),
        reasoning_efforts: Vec::new(),
        default_reasoning_effort: " ".to_string(),
    };
    let model = overrides_for(metadata).unwrap();
    assert_eq!(model.slug, "local/model");
    assert_eq!(model.display_name, "local/model");
    assert_eq!(model.description, None);
    assert_eq!(model.input_modalities, None);
    assert!(model.supported_reasoning_levels.is_empty());
    assert_eq!(model.default_reasoning_level, None);
}

#[test]
fn merging_into_a_catalog_without_the_model_appends_it() {
    let merged = merge_model(vec![("a".to_string(), 1)], "b".to_string(), 2);
    assert_eq!(merged, vec![("a".to_string(), 1), ("b".to_string(), 2)]);
    let replaced = merge_model(
        vec![("b".to_string(), 1), ("a".to_string(), 3), ("b".to_string(), 4)],
        "b".to_string(),
        2,
    );
    assert_eq!(replaced, vec![("a".to_string(), 3), ("b".to_string(), 2)]);
}

#[test]
fn names_the_metadata_variable_in_errors() {
    assert_eq!(
        invalid_metadata("EOF while parsing"),
        "invalid JAZ_CODEX_MODEL_METADATA: EOF while parsing"
    );
}
