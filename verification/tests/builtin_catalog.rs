use model_presets::preset::{builtin_model_presets, OwnedModelPreset, ReasoningEffort};

#[test]
fn builtin_catalog_has_seven_fixed_entries() {
    let presets = builtin_model_presets();
    assert_eq!(presets.len(), 7);

    let ids: Vec<&str> = presets.iter().map(|p| p.id).collect();
    assert_eq!(
        ids,
        vec![
            "swiftfox-low",
            "swiftfox-medium",
            "swiftfox-high",
            "gpt-5-minimal",
            "gpt-5-low",
            "gpt-5-medium",
            "gpt-5-high",
        ]
    );

    for p in presets.iter().take(3) {
        assert_eq!(p.model, p.id);
        assert_eq!(p.description, "");
        assert_eq!(p.effort, None);
        assert_eq!(p.label.replace(' ', "-"), p.id);
    }
    for p in presets.iter().skip(3) {
        assert_eq!(p.model, "gpt-5");
        assert!(!p.description.is_empty());
        assert_eq!(p.label.replace(' ', "-"), p.id);
    }
    assert_eq!(presets[3].effort, Some(ReasoningEffort::Minimal));
    assert_eq!(presets[4].effort, Some(ReasoningEffort::Low));
    assert_eq!(presets[5].effort, Some(ReasoningEffort::Medium));
    assert_eq!(presets[6].effort, Some(ReasoningEffort::High));
}

#[test]
fn builtin_ids_are_pairwise_distinct() {
    let presets = builtin_model_presets();
    for i in 0..presets.len() {
        for j in 0..presets.len() {
            if i != j {
                assert_ne!(presets[i].id, presets[j].id);
            }
        }
    }
}

#[test]
fn owned_form_is_a_deep_copy() {
    let presets = builtin_model_presets();
    let owned = OwnedModelPreset::from(&presets[6]);
    assert_eq!(owned.id, "gpt-5-high");
    assert_eq!(owned.label, "gpt-5 high");
    assert_eq!(owned.description, presets[6].description);
    assert_eq!(owned.model, "gpt-5");
    assert_eq!(owned.effort, Some(ReasoningEffort::High));
}
