//! Preset records and the built-in catalog.
//!
//! A preset pairs a model slug with an optional reasoning effort.  The
//! built-in catalog is a fixed, ordered list of seven presets: three
//! swiftfox variants (no effort) followed by four gpt-5 presets (minimal to
//! high effort).

use vstd::prelude::*;

verus! {

/// Reasoning effort attached to a preset; absent means the model's default.
#[derive(Clone, Copy, Debug, PartialEq, Eq, Structural)]
pub enum ReasoningEffort {
    Minimal,
    Low,
    Medium,
    High,
}

/// One preset over program-embedded constant strings; used by the built-in
/// catalog only.
#[derive(Clone, Copy, Debug, PartialEq, Eq)]
pub struct ModelPreset {
    /// Stable identifier for the preset.
    pub id: &'static str,
    /// Display label shown in UIs.
    pub label: &'static str,
    /// Short human description shown next to the label in UIs.
    pub description: &'static str,
    /// Model slug (e.g., "gpt-5").
    pub model: &'static str,
    /// Reasoning effort to apply for this preset.
    pub effort: Option<ReasoningEffort>,
}

/// One preset over owned strings; used for anything produced at runtime.
#[derive(Clone, Debug, PartialEq, Eq)]
pub struct OwnedModelPreset {
    pub id: String,
    pub label: String,
    pub description: String,
    pub model: String,
    pub effort: Option<ReasoningEffort>,
}

/// The mathematical content of a preset: every string field as a character
/// sequence.  Both record forms view to this one type.
pub ghost struct PresetSpec {
    pub id: Seq<char>,
    pub label: Seq<char>,
    pub description: Seq<char>,
    pub model: Seq<char>,
    pub effort: Option<ReasoningEffort>,
}

impl View for ModelPreset {
    type V = PresetSpec;

    open spec fn view(&self) -> PresetSpec {
        PresetSpec {
            id: self.id@,
            label: self.label@,
            description: self.description@,
            model: self.model@,
            effort: self.effort,
        }
    }
}

impl View for OwnedModelPreset {
    type V = PresetSpec;

    open spec fn view(&self) -> PresetSpec {
        PresetSpec {
            id: self.id@,
            label: self.label@,
            description: self.description@,
            model: self.model@,
            effort: self.effort,
        }
    }
}

/// The view of a whole catalog, record by record.
pub open spec fn catalog_view(s: Seq<ModelPreset>) -> Seq<PresetSpec> {
    s.map_values(|p: ModelPreset| p@)
}

/// The view of a whole owned catalog, record by record.
pub open spec fn owned_catalog_view(s: Seq<OwnedModelPreset>) -> Seq<PresetSpec> {
    s.map_values(|p: OwnedModelPreset| p@)
}

/// The built-in catalog: exactly these seven presets, in this order.
pub open spec fn builtin_presets_spec() -> Seq<PresetSpec> {
    seq![
        PresetSpec {
            id: "swiftfox-low"@,
            label: "swiftfox low"@,
            description: ""@,
            model: "swiftfox-low"@,
            effort: None,
        },
        PresetSpec {
            id: "swiftfox-medium"@,
            label: "swiftfox medium"@,
            description: ""@,
            model: "swiftfox-medium"@,
            effort: None,
        },
        PresetSpec {
            id: "swiftfox-high"@,
            label: "swiftfox high"@,
            description: ""@,
            model: "swiftfox-high"@,
            effort: None,
        },
        PresetSpec {
            id: "gpt-5-minimal"@,
            label: "gpt-5 minimal"@,
            description: "— fastest responses with limited reasoning; ideal for coding, instructions, or lightweight tasks"@,
            model: "gpt-5"@,
            effort: Some(ReasoningEffort::Minimal),
        },
        PresetSpec {
            id: "gpt-5-low"@,
            label: "gpt-5 low"@,
            description: "— balances speed with some reasoning; useful for straightforward queries and short explanations"@,
            model: "gpt-5"@,
            effort: Some(ReasoningEffort::Low),
        },
        PresetSpec {
            id: "gpt-5-medium"@,
            label: "gpt-5 medium"@,
            description: "— default setting; provides a solid balance of reasoning depth and latency for general-purpose tasks"@,
            model: "gpt-5"@,
            effort: Some(ReasoningEffort::Medium),
        },
        PresetSpec {
            id: "gpt-5-high"@,
            label: "gpt-5 high"@,
            description: "— maximizes reasoning depth for complex or ambiguous problems"@,
            model: "gpt-5"@,
            effort: Some(ReasoningEffort::High),
        },
    ]
}

/// Built-in list of model presets that pair a model with a reasoning effort.
///
/// The order groups swiftfox variants before gpt-5 presets, each from low
/// (or minimal) to high.
pub fn builtin_model_presets() -> (r: Vec<ModelPreset>)
    ensures
        catalog_view(r@) == builtin_presets_spec(),
        r@.len() == 7,
{
    let r: Vec<ModelPreset> = vec![
        ModelPreset {
            id: "swiftfox-low",
            label: "swiftfox low",
            description: "",
            model: "swiftfox-low",
            effort: None,
        },
        ModelPreset {
            id: "swiftfox-medium",
            label: "swiftfox medium",
            description: "",
            model: "swiftfox-medium",
            effort: None,
        },
        ModelPreset {
            id: "swiftfox-high",
            label: "swiftfox high",
            description: "",
            model: "swiftfox-high",
            effort: None,
        },
        ModelPreset {
            id: "gpt-5-minimal",
            label: "gpt-5 minimal",
            description: "— fastest responses with limited reasoning; ideal for coding, instructions, or lightweight tasks",
            model: "gpt-5",
            effort: Some(ReasoningEffort::Minimal),
        },
        ModelPreset {
            id: "gpt-5-low",
            label: "gpt-5 low",
            description: "— balances speed with some reasoning; useful for straightforward queries and short explanations",
            model: "gpt-5",
            effort: Some(ReasoningEffort::Low),
        },
        ModelPreset {
            id: "gpt-5-medium",
            label: "gpt-5 medium",
            description: "— default setting; provides a solid balance of reasoning depth and latency for general-purpose tasks",
            model: "gpt-5",
            effort: Some(ReasoningEffort::Medium),
        },
        ModelPreset {
            id: "gpt-5-high",
            label: "gpt-5 high",
            description: "— maximizes reasoning depth for complex or ambiguous problems",
            model: "gpt-5",
            effort: Some(ReasoningEffort::High),
        },
    ];
    proof {
        assert(catalog_view(r@) =~= builtin_presets_spec());
    }
    r
}

/// All built-in preset ids are pairwise distinct.
pub proof fn lemma_builtin_ids_distinct()
    ensures
        forall|i: int, j: int|
            0 <= i < j < builtin_presets_spec().len() ==> builtin_presets_spec()[i].id
                != builtin_presets_spec()[j].id,
{
    reveal_strlit("swiftfox-low");
    reveal_strlit("swiftfox-medium");
    reveal_strlit("swiftfox-high");
    reveal_strlit("gpt-5-minimal");
    reveal_strlit("gpt-5-low");
    reveal_strlit("gpt-5-medium");
    reveal_strlit("gpt-5-high");
    assert forall|i: int, j: int|
        0 <= i < j < builtin_presets_spec().len() implies builtin_presets_spec()[i].id
        != builtin_presets_spec()[j].id by {
        let a = builtin_presets_spec()[i].id;
        let b = builtin_presets_spec()[j].id;
        if a.len() == b.len() {
            assert(a[0] != b[0]);
        }
    }
}

impl OwnedModelPreset {
    /// Deep copy of a static preset: every string field cloned, the effort
    /// copied by value.
    pub fn from(p: &ModelPreset) -> (r: Self)
        ensures
            r@ == p@,
    {
        OwnedModelPreset {
            id: p.id.to_owned(),
            label: p.label.to_owned(),
            description: p.description.to_owned(),
            model: p.model.to_owned(),
            effort: p.effort,
        }
    }
}

} // verus!
