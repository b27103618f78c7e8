use model_presets::load_model_presets_owned;
use model_presets::overrides::parse_user_presets;
use model_presets::preset::{builtin_model_presets, OwnedModelPreset, ReasoningEffort};

fn builtins_owned() -> Vec<OwnedModelPreset> {
    builtin_model_presets().iter().map(OwnedModelPreset::from).collect()
}

#[test]
fn shorthand_strings_become_presets() {
    let got = parse_user_presets("[\"a\",\"b\"]").unwrap();
    assert_eq!(got.len(), 2);
    for (p, m) in got.iter().zip(["a", "b"]) {
        assert_eq!(p.id, m);
        assert_eq!(p.label, m);
        assert_eq!(p.model, m);
        assert_eq!(p.description, "");
        assert_eq!(p.effort, None);
    }
    let loaded = load_model_presets_owned(Some("[\"a\",\"b\"]"));
    assert_eq!(loaded, got);
}

#[test]
fn full_object_with_effort() {
    let got = parse_user_presets("[{\"model\":\"x\",\"effort\":\"high\"}]").unwrap();
    assert_eq!(got.len(), 1);
    assert_eq!(got[0].id, "x");
    assert_eq!(got[0].label, "x");
    assert_eq!(got[0].description, "");
    assert_eq!(got[0].model, "x");
    assert_eq!(got[0].effort, Some(ReasoningEffort::High));
}

#[test]
fn full_object_with_every_field() {
    let text = "[{\"id\":\"i\",\"label\":\"l\",\"description\":\"d\",\"model\":\"m\",\"effort\":\"minimal\"}]";
    let got = parse_user_presets(text).unwrap();
    assert_eq!(got.len(), 1);
    assert_eq!(got[0].id, "i");
    assert_eq!(got[0].label, "l");
    assert_eq!(got[0].description, "d");
    assert_eq!(got[0].model, "m");
    assert_eq!(got[0].effort, Some(ReasoningEffort::Minimal));
}

#[test]
fn empty_or_invalid_documents_fall_back_to_builtins() {
    for text in ["[]", "[{\"notmodel\":\"x\"}]", "{not json"] {
        assert!(parse_user_presets(text).is_none(), "{text}");
        assert_eq!(load_model_presets_owned(Some(text)), builtins_owned(), "{text}");
    }
    assert_eq!(load_model_presets_owned(None), builtins_owned());
}

#[test]
fn invalid_elements_are_skipped() {
    let got = parse_user_presets("[\"good\", 42]").unwrap();
    assert_eq!(got.len(), 1);
    assert_eq!(got[0].model, "good");

    let got = parse_user_presets("[true, null, 1.5e-3, [\"x\"], {}, \"ok\"]").unwrap();
    assert_eq!(got.len(), 1);
    assert_eq!(got[0].model, "ok");
}

#[test]
fn unknown_effort_token_skips_the_element() {
    assert!(parse_user_presets("[{\"model\":\"x\",\"effort\":\"extreme\"}]").is_none());
    let got = parse_user_presets("[{\"model\":\"x\",\"effort\":\"extreme\"}, \"y\"]").unwrap();
    assert_eq!(got.len(), 1);
    assert_eq!(got[0].model, "y");
}

#[test]
fn null_members_count_as_absent() {
    let got = parse_user_presets("[{\"model\":\"m\",\"id\":null,\"effort\":null}]").unwrap();
    assert_eq!(got.len(), 1);
    assert_eq!(got[0].id, "m");
    assert_eq!(got[0].effort, None);
}

#[test]
fn last_occurrence_of_a_member_wins() {
    let got = parse_user_presets("[{\"model\":42,\"model\":\"x\"}]").unwrap();
    assert_eq!(got[0].model, "x");
    assert!(parse_user_presets("[{\"model\":\"x\",\"model\":42}]").is_none());
}

#[test]
fn unknown_members_are_ignored() {
    let text = "[{\"model\":\"x\",\"extra\":[1,{\"a\":null},true],\"other\":\"y\"}]";
    let got = parse_user_presets(text).unwrap();
    assert_eq!(got.len(), 1);
    assert_eq!(got[0].model, "x");
}

#[test]
fn string_escapes_are_decoded() {
    let got = parse_user_presets("[\"a\\u0041b\", \"q\\\"\\\\n\", \"\\uD83D\\uDE00\"]").unwrap();
    assert_eq!(got.len(), 3);
    assert_eq!(got[0].model, "aAb");
    assert_eq!(got[1].model, "q\"\\n");
    assert_eq!(got[2].model, "\u{1F600}");
}

#[test]
fn malformed_json_text_falls_back_to_builtins() {
    for text in [
        "[\"a\"] x",        // trailing junk
        "[\"a\",]",         // trailing comma
        "[\"a\" \"b\"]",    // missing comma
        "[01]",             // leading zero
        "[\"\\uD800\"]",    // lone surrogate
        "[\"a\nb\"]",       // raw control character in a string
        "[\"a]",            // unterminated string
        "{\"model\":\"x\"}",   // not an array
        "\"just a string\"",   // not an array
    ] {
        assert!(parse_user_presets(text).is_none(), "{text}");
        assert_eq!(load_model_presets_owned(Some(text)), builtins_owned(), "{text}");
    }
}

#[test]
fn numbers_of_every_shape_are_skipped_quietly() {
    let text = "[0, -1, 12.50, 2e10, -3.5E-2, 0.0, \"kept\"]";
    let got = parse_user_presets(text).unwrap();
    assert_eq!(got.len(), 1);
    assert_eq!(got[0].model, "kept");
}

#[test]
fn whitespace_around_tokens_is_ignored() {
    let text = " [\r\n\t {\"model\" : \"x\" } ,\n \"y\" ]\n";
    let got = parse_user_presets(text).unwrap();
    assert_eq!(got.len(), 2);
    assert_eq!(got[0].model, "x");
    assert_eq!(got[1].model, "y");
}

#[test]
fn non_ascii_model_names_survive() {
    let got = parse_user_presets("[\"héllo-模型\"]").unwrap();
    assert_eq!(got[0].model, "héllo-模型");
}

#[test]
fn repeated_loads_agree() {
    for content in [None, Some("[\"a\",\"b\"]"), Some("{not json")] {
        let first = load_model_presets_owned(content);
        let second = load_model_presets_owned(content);
        assert_eq!(first, second);
        assert!(!first.is_empty());
    }
}
