use model_presets::paths::user_presets_path;

#[test]
fn environment_value_wins_when_not_blank() {
    let got = user_presets_path(Some("/tmp/x.json"), Some("/home/u/.codex"));
    assert_eq!(got.as_deref(), Some("/tmp/x.json"));
}

#[test]
fn environment_value_is_used_verbatim() {
    let got = user_presets_path(Some("  /tmp/x.json  "), None);
    assert_eq!(got.as_deref(), Some("  /tmp/x.json  "));
}

#[test]
fn blank_environment_value_behaves_as_unset() {
    for blank in ["", "   ", " \t\r\n ", "\u{00A0}\u{2003}"] {
        let got = user_presets_path(Some(blank), Some("/home/u/.codex"));
        assert_eq!(got.as_deref(), Some("/home/u/.codex/models.json"), "{blank:?}");
        assert_eq!(user_presets_path(Some(blank), None), None);
    }
}

#[test]
fn home_directory_supplies_the_default() {
    let got = user_presets_path(None, Some("/home/u/.codex"));
    assert_eq!(got.as_deref(), Some("/home/u/.codex/models.json"));
}

#[test]
fn no_source_means_no_path() {
    assert_eq!(user_presets_path(None, None), None);
}
