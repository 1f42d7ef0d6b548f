use hyprwhisper::settings::Settings;

#[test]
fn the_default_settings_are_those_of_a_first_run() {
    let settings = Settings::default();
    assert_eq!(settings.model_filename, "ggml-base.bin");
    assert_eq!(settings.language, "auto");
    assert_eq!(settings.hotkey, "Ctrl+Shift+.");
    assert!(settings.auto_paste);
    assert!(settings.show_notification);
}

#[test]
fn auto_asks_for_detection() {
    let settings = Settings::default();
    assert_eq!(settings.language_hint(), None);
}

#[test]
fn any_other_language_is_pinned() {
    let mut settings = Settings::default();
    settings.language = "en".to_string();
    assert_eq!(settings.language_hint(), Some("en"));
    settings.language = "Auto".to_string();
    assert_eq!(settings.language_hint(), Some("Auto"));
    settings.language = "".to_string();
    assert_eq!(settings.language_hint(), Some(""));
    settings.language = "auto ".to_string();
    assert_eq!(settings.language_hint(), Some("auto "));
}
