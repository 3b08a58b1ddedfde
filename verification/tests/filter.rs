use clipboard_pipeline::evaluate;
use clipboard_pipeline::ClipboardEvent;
use clipboard_pipeline::RawImage;
use clipboard_pipeline::SettingValue;
use clipboard_pipeline::SettingsSnapshot;

fn snap(entries: Vec<(&str, SettingValue)>) -> SettingsSnapshot {
    let mut s = SettingsSnapshot::new();
    for (name, value) in entries {
        s.put(String::from(name), value);
    }
    s
}

fn text_event(raw: &str, app: Option<&str>) -> ClipboardEvent {
    ClipboardEvent::text_event(String::from(raw), app.map(String::from))
}

fn image_event(app: Option<&str>) -> ClipboardEvent {
    let image = RawImage { width: 1, height: 1, rgba: vec![1, 2, 3, 4] };
    ClipboardEvent::image_event(image, app.map(String::from))
}

#[test]
fn plain_text_is_kept_with_defaults() {
    let s = snap(vec![]);
    let d = evaluate(&s, &text_event("hello", None));
    assert!(d.keep);
    assert!(d.auto_star);
    let o = d.detect_options.unwrap();
    assert!(o.should_detect_language);
    assert_eq!(o.min_lines_required, 3);
    assert!(o.enabled_languages.is_empty());
    assert!(o.prioritized_languages.is_empty());
    assert!(o.auto_mask_words_list.is_empty());
}

#[test]
fn toggle_off_drops_text() {
    let s = snap(vec![("isHistoryEnabled", SettingValue::Bool(false))]);
    let d = evaluate(&s, &text_event("hello", None));
    assert!(!d.keep);
    assert!(!d.auto_star);
    assert!(d.detect_options.is_none());
}

#[test]
fn content_exclusion_matches_case_insensitive_substring() {
    let s = snap(vec![
        ("isExclusionListEnabled", SettingValue::Bool(true)),
        (
            "historyExclusionList",
            SettingValue::Text(String::from("password\nsecret")),
        ),
    ]);
    let d = evaluate(&s, &text_event("my PASSWORD is x", None));
    assert!(!d.keep);
}

#[test]
fn content_exclusion_checks_every_line() {
    let s = snap(vec![
        ("isExclusionListEnabled", SettingValue::Bool(true)),
        (
            "historyExclusionList",
            SettingValue::Text(String::from("password\nsecret")),
        ),
    ]);
    let d = evaluate(&s, &text_event("first line\nholds a Secret here", None));
    assert!(!d.keep);
    let kept = evaluate(&s, &text_event("nothing to hide", None));
    assert!(kept.keep);
}

#[test]
fn content_exclusion_off_keeps_matching_text() {
    let s = snap(vec![(
        "historyExclusionList",
        SettingValue::Text(String::from("password")),
    )]);
    let d = evaluate(&s, &text_event("my password", None));
    assert!(d.keep);
}

#[test]
fn app_exclusion_matches_name_case_insensitively() {
    let s = snap(vec![
        ("isExclusionAppListEnabled", SettingValue::Bool(true)),
        (
            "historyExclusionAppList",
            SettingValue::Text(String::from("Terminal")),
        ),
    ]);
    let d = evaluate(&s, &text_event("ls -la", Some("terminal")));
    assert!(!d.keep);
}

#[test]
fn app_exclusion_is_equality_not_substring() {
    let s = snap(vec![
        ("isExclusionAppListEnabled", SettingValue::Bool(true)),
        (
            "historyExclusionAppList",
            SettingValue::Text(String::from("Term")),
        ),
    ]);
    let d = evaluate(&s, &text_event("ls -la", Some("Terminal")));
    assert!(d.keep);
}

#[test]
fn app_exclusion_needs_a_known_source() {
    let s = snap(vec![
        ("isExclusionAppListEnabled", SettingValue::Bool(true)),
        (
            "historyExclusionAppList",
            SettingValue::Text(String::from("Terminal")),
        ),
    ]);
    let d = evaluate(&s, &text_event("ls -la", None));
    assert!(d.keep);
}

#[test]
fn image_ignores_content_exclusion_but_not_app_exclusion() {
    let s = snap(vec![
        ("isExclusionListEnabled", SettingValue::Bool(true)),
        ("historyExclusionList", SettingValue::Text(String::from("a"))),
        ("isExclusionAppListEnabled", SettingValue::Bool(true)),
        (
            "historyExclusionAppList",
            SettingValue::Text(String::from("Terminal")),
        ),
    ]);
    let kept = evaluate(&s, &image_event(Some("Browser")));
    assert!(kept.keep);
    assert!(kept.detect_options.is_none());
    let dropped = evaluate(&s, &image_event(Some("terminal")));
    assert!(!dropped.keep);
}

#[test]
fn empty_after_trim_is_dropped() {
    let s = snap(vec![]);
    let d = evaluate(&s, &text_event("   \n  ", None));
    assert!(!d.keep);
    assert!(d.detect_options.is_none());
}

#[test]
fn detection_settings_flow_into_options() {
    let s = snap(vec![
        ("isHistoryDetectLanguageEnabled", SettingValue::Bool(false)),
        ("historyDetectLanguageMinLines", SettingValue::Int(7)),
        (
            "historyDetectLanguagesEnabledList",
            SettingValue::Text(String::from("ru,en")),
        ),
        (
            "historyDetectLanguagesPrioritizedList",
            SettingValue::Text(String::from("en")),
        ),
        ("isAutoMaskWordsListEnabled", SettingValue::Bool(true)),
        (
            "autoMaskWordsList",
            SettingValue::Text(String::from("hunter\nrosebud\n")),
        ),
    ]);
    let d = evaluate(&s, &text_event("hello", None));
    let o = d.detect_options.unwrap();
    assert!(!o.should_detect_language);
    assert_eq!(o.min_lines_required, 7);
    assert_eq!(o.enabled_languages, vec!["ru", "en"]);
    assert_eq!(o.prioritized_languages, vec!["en"]);
    assert_eq!(o.auto_mask_words_list, vec!["hunter", "rosebud"]);
}

#[test]
fn mask_words_stay_empty_while_masking_is_off() {
    let s = snap(vec![(
        "autoMaskWordsList",
        SettingValue::Text(String::from("hunter")),
    )]);
    let d = evaluate(&s, &text_event("hello", None));
    let o = d.detect_options.unwrap();
    assert!(o.auto_mask_words_list.is_empty());
}

#[test]
fn negative_min_lines_falls_back_to_default() {
    let s = snap(vec![("historyDetectLanguageMinLines", SettingValue::Int(-4))]);
    let d = evaluate(&s, &text_event("hello", None));
    let o = d.detect_options.unwrap();
    assert_eq!(o.min_lines_required, 3);
}

#[test]
fn empty_language_list_setting_yields_one_empty_entry() {
    let s = snap(vec![(
        "historyDetectLanguagesEnabledList",
        SettingValue::Text(String::new()),
    )]);
    let d = evaluate(&s, &text_event("hello", None));
    let o = d.detect_options.unwrap();
    assert_eq!(o.enabled_languages, vec![""]);
}

#[test]
fn auto_star_follows_its_toggle() {
    let s = snap(vec![(
        "isAutoFavoriteOnDoubleCopyEnabled",
        SettingValue::Bool(false),
    )]);
    let d = evaluate(&s, &text_event("hello", None));
    assert!(d.keep);
    assert!(!d.auto_star);
}

#[test]
fn latest_put_of_a_name_wins() {
    let s = snap(vec![
        ("isHistoryEnabled", SettingValue::Bool(false)),
        ("isHistoryEnabled", SettingValue::Bool(true)),
    ]);
    let d = evaluate(&s, &text_event("hello", None));
    assert!(d.keep);
}

#[test]
fn wrongly_typed_setting_falls_back_to_default() {
    let s = snap(vec![(
        "isHistoryEnabled",
        SettingValue::Text(String::from("false")),
    )]);
    let d = evaluate(&s, &text_event("hello", None));
    assert!(d.keep);
}

#[test]
fn evaluating_twice_yields_the_same_decision() {
    let s = snap(vec![
        ("isExclusionListEnabled", SettingValue::Bool(true)),
        (
            "historyExclusionList",
            SettingValue::Text(String::from("secret")),
        ),
        (
            "historyDetectLanguagesEnabledList",
            SettingValue::Text(String::from("ru,en")),
        ),
    ]);
    let e = text_event("nothing hidden here", Some("Editor"));
    let d1 = evaluate(&s, &e);
    let d2 = evaluate(&s, &e);
    assert_eq!(d1.keep, d2.keep);
    assert_eq!(d1.auto_star, d2.auto_star);
    let o1 = d1.detect_options.unwrap();
    let o2 = d2.detect_options.unwrap();
    assert_eq!(o1.should_detect_language, o2.should_detect_language);
    assert_eq!(o1.min_lines_required, o2.min_lines_required);
    assert_eq!(o1.enabled_languages, o2.enabled_languages);
    assert_eq!(o1.prioritized_languages, o2.prioritized_languages);
    assert_eq!(o1.auto_mask_words_list, o2.auto_mask_words_list);
}
