use micloop::config::{
    config_path, copy_modifiers, file_text, format_hotkey, home_dir, load, save, Config, Mode,
    Modifier, Output, StoredConfig, ALL_MODIFIERS,
};

fn text(json: &serde_json::Value, field: &str) -> Option<String> {
    json.get(field).and_then(|v| v.as_str()).map(String::from)
}

fn nothing_stored() -> StoredConfig {
    StoredConfig {
        key: None,
        modifiers: None,
        mode: None,
        latency_msec: None,
        output: None,
        max_record_secs: None,
        history_key: None,
        history_modifiers: None,
    }
}

#[test]
fn round_trip() {
    let cfg = Config {
        key: "KEY_F9".into(),
        modifiers: vec![Modifier::Ctrl, Modifier::Super],
        mode: Mode::Hold,
        latency_msec: 5,
        output: Output::Delayed,
        max_record_secs: 30,
        history_key: Some("KEY_F10".into()),
        history_modifiers: vec![Modifier::Ctrl],
    };
    assert_eq!(load(Some(save(&cfg))), cfg);
}

#[test]
fn round_trip_of_the_defaults() {
    let stored = save(&Config::default());
    assert_eq!(stored.history_key, Some(None));
    assert_eq!(load(Some(stored)), Config::default());
}

#[test]
fn missing_file_gives_defaults() {
    assert_eq!(load(None), Config::default());
}

#[test]
fn old_config_without_modifiers_gets_default() {
    let json: serde_json::Value = serde_json::from_str(r#"{"key": "KEY_F9"}"#).unwrap();
    assert!(json.get("modifiers").is_none());
    let cfg = load(Some(StoredConfig {
        key: text(&json, "key"),
        ..nothing_stored()
    }));
    assert_eq!(cfg.key, "KEY_F9");
    assert_eq!(cfg.modifiers, vec![Modifier::Ctrl]);
}

#[test]
fn an_empty_file_gives_defaults() {
    assert_eq!(load(Some(nothing_stored())), Config::default());
}

#[test]
fn every_stored_field_is_taken() {
    let cfg = load(Some(StoredConfig {
        modifiers: Some(vec![]),
        mode: Some(Mode::Hold),
        latency_msec: Some(7),
        output: Some(Output::Delayed),
        max_record_secs: Some(60),
        history_key: Some(Some("KEY_H".into())),
        history_modifiers: Some(vec![Modifier::Alt]),
        ..nothing_stored()
    }));
    assert_eq!(cfg.key, "KEY_SCROLLLOCK");
    assert_eq!(cfg.modifiers, vec![]);
    assert_eq!(cfg.mode, Mode::Hold);
    assert_eq!(cfg.latency_msec, 7);
    assert_eq!(cfg.output, Output::Delayed);
    assert_eq!(cfg.max_record_secs, 60);
    assert_eq!(cfg.history_key, Some("KEY_H".to_string()));
    assert_eq!(cfg.history_modifiers, vec![Modifier::Alt]);
}

#[test]
fn default_values() {
    let cfg = Config::default();
    assert_eq!(cfg.key, "KEY_SCROLLLOCK");
    assert_eq!(cfg.modifiers, vec![Modifier::Ctrl]);
    assert_eq!(cfg.mode, Mode::Toggle);
    assert_eq!(cfg.latency_msec, 20);
    assert_eq!(cfg.output, Output::Realtime);
    assert_eq!(cfg.max_record_secs, 600);
    assert_eq!(cfg.history_key, None);
    assert_eq!(cfg.history_modifiers, vec![]);
}

#[test]
fn hotkey_label_formats() {
    let cfg = Config {
        key: "KEY_M".into(),
        modifiers: vec![Modifier::Ctrl, Modifier::Super],
        ..Default::default()
    };
    assert_eq!(cfg.hotkey_label(), "Ctrl+Super+M");
}

#[test]
fn default_hotkey_label() {
    assert_eq!(Config::default().hotkey_label(), "Ctrl+SCROLLLOCK");
}

#[test]
fn history_hotkey_label_only_if_set() {
    let mut cfg = Config::default();
    assert_eq!(cfg.history_hotkey_label(), None);
    assert_eq!(cfg.history_hotkey(), None);
    cfg.history_key = Some("KEY_F10".into());
    cfg.history_modifiers = vec![Modifier::Shift, Modifier::Alt];
    assert_eq!(cfg.history_hotkey_label(), Some("Shift+Alt+F10".to_string()));
    assert_eq!(
        cfg.history_hotkey(),
        Some((vec![Modifier::Shift, Modifier::Alt], "KEY_F10".to_string()))
    );
}

#[test]
fn hotkeys_without_modifiers_or_prefix() {
    assert_eq!(format_hotkey(&[], "KEY_A"), "A");
    assert_eq!(format_hotkey(&[], "KEY_KEY_A"), "KEY_A");
    assert_eq!(format_hotkey(&[Modifier::Alt], "BTN_LEFT"), "Alt+BTN_LEFT");
    assert_eq!(format_hotkey(&[Modifier::Alt], "KEY"), "Alt+KEY");
    assert_eq!(format_hotkey(&[Modifier::Alt], "KEY_"), "Alt+");
    assert_eq!(format_hotkey(&[], ""), "");
}

#[test]
fn names() {
    assert_eq!(Mode::Toggle.name(), "toggle");
    assert_eq!(Mode::Hold.name(), "hold");
    let names: Vec<&str> = ALL_MODIFIERS.iter().map(|m| m.name()).collect();
    assert_eq!(names, vec!["Ctrl", "Shift", "Alt", "Super"]);
    assert_eq!(copy_modifiers(&ALL_MODIFIERS), ALL_MODIFIERS.to_vec());
}

#[test]
fn a_file_ends_in_a_line_end() {
    assert_eq!(file_text("{}".to_string()), "{}\n");
}

#[test]
fn config_path_by_environment() {
    assert_eq!(
        config_path(Some(b"/etc/xdg"), None),
        b"/etc/xdg/micloop/config.json".to_vec()
    );
    assert_eq!(
        config_path(None, Some(b"/home/me")),
        b"/home/me/.config/micloop/config.json".to_vec()
    );
    assert_eq!(config_path(Some(b""), Some(b"/home/me")), b"micloop/config.json".to_vec());
    assert_eq!(home_dir(Some(b"/home/me")), b"/home/me".to_vec());
}
