use micloop::config::{Config, Mode, Modifier, Output};
use micloop::settings::{
    font_file, font_path, hotkey_error, mode_label, output_label, CaptureNews, CaptureStep,
    SettingsApp,
};

fn app() -> SettingsApp {
    SettingsApp::new(Config::default())
}

#[test]
fn the_defaults_are_valid() {
    assert_eq!(app().validate(), None);
    assert!(app().click_save());
}

#[test]
fn hotkeys_need_modifiers_and_a_key() {
    assert_eq!(
        hotkey_error(&[], Some(30)),
        Some("修飾キーを含むホットキーを登録してください")
    );
    assert_eq!(
        hotkey_error(&[], None),
        Some("修飾キーを含むホットキーを登録してください")
    );
    assert_eq!(hotkey_error(&[Modifier::Alt], None), Some("ホットキーが未登録です"));
    assert_eq!(hotkey_error(&[Modifier::Alt], Some(0)), None);
}

#[test]
fn faulty_settings_are_not_saved() {
    let mut form = app();
    form.cfg.key = "KEY_BOGUS".to_string();
    assert!(!form.click_save());
    assert_eq!(form.error, Some("ホットキーが未登録です"));
    form.cfg.modifiers = vec![];
    assert!(!form.click_save());
    assert_eq!(form.error, Some("修飾キーを含むホットキーを登録してください"));
    form.cfg = Config::default();
    assert!(form.click_save());
    assert_eq!(form.error, None);
}

#[test]
fn recording_a_hotkey() {
    let mut form = app();
    assert_eq!(form.hotkey_button(), "Ctrl+SCROLLLOCK");
    assert_eq!(form.click_hotkey(), CaptureStep::Start);
    assert_eq!(form.hotkey_button(), "Recording... (Escで取り消し)");
    assert_eq!(form.poll_capture(CaptureNews::Waiting), CaptureStep::LookAgain);
    assert_eq!(
        form.poll_capture(CaptureNews::Combo(vec![], "KEY_A".to_string())),
        CaptureStep::Start
    );
    assert_eq!(form.error, Some("修飾キーを含めて押してください (例: Ctrl+A)"));
    assert!(form.recording);
    assert_eq!(
        form.poll_capture(CaptureNews::Combo(vec![Modifier::Alt], "KEY_A".to_string())),
        CaptureStep::Nothing
    );
    assert_eq!(form.error, None);
    assert!(!form.recording);
    assert_eq!(form.hotkey_button(), "Alt+A");
    assert!(form.click_save());
    assert_eq!(
        form.cfg,
        Config {
            key: "KEY_A".to_string(),
            modifiers: vec![Modifier::Alt],
            ..Default::default()
        }
    );
}

#[test]
fn recording_can_be_called_off() {
    let mut form = app();
    form.click_hotkey();
    assert_eq!(form.poll_capture(CaptureNews::Ended), CaptureStep::Nothing);
    assert_eq!(form, app());
    form.click_hotkey();
    assert_eq!(form.click_hotkey(), CaptureStep::Cancel);
    assert_eq!(form, app());
    assert_eq!(
        form.poll_capture(CaptureNews::Combo(vec![Modifier::Alt], "KEY_A".to_string())),
        CaptureStep::Nothing
    );
    assert_eq!(form, app());
}

#[test]
fn sliders_follow_the_output() {
    let mut form = app();
    assert!(form.latency_enabled());
    assert!(!form.record_time_enabled());
    form.cfg.output = Output::Delayed;
    assert!(!form.latency_enabled());
    assert!(form.record_time_enabled());
}

#[test]
fn descriptions() {
    assert_eq!(mode_label(Mode::Toggle), "押すたびON/OFF");
    assert_eq!(mode_label(Mode::Hold), "押している間だけON");
    assert_eq!(output_label(Output::Realtime), "リアルタイム再生");
    assert_eq!(output_label(Output::Delayed), "OFF時にまとめて再生");
}

#[test]
fn font_by_what_was_printed() {
    assert_eq!(font_path(true, b" /usr/share/f.ttf\n"), Some("/usr/share/f.ttf".to_string()));
    assert_eq!(font_path(true, b"\xff"), Some("\u{fffd}".to_string()));
    assert_eq!(font_path(true, b" \n"), None);
    assert_eq!(font_path(false, b"/usr/share/f.ttf"), None);
    assert_eq!(font_file(true, "f".to_string()), Some("f".to_string()));
    assert_eq!(font_file(true, String::new()), None);
    assert_eq!(font_file(false, "f".to_string()), None);
}
