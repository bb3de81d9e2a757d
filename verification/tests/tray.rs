use micloop::config::{Config, Mode};
use micloop::tray::{
    engine_status, history_key_event, status_base, MenuEntry, MicloopTray, Tray, TrayAction,
    TrayEvent,
};

#[test]
fn the_tray_shows_its_status() {
    let mut tray = MicloopTray::new();
    assert_eq!(tray.id(), "micloop");
    assert_eq!(tray.title(), "micloop");
    assert_eq!(tray.tool_tip(), "micloop: 起動中...");
    assert_eq!(tray.icon_name(), "microphone-sensitivity-muted");
    tray.set_status(true, "ON".to_string());
    assert_eq!(tray.icon_name(), "microphone-sensitivity-high");
    assert_eq!(
        tray.menu(),
        vec![
            MenuEntry::Status("ON".to_string()),
            MenuEntry::Separator,
            MenuEntry::History("録音履歴..."),
            MenuEntry::Settings("設定..."),
            MenuEntry::Quit("終了"),
        ]
    );
}

#[test]
fn menu_entries_send_their_events() {
    let menu = MicloopTray::new().menu();
    let events: Vec<Option<TrayEvent>> = menu.iter().map(|entry| entry.event()).collect();
    assert_eq!(
        events,
        vec![
            None,
            None,
            Some(TrayEvent::OpenHistory),
            Some(TrayEvent::OpenSettings),
            Some(TrayEvent::Quit),
        ]
    );
}

#[test]
fn the_tray_follows_the_hotkey() {
    let mut tray = MicloopTray::new();
    tray.hotkey_handled(true, &Config::default());
    assert!(tray.active);
    assert_eq!(tray.status, "ON — Ctrl+SCROLLLOCK (toggle)");
    tray.hotkey_handled(false, &Config::default());
    assert!(!tray.active);
    assert_eq!(tray.status, "OFF — Ctrl+SCROLLLOCK (toggle)");
}

#[test]
fn status_names_hotkey_and_mode() {
    let cfg = Config {
        mode: Mode::Hold,
        ..Default::default()
    };
    let base = status_base(&cfg);
    assert_eq!(base, "Ctrl+SCROLLLOCK (hold)");
    assert_eq!(engine_status(true, &base), "ON — Ctrl+SCROLLLOCK (hold)");
    assert_eq!(engine_status(false, &base), "OFF — Ctrl+SCROLLLOCK (hold)");
}

#[test]
fn settings_pause_the_hotkey() {
    let cfg = Config::default();
    let mut tray = Tray::new();
    assert_eq!(tray.engine_started(&cfg, Ok(())), TrayAction::Wait);
    assert!(tray.engine);
    assert_eq!(tray.shown.status, "OFF — Ctrl+SCROLLLOCK (toggle)");
    assert_eq!(
        tray.handle(TrayEvent::OpenSettings),
        TrayAction::OpenSettings { stop_engine: true }
    );
    assert!(!tray.engine);
    assert_eq!(tray.shown.status, "設定中 (ホットキー停止)");
    assert_eq!(tray.handle(TrayEvent::SettingsClosed), TrayAction::StartEngine);
    assert_eq!(
        tray.engine_started(&cfg, Err("no device".to_string())),
        TrayAction::Wait
    );
    assert!(!tray.engine);
    assert_eq!(tray.shown.status, "停止中: no device");
    assert_eq!(
        tray.handle(TrayEvent::OpenSettings),
        TrayAction::OpenSettings { stop_engine: false }
    );
    assert_eq!(tray.handle(TrayEvent::SettingsClosed), TrayAction::StartEngine);
    assert_eq!(tray.engine_started(&cfg, Ok(())), TrayAction::Wait);
    assert!(tray.engine);
}

#[test]
fn the_last_settings_window_brings_the_hotkey_back() {
    let cfg = Config::default();
    let mut tray = Tray::new();
    tray.engine_started(&cfg, Ok(()));
    assert_eq!(
        tray.handle(TrayEvent::OpenSettings),
        TrayAction::OpenSettings { stop_engine: true }
    );
    assert_eq!(
        tray.handle(TrayEvent::OpenSettings),
        TrayAction::OpenSettings { stop_engine: false }
    );
    assert_eq!(tray.windows, 2);
    assert_eq!(tray.handle(TrayEvent::SettingsClosed), TrayAction::Wait);
    assert!(!tray.engine);
    assert_eq!(tray.shown.status, "設定中 (ホットキー停止)");
    assert_eq!(tray.handle(TrayEvent::SettingsClosed), TrayAction::StartEngine);
    assert_eq!(tray.engine_started(&cfg, Ok(())), TrayAction::Wait);
    assert!(tray.engine);
    assert_eq!(tray.handle(TrayEvent::SettingsClosed), TrayAction::Wait);
    assert!(tray.engine);
}

#[test]
fn a_second_engine_is_not_kept() {
    let cfg = Config::default();
    let mut tray = Tray::new();
    tray.engine_started(&cfg, Ok(()));
    assert_eq!(tray.engine_started(&cfg, Ok(())), TrayAction::DiscardEngine);
    assert!(tray.engine);
    tray.handle(TrayEvent::OpenSettings);
    assert_eq!(tray.engine_started(&cfg, Ok(())), TrayAction::DiscardEngine);
    assert!(!tray.engine);
    assert_eq!(tray.shown.status, "設定中 (ホットキー停止)");
}

#[test]
fn windows_are_counted_up_to_a_limit() {
    let mut tray = Tray::new();
    tray.windows = u32::MAX;
    assert_eq!(tray.handle(TrayEvent::OpenSettings), TrayAction::Wait);
    assert_eq!(tray.windows, u32::MAX);
}

#[test]
fn the_recordings_are_opened_from_menu_and_hotkey() {
    let mut tray = Tray::new();
    tray.engine_started(&Config::default(), Ok(()));
    assert_eq!(history_key_event(true), Some(TrayEvent::OpenHistory));
    assert_eq!(history_key_event(false), None);
    assert_eq!(tray.handle(TrayEvent::OpenHistory), TrayAction::OpenHistory);
    assert!(tray.engine);
    assert_eq!(tray.shown.status, "OFF — Ctrl+SCROLLLOCK (toggle)");
}

#[test]
fn the_end_of_the_tray() {
    let mut tray = Tray::new();
    assert_eq!(tray.handle(TrayEvent::Tick { terminated: false }), TrayAction::Wait);
    assert_eq!(
        tray.handle(TrayEvent::Tick { terminated: true }),
        TrayAction::Exit { stop_engine: false }
    );
    tray.engine_started(&Config::default(), Ok(()));
    assert_eq!(tray.handle(TrayEvent::Quit), TrayAction::Exit { stop_engine: true });
    assert!(!tray.engine);
    assert_eq!(
        tray.handle(TrayEvent::Disconnected),
        TrayAction::Exit { stop_engine: false }
    );
}
