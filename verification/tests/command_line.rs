use micloop::config::{Config, Mode, Modifier, Output};
use micloop::desktop::{
    begin_desktop, desktop, desktop_entry, desktop_paths, DesktopAction, ICON_SVG,
};
use micloop::headless::{
    apply_overrides, run_headless, watch_banner, HeadlessAction, Overrides,
};

fn no_overrides() -> Overrides {
    Overrides {
        mode: None,
        key: None,
        modifiers: vec![],
        output: None,
    }
}

#[test]
fn nothing_set_changes_nothing() {
    assert_eq!(apply_overrides(Config::default(), no_overrides()), Config::default());
}

#[test]
fn the_command_line_comes_first() {
    let all = || Overrides {
        mode: Some(Mode::Hold),
        key: Some("KEY_F9".to_string()),
        modifiers: vec![Modifier::Super, Modifier::Alt],
        output: Some(Output::Delayed),
    };
    let cfg = apply_overrides(Config::default(), all());
    assert_eq!(
        cfg,
        Config {
            mode: Mode::Hold,
            key: "KEY_F9".to_string(),
            modifiers: vec![Modifier::Super, Modifier::Alt],
            output: Output::Delayed,
            ..Default::default()
        }
    );
    assert_eq!(apply_overrides(cfg.clone(), all()), cfg);
}

#[test]
fn the_banner_names_hotkey_and_mode() {
    assert_eq!(
        watch_banner(&Config::default()),
        "Ctrl+SCROLLLOCK を監視中 (toggle モード)"
    );
}

#[test]
fn a_run_in_the_foreground() {
    let overrides = Overrides {
        mode: Some(Mode::Hold),
        ..no_overrides()
    };
    let (cfg, mut run, action) = run_headless(Config::default(), overrides);
    assert_eq!(cfg.mode, Mode::Hold);
    assert_eq!(action, HeadlessAction::StartListener);
    assert_eq!(run.resume(None, false), HeadlessAction::Claim);
    assert_eq!(run.resume(None, false), HeadlessAction::CatchSignals);
    assert_eq!(
        run.resume(None, false),
        HeadlessAction::Tell("Ctrl+SCROLLLOCK を監視中 (hold モード)".to_string())
    );
    assert_eq!(run.resume(None, false), HeadlessAction::Sleep(300));
    assert_eq!(run.resume(None, false), HeadlessAction::Sleep(300));
    assert_eq!(run.resume(None, true), HeadlessAction::StopListener);
    assert_eq!(run.resume(None, true), HeadlessAction::StopLoopback);
    assert_eq!(run.resume(None, true), HeadlessAction::Release);
    assert_eq!(run.resume(None, true), HeadlessAction::Exit(0));
    assert_eq!(run.resume(None, true), HeadlessAction::Exit(0));
}

#[test]
fn a_run_without_a_hotkey() {
    let (_, mut run, _) = run_headless(Config::default(), no_overrides());
    assert_eq!(
        run.resume(Some("no device".to_string()), false),
        HeadlessAction::Report("no device".to_string())
    );
    assert_eq!(run.resume(None, false), HeadlessAction::Exit(1));
    assert_eq!(run.resume(None, false), HeadlessAction::Exit(1));
}

#[test]
fn desktop_paths_by_environment() {
    let paths = desktop_paths(None, Some(b"/home/me"));
    assert_eq!(paths.apps, b"/home/me/.local/share/applications".to_vec());
    assert_eq!(
        paths.entry,
        b"/home/me/.local/share/applications/micloop.desktop".to_vec()
    );
    assert_eq!(
        paths.icon,
        b"/home/me/.local/share/icons/hicolor/scalable/apps/micloop.svg".to_vec()
    );
    assert_eq!(
        paths.icons,
        b"/home/me/.local/share/icons/hicolor/scalable/apps".to_vec()
    );
    let paths = desktop_paths(Some(b"/data"), None);
    assert_eq!(paths.apps, b"/data/applications".to_vec());
}

fn write(dir: &str, path: &str, contents: String) -> DesktopAction {
    DesktopAction::Write {
        dir: dir.as_bytes().to_vec(),
        path: path.as_bytes().to_vec(),
        contents,
    }
}

fn write_icon() -> DesktopAction {
    write(
        "/d/icons/hicolor/scalable/apps",
        "/d/icons/hicolor/scalable/apps/micloop.svg",
        ICON_SVG.to_string(),
    )
}

fn write_entry() -> DesktopAction {
    write(
        "/d/applications",
        "/d/applications/micloop.desktop",
        desktop_entry("/bin/micloop"),
    )
}

#[test]
fn the_entry_is_installed() {
    let paths = desktop_paths(Some(b"/d"), None);
    let (mut install, action) = desktop(paths, b"/bin/micloop", false);
    assert_eq!(action, write_icon());
    assert_eq!(install.resume(None), write_entry());
    assert_eq!(
        install.resume(None),
        DesktopAction::UpdateDatabase(b"/d/applications".to_vec())
    );
    assert_eq!(
        install.resume(None),
        DesktopAction::Tell("生成しました: /d/applications/micloop.desktop".to_string())
    );
    assert_eq!(install.resume(None), DesktopAction::Exit(0));
    assert_eq!(install.resume(None), DesktopAction::Exit(0));
}

#[test]
fn the_program_path_is_read_as_text() {
    let paths = desktop_paths(Some(b"/d"), None);
    let (mut install, _) = desktop(paths, b"/bin\xff/\xe3\x81\x82", false);
    assert_eq!(
        install.resume(None),
        write(
            "/d/applications",
            "/d/applications/micloop.desktop",
            desktop_entry("/bin\u{fffd}/あ"),
        )
    );
}

#[test]
fn only_the_entry_has_to_be_written() {
    let paths = desktop_paths(Some(b"/d"), None);
    let (mut install, _) = desktop(paths, b"/bin/micloop", false);
    assert_eq!(
        install.resume(Some("full".to_string())),
        DesktopAction::Report("アイコンの生成に失敗: full".to_string())
    );
    assert_eq!(install.resume(None), write_entry());
    assert_eq!(
        install.resume(Some("full".to_string())),
        DesktopAction::Report(".desktop の生成に失敗: full".to_string())
    );
    assert_eq!(install.resume(None), DesktopAction::Exit(1));
}

#[test]
fn the_entry_is_removed() {
    let paths = desktop_paths(Some(b"/d\xff"), None);
    let (mut remove, action) = desktop(paths, b"", true);
    assert_eq!(
        action,
        DesktopAction::Remove(b"/d\xff/applications/micloop.desktop".to_vec())
    );
    assert_eq!(
        remove.resume(None),
        DesktopAction::Remove(b"/d\xff/icons/hicolor/scalable/apps/micloop.svg".to_vec())
    );
    assert_eq!(
        remove.resume(None),
        DesktopAction::Tell("削除しました: /d\u{fffd}/applications/micloop.desktop".to_string())
    );
    assert_eq!(remove.resume(None), DesktopAction::Exit(0));
}

#[test]
fn the_path_is_shown_as_given() {
    let paths = desktop_paths(Some(b"/d"), None);
    let (mut remove, _) = begin_desktop(paths, String::new(), "there".to_string(), true);
    remove.resume(None);
    assert_eq!(
        remove.resume(None),
        DesktopAction::Tell("削除しました: there".to_string())
    );
}

#[test]
fn the_desktop_entry() {
    assert_eq!(
        desktop_entry("/usr/bin/micloop"),
        "[Desktop Entry]\n\
         Type=Application\n\
         Name=Micloop\n\
         Comment=マイクループバック (ホットキー制御)\n\
         Exec=/usr/bin/micloop\n\
         Icon=micloop\n\
         Terminal=false\n\
         Categories=AudioVideo;Audio;\n\
         Keywords=micloop;loopback;mic;\n"
    );
}
