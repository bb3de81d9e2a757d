use micloop::config::{Config, Mode, Output};
use micloop::loopback::{player_command, transition, wav_path, Loopback};
use micloop::process::{record_tools, Action, Command, Reply};

fn command(program: &str, args: &[&str]) -> Command {
    Command {
        program: program.to_string(),
        args: args.iter().map(|a| a.as_bytes().to_vec()).collect(),
    }
}

fn realtime() -> Loopback {
    Loopback::new(&Config::default(), b"/run/micloop.wav".to_vec())
}

fn delayed() -> Loopback {
    let cfg = Config {
        output: Output::Delayed,
        ..Default::default()
    };
    Loopback::new(&cfg, b"/run/micloop.wav".to_vec())
}

fn ran(success: bool, stdout: &[u8], stderr: &[u8]) -> Reply {
    Reply::Ran {
        success,
        stdout: stdout.to_vec(),
        stderr: stderr.to_vec(),
    }
}

fn failed(not_found: bool) -> Reply {
    Reply::Failed {
        not_found,
        message: "permission denied".to_string(),
    }
}

fn tools(parecord: bool, pw_record: bool) -> Reply {
    Reply::Tools { parecord, pw_record }
}

#[test]
fn hold_follows_key_state() {
    assert_eq!(transition(Mode::Hold, true, false), Some(true));
    assert_eq!(transition(Mode::Hold, false, true), Some(false));
}

#[test]
fn toggle_flips_on_press_only() {
    assert_eq!(transition(Mode::Toggle, true, false), Some(true));
    assert_eq!(transition(Mode::Toggle, false, true), None);
    assert_eq!(transition(Mode::Toggle, true, true), Some(false));
}

#[test]
fn hold_does_not_ask_what_was() {
    assert_eq!(transition(Mode::Hold, true, true), Some(true));
    assert_eq!(transition(Mode::Hold, false, false), Some(false));
    assert_eq!(transition(Mode::Toggle, false, false), None);
}

#[test]
fn pactl_loads_and_unloads_its_module() {
    let mut lb = realtime();
    assert!(!lb.active());
    assert_eq!(
        lb.start(),
        Action::Run(command("pactl", &["load-module", "module-loopback", "latency_msec=20"]))
    );
    assert!(!lb.active());
    assert_eq!(lb.resume(ran(true, b"536870916\n", b"")), Action::Done);
    assert!(lb.active());
    assert_eq!(lb.start(), Action::Done);
    assert_eq!(
        lb.stop(),
        Action::RunQuietly(command("pactl", &["unload-module", "536870916"]))
    );
    assert!(!lb.active());
    assert_eq!(lb.resume(Reply::Done), Action::Done);
    assert_eq!(lb.stop(), Action::Done);
}

#[test]
fn what_pactl_prints_need_not_be_valid_text() {
    let mut lb = realtime();
    lb.start();
    assert_eq!(
        lb.resume(ran(false, b"", b" caf\xc3\xa9 \xff\n")),
        Action::Report("pactl の実行に失敗: café \u{fffd}".to_string())
    );
    assert!(!lb.active());
    assert_eq!(lb.resume(Reply::Done), Action::Done);
}

#[test]
fn pactl_ran_takes_text() {
    let mut lb = realtime();
    lb.start();
    assert_eq!(lb.pactl_ran(true, "7".to_string(), String::new()), Action::Done);
    assert!(lb.active());
    assert_eq!(lb.stop(), Action::RunQuietly(command("pactl", &["unload-module", "7"])));

    let mut lb = realtime();
    lb.start();
    assert_eq!(
        lb.pactl_ran(false, String::new(), "refused".to_string()),
        Action::Report("pactl の実行に失敗: refused".to_string())
    );
    assert!(!lb.active());
}

#[test]
fn pactl_that_cannot_be_run_is_told_of() {
    let mut lb = realtime();
    lb.start();
    assert_eq!(
        lb.resume(failed(false)),
        Action::Report("pactl の実行に失敗: permission denied".to_string())
    );
    assert_eq!(lb.resume(Reply::Done), Action::Done);
    assert!(!lb.active());
}

#[test]
fn pw_loopback_without_pactl() {
    let mut lb = realtime();
    lb.start();
    assert_eq!(
        lb.resume(failed(true)),
        Action::Spawn(command("pw-loopback", &["-n", "micloop", "-l", "20"]))
    );
    assert_eq!(lb.resume(Reply::Spawned(41)), Action::Done);
    assert!(lb.active());
    assert_eq!(lb.set_active(false), Action::KillAndReap(41));
    assert_eq!(lb.resume(Reply::Done), Action::Done);
    assert!(!lb.active());
}

#[test]
fn no_backend_at_all() {
    let mut lb = realtime();
    lb.start();
    lb.resume(failed(true));
    assert_eq!(
        lb.resume(failed(true)),
        Action::Report(
            "pactl も pw-loopback も見つかりません。pulseaudio-utils か pipewire を導入してください"
                .to_string()
        )
    );
    assert_eq!(lb.resume(Reply::Done), Action::Done);

    let mut lb = realtime();
    lb.start();
    lb.resume(failed(true));
    assert_eq!(
        lb.resume(failed(false)),
        Action::Report("pw-loopback の起動に失敗: permission denied".to_string())
    );
}

#[test]
fn delayed_output_records_and_plays() {
    let mut lb = delayed();
    assert_eq!(lb.set_active(true), Action::FindTools);
    assert_eq!(
        lb.resume(tools(true, true)),
        Action::Spawn(command("timeout", &["600", "parecord", "/run/micloop.wav"]))
    );
    assert_eq!(lb.resume(Reply::Spawned(7)), Action::Done);
    assert!(lb.active());
    assert_eq!(lb.set_active(false), Action::TerminateAndReap(7));
    assert!(!lb.active());
    assert_eq!(lb.resume(Reply::Done), Action::FindTools);
    assert_eq!(
        lb.resume(tools(true, true)),
        Action::Spawn(command("paplay", &["/run/micloop.wav"]))
    );
    assert_eq!(lb.resume(Reply::Spawned(8)), Action::Done);
    // Switched on again, the playback is cut off first.
    assert_eq!(lb.set_active(true), Action::KillAndReap(8));
    assert_eq!(lb.resume(Reply::Done), Action::FindTools);
    assert_eq!(
        lb.resume(tools(false, true)),
        Action::Spawn(command("timeout", &["600", "pw-record", "/run/micloop.wav"]))
    );
}

#[test]
fn recording_failures_are_told_of() {
    let missing =
        "parecord も pw-record も見つかりません。pulseaudio-utils か pipewire を導入してください";
    let mut lb = delayed();
    lb.start();
    assert_eq!(lb.resume(tools(false, false)), Action::Report(missing.to_string()));
    assert_eq!(lb.resume(Reply::Done), Action::Done);
    lb.start();
    lb.resume(tools(true, false));
    assert_eq!(lb.resume(failed(true)), Action::Report(missing.to_string()));
    assert_eq!(lb.resume(Reply::Done), Action::Done);
    lb.start();
    lb.resume(tools(true, false));
    assert_eq!(
        lb.resume(failed(false)),
        Action::Report("録音の開始に失敗: permission denied".to_string())
    );
    assert!(!lb.active());
}

#[test]
fn playback_failures_do_not_matter_to_the_next_start() {
    let mut lb = delayed();
    lb.start();
    lb.resume(tools(true, false));
    lb.resume(Reply::Spawned(7));
    lb.stop();
    lb.resume(Reply::Done);
    assert_eq!(lb.resume(tools(false, false)), Action::Done);

    lb.start();
    lb.resume(tools(true, false));
    lb.resume(Reply::Spawned(9));
    lb.stop();
    lb.resume(Reply::Done);
    lb.resume(tools(true, false));
    assert_eq!(
        lb.resume(failed(true)),
        Action::Report("再生の開始に失敗: permission denied".to_string())
    );
    assert_eq!(lb.resume(Reply::Done), Action::Done);
    assert_eq!(lb.start(), Action::FindTools);
}

#[test]
fn closing_leaves_nothing_behind() {
    let mut lb = delayed();
    lb.start();
    lb.resume(tools(true, false));
    lb.resume(Reply::Spawned(7));
    assert_eq!(lb.close(), Action::TerminateAndReap(7));
    assert_eq!(lb.resume(Reply::Done), Action::FindTools);
    lb.resume(tools(true, false));
    assert_eq!(lb.resume(Reply::Spawned(8)), Action::KillAndReap(8));
    assert_eq!(
        lb.resume(Reply::Done),
        Action::RemoveFile(b"/run/micloop.wav".to_vec())
    );
    assert_eq!(lb.resume(Reply::Done), Action::Done);
    assert!(!lb.active());
}

#[test]
fn closing_when_off_removes_the_recording() {
    let mut lb = realtime();
    assert_eq!(lb.close(), Action::RemoveFile(b"/run/micloop.wav".to_vec()));
    assert_eq!(lb.resume(Reply::Done), Action::Done);
}

#[test]
fn answers_that_nobody_asked_for_change_nothing() {
    let mut lb = realtime();
    assert_eq!(lb.resume(Reply::Spawned(5)), Action::Done);
    assert_eq!(lb.resume(ran(true, b"5", b"")), Action::Done);
    assert!(!lb.active());
    lb.start();
    assert_eq!(lb.resume(Reply::Spawned(5)), Action::Done);
    assert!(!lb.active());
    assert_eq!(lb.stop(), Action::Done);
    assert_eq!(lb.resume(ran(true, b"5", b"")), Action::Done);
    assert!(lb.active());
}

#[test]
fn the_hotkey_drives_the_loopback() {
    let mut lb = realtime();
    assert_eq!(lb.on_key(Mode::Toggle, false), None);
    assert!(matches!(lb.on_key(Mode::Toggle, true), Some(Action::Run(_))));
    lb.resume(ran(true, b"5", b""));
    assert!(lb.active());
    assert_eq!(lb.on_key(Mode::Toggle, false), None);
    assert!(matches!(lb.on_key(Mode::Toggle, true), Some(Action::RunQuietly(_))));
    lb.resume(Reply::Done);
    assert!(!lb.active());
    assert_eq!(lb.on_key(Mode::Hold, false), Some(Action::Done));
    assert!(matches!(lb.on_key(Mode::Hold, true), Some(Action::Run(_))));
}

#[test]
fn recordings_are_always_limited() {
    for (max_record_secs, limit) in [(0, "1"), (1, "1"), (4294967295, "4294967295")] {
        let cfg = Config {
            output: Output::Delayed,
            max_record_secs,
            ..Default::default()
        };
        let mut lb = Loopback::new(&cfg, b"x.wav".to_vec());
        lb.start();
        assert_eq!(
            lb.resume(tools(true, false)),
            Action::Spawn(command("timeout", &[limit, "parecord", "x.wav"]))
        );
    }
}

#[test]
fn settings_go_into_the_commands() {
    let cfg = Config {
        output: Output::Delayed,
        max_record_secs: 30,
        ..Default::default()
    };
    let mut lb = Loopback::new(&cfg, b"x.wav".to_vec());
    lb.start();
    assert_eq!(
        lb.resume(tools(true, false)),
        Action::Spawn(command("timeout", &["30", "parecord", "x.wav"]))
    );
    let cfg = Config {
        latency_msec: 4294967295,
        ..Default::default()
    };
    let mut lb = Loopback::new(&cfg, vec![]);
    assert_eq!(
        lb.start(),
        Action::Run(command(
            "pactl",
            &["load-module", "module-loopback", "latency_msec=4294967295"]
        ))
    );
}

#[test]
fn recorders_and_their_players() {
    assert_eq!(record_tools(true, true), Some(("parecord", "paplay")));
    assert_eq!(record_tools(true, false), Some(("parecord", "paplay")));
    assert_eq!(record_tools(false, true), Some(("pw-record", "pw-play")));
    assert_eq!(record_tools(false, false), None);
    assert_eq!(player_command("pw-play", b"a.wav"), command("pw-play", &["a.wav"]));
}

#[test]
fn wav_path_by_environment() {
    assert_eq!(
        wav_path(Some(b"/run/user/1000"), b"/tmp"),
        b"/run/user/1000/micloop.wav".to_vec()
    );
    assert_eq!(wav_path(None, b"/tmp"), b"/tmp/micloop.wav".to_vec());
}
