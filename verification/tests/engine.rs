use micloop::config::{Config, Mode, Output};
use micloop::engine::{Engine, EngineAction};
use micloop::process::{Action, Reply};
use micloop::tray::MicloopTray;

fn engine(mode: Mode, output: Output) -> Engine {
    let cfg = Config {
        mode,
        output,
        ..Default::default()
    };
    Engine::new(cfg, b"x.wav".to_vec())
}

fn shows(status: &str, active: bool) -> EngineAction {
    EngineAction::Show(MicloopTray {
        status: status.to_string(),
        active,
    })
}

fn ran(success: bool, stdout: &str, stderr: &str) -> Reply {
    Reply::Ran {
        success,
        stdout: stdout.as_bytes().to_vec(),
        stderr: stderr.as_bytes().to_vec(),
    }
}

#[test]
fn the_tray_shows_on_and_off() {
    let mut engine = engine(Mode::Toggle, Output::Realtime);
    assert_eq!(engine.on_key(false), EngineAction::Idle);
    assert!(matches!(engine.on_key(true), EngineAction::Do(Action::Run(_))));
    assert_eq!(
        engine.resume(ran(true, "42\n", "")),
        shows("ON — Ctrl+SCROLLLOCK (toggle)", true)
    );
    assert_eq!(engine.on_key(false), EngineAction::Idle);
    assert!(matches!(engine.on_key(true), EngineAction::Do(Action::RunQuietly(_))));
    assert_eq!(
        engine.resume(Reply::Done),
        shows("OFF — Ctrl+SCROLLLOCK (toggle)", false)
    );
}

#[test]
fn the_tray_shows_off_where_switching_on_failed() {
    let mut engine = engine(Mode::Hold, Output::Realtime);
    assert!(matches!(engine.on_key(true), EngineAction::Do(Action::Run(_))));
    assert!(matches!(
        engine.resume(ran(false, "", "refused\n")),
        EngineAction::Do(Action::Report(_))
    ));
    assert_eq!(
        engine.resume(Reply::Done),
        shows("OFF — Ctrl+SCROLLLOCK (hold)", false)
    );
    assert_eq!(engine.on_key(false), shows("OFF — Ctrl+SCROLLLOCK (hold)", false));
}

#[test]
fn stopping_shows_nothing() {
    let mut engine = engine(Mode::Hold, Output::Delayed);
    assert_eq!(engine.on_key(true), EngineAction::Do(Action::FindTools));
    assert!(matches!(
        engine.resume(Reply::Tools {
            parecord: true,
            pw_record: false,
        }),
        EngineAction::Do(Action::Spawn(_))
    ));
    assert_eq!(engine.resume(Reply::Spawned(7)), shows("ON — Ctrl+SCROLLLOCK (hold)", true));
    assert_eq!(engine.stop(), EngineAction::Do(Action::TerminateAndReap(7)));
    assert_eq!(engine.resume(Reply::Done), EngineAction::Do(Action::FindTools));
    assert!(matches!(
        engine.resume(Reply::Tools {
            parecord: true,
            pw_record: false,
        }),
        EngineAction::Do(Action::Spawn(_))
    ));
    assert_eq!(engine.resume(Reply::Spawned(8)), EngineAction::Idle);
    assert_eq!(engine.close(), EngineAction::Do(Action::KillAndReap(8)));
    assert_eq!(
        engine.resume(Reply::Done),
        EngineAction::Do(Action::RemoveFile(b"x.wav".to_vec()))
    );
    assert_eq!(engine.resume(Reply::Done), EngineAction::Idle);
}

#[test]
fn the_longest_way_to_off() {
    let mut engine = engine(Mode::Hold, Output::Delayed);
    let tools = || Reply::Tools {
        parecord: true,
        pw_record: false,
    };
    engine.on_key(true);
    engine.resume(tools());
    engine.resume(Reply::Spawned(7));
    assert_eq!(engine.on_key(false), EngineAction::Do(Action::TerminateAndReap(7)));
    assert_eq!(engine.resume(Reply::Done), EngineAction::Do(Action::FindTools));
    assert!(matches!(engine.resume(tools()), EngineAction::Do(Action::Spawn(_))));
    assert!(matches!(
        engine.resume(Reply::Failed {
            not_found: false,
            message: "no sound".to_string(),
        }),
        EngineAction::Do(Action::Report(_))
    ));
    assert_eq!(
        engine.resume(Reply::Done),
        shows("OFF — Ctrl+SCROLLLOCK (hold)", false)
    );
}
