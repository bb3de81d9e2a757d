use micloop::instance::{
    claim, parse_pid, pid_text, pidfile, stop_running, StopAction, PROBE_PAUSE_MSEC,
};

fn finish(remove_pidfile: bool, message: Option<&str>) -> StopAction {
    StopAction::Finish {
        remove_pidfile,
        message: message.map(String::from),
        write: None,
    }
}

fn claimed(remove_pidfile: bool, pid: &str) -> StopAction {
    StopAction::Finish {
        remove_pidfile,
        message: None,
        write: Some(pid.to_string()),
    }
}

#[test]
fn pidfile_by_environment() {
    assert_eq!(pidfile(Some(b"/run/user/1000/"), b"/tmp"), b"/run/user/1000/micloop.pid".to_vec());
    assert_eq!(pidfile(None, b"/tmp"), b"/tmp/micloop.pid".to_vec());
}

#[test]
fn pids_read_back() {
    for pid in [0, 1, 9, 10, 4194304, 2147483647] {
        assert_eq!(pid_text(pid), pid.to_string());
        assert_eq!(parse_pid(&pid_text(pid)), Some(pid as i32));
    }
}

#[test]
fn pids_are_read_like_numbers() {
    for text in [
        "12", " 12\n", "+12", "-12", "\t-0 ", "", "-", "+", "+-1", "1 2", "12a", "x", "１２",
        "\u{3000}7\u{a0}", "2147483647", "2147483648", "-2147483648", "-2147483649",
        "00000000000000000001", "99999999999999999999", "99999999999999999999x",
    ] {
        assert_eq!(parse_pid(text), text.trim().parse::<i32>().ok(), "{text:?}");
    }
}

#[test]
fn nothing_runs_without_a_pidfile() {
    let (_, action) = stop_running(true, None);
    assert_eq!(action, finish(false, Some("micloop は稼働していません")));
    let (_, action) = stop_running(true, Some("garbage"));
    assert_eq!(action, finish(false, Some("micloop は稼働していません")));
    let (_, action) = claim(4711, None);
    assert_eq!(action, claimed(false, "4711"));
}

#[test]
fn stale_pidfiles_are_removed() {
    let (mut stop, action) = stop_running(true, Some("99\n"));
    assert_eq!(action, StopAction::Terminate(99));
    assert_eq!(
        stop.resume(false),
        finish(true, Some("micloop は稼働していません (残っていたpidfileを削除)"))
    );
    let (mut quiet, _) = claim(4711, Some("99\n"));
    assert_eq!(quiet.resume(false), claimed(true, "4711"));
    assert_eq!(quiet.resume(true), finish(false, None));
}

#[test]
fn the_end_is_waited_for() {
    let (mut stop, _) = stop_running(true, Some("99"));
    assert_eq!(stop.resume(true), StopAction::Probe(99));
    assert_eq!(stop.resume(true), StopAction::Pause(100));
    assert_eq!(stop.resume(true), StopAction::Probe(99));
    assert_eq!(
        stop.resume(false),
        finish(false, Some("micloop (pid 99) を停止しました"))
    );
}

#[test]
fn a_slow_instance_is_waited_for() {
    let (mut stop, _) = stop_running(true, Some("99"));
    assert_eq!(stop.resume(true), StopAction::Probe(99));
    for _ in 0..1000 {
        assert_eq!(stop.resume(true), StopAction::Pause(PROBE_PAUSE_MSEC));
        assert_eq!(stop.resume(true), StopAction::Probe(99));
    }
    assert_eq!(
        stop.resume(false),
        finish(false, Some("micloop (pid 99) を停止しました"))
    );
    assert_eq!(stop.resume(true), finish(false, None));
}

#[test]
fn the_place_is_taken_when_it_is_free() {
    let (mut stop, action) = claim(4711, Some("99"));
    assert_eq!(action, StopAction::Terminate(99));
    assert_eq!(stop.resume(true), StopAction::Probe(99));
    assert_eq!(stop.resume(true), StopAction::Pause(PROBE_PAUSE_MSEC));
    assert_eq!(stop.resume(true), StopAction::Probe(99));
    assert_eq!(stop.resume(false), claimed(false, "4711"));
}
