use micloop::history::{
    epoch_secs, newest_first, row_label, time_label, HistoryApp, LocalTime, Recording,
};
use micloop::process::{Action, Command, Reply};

fn spawn(program: &str, path: &str) -> Action {
    Action::Spawn(Command {
        program: program.to_string(),
        args: vec![path.as_bytes().to_vec()],
    })
}

fn recording(epoch_ms: u64, path: &str) -> Recording {
    Recording {
        epoch_ms,
        path: path.as_bytes().to_vec(),
    }
}

#[test]
fn time_label_formats() {
    assert_eq!(epoch_secs(1_755_300_000_000), 1_755_300_000);
    // That moment, in UTC.
    let label = time_label(&LocalTime {
        month: 7,
        day: 15,
        hour: 23,
        minute: 20,
        second: 0,
    });
    assert_eq!(label.len(), "MM/DD HH:MM:SS".len());
    assert_eq!(&label[2..3], "/");
    assert_eq!(&label[5..6], " ");
    assert_eq!(label, "08/15 23:20:00");
}

#[test]
fn times_are_filled_up_with_zeros() {
    let label = time_label(&LocalTime {
        month: 0,
        day: 1,
        hour: 2,
        minute: 3,
        second: 60,
    });
    assert_eq!(label, "01/01 02:03:60");
}

#[test]
fn milliseconds_are_cut_off() {
    assert_eq!(epoch_secs(999), 0);
    assert_eq!(epoch_secs(1999), 1);
    assert_eq!(epoch_secs(u64::MAX), 18446744073709551);
}

#[test]
fn rows_show_the_length_if_known() {
    assert_eq!(row_label("08/15 23:20:00", Some(12)), "08/15 23:20:00　12秒");
    assert_eq!(row_label("08/15 23:20:00", None), "08/15 23:20:00　?");
}

#[test]
fn recordings_stand_newest_first() {
    let list = newest_first(vec![
        recording(5, "a"),
        recording(9, "b"),
        recording(1, "c"),
        recording(5, "d"),
    ]);
    let paths: Vec<&[u8]> = list.iter().map(|r| r.path.as_slice()).collect();
    assert_eq!(paths, vec![b"b", b"a", b"d", b"c"]);
    assert_eq!(newest_first(vec![]), vec![]);
}

#[test]
fn ordered_recordings_stay() {
    let list = || vec![recording(9, "b"), recording(5, "a"), recording(5, "d")];
    assert_eq!(newest_first(list()), list());
}

#[test]
fn one_recording_plays_at_a_time() {
    let mut app = HistoryApp::default();
    assert_eq!(app.play(b"a.wav"), Action::FindTools);
    assert_eq!(
        app.resume(Reply::Tools { parecord: true, pw_record: true }),
        spawn("paplay", "a.wav")
    );
    assert_eq!(app.resume(Reply::Spawned(3)), Action::Done);
    assert_eq!(app.play(b"b.wav"), Action::KillAndReap(3));
    assert_eq!(app.resume(Reply::Done), Action::FindTools);
    assert_eq!(
        app.resume(Reply::Tools { parecord: false, pw_record: true }),
        spawn("pw-play", "b.wav")
    );
    assert_eq!(app.resume(Reply::Spawned(4)), Action::Done);
    assert_eq!(app.close(), Action::KillAndReap(4));
    assert_eq!(app.resume(Reply::Done), Action::Done);
    assert_eq!(app.close(), Action::Done);
}

#[test]
fn play_failures_are_told_of() {
    let mut app = HistoryApp::default();
    app.play(b"a.wav");
    assert_eq!(
        app.resume(Reply::Tools { parecord: false, pw_record: false }),
        Action::Report("paplay も pw-play も見つかりません".to_string())
    );
    assert_eq!(app.resume(Reply::Done), Action::Done);
    app.play(b"a.wav");
    app.resume(Reply::Tools { parecord: true, pw_record: false });
    assert_eq!(
        app.resume(Reply::Failed { not_found: false, message: "no".to_string() }),
        Action::Report("再生の開始に失敗: no".to_string())
    );
    assert_eq!(app.resume(Reply::Done), Action::Done);
    assert_eq!(app.close(), Action::Done);
}
