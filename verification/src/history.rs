//! The recordings, newest first, to be played at a click.

use vstd::prelude::*;
use vstd::string::*;

use crate::loopback::player_command;
use crate::path;
use crate::process::{record_tools, Action, Answer, Reply, Step};
use crate::text;

verus! {

// ---------------------------------------------------------------------------
// On display
// ---------------------------------------------------------------------------

/// A moment in the local time zone: the fields of the C library's `tm`, of which the
/// month counts from 0.
#[derive(Clone, Copy, Debug, PartialEq, Eq, Structural)]
pub struct LocalTime {
    pub month: i32,
    pub day: i32,
    pub hour: i32,
    pub minute: i32,
    pub second: i32,
}

/// The whole seconds in so many milliseconds.
pub fn epoch_secs(epoch_ms: u64) -> (secs: i64)
    ensures
        secs == epoch_ms / 1000,
{
    (epoch_ms / 1000) as i64
}

/// A moment as `MM/DD HH:MM:SS`.
pub open spec fn time_text(t: LocalTime) -> Seq<char> {
    text::two_digits(t.month + 1) + "/"@ + text::two_digits(t.day as int) + " "@
        + text::two_digits(t.hour as int) + ":"@ + text::two_digits(t.minute as int) + ":"@
        + text::two_digits(t.second as int)
}

/// Shows a moment as `MM/DD HH:MM:SS`.
pub fn time_label(t: &LocalTime) -> (label: String)
    requires
        t.month < i32::MAX,
    ensures
        label@ == time_text(*t),
{
    text::two_digits_text(t.month + 1).concat("/").concat(
        text::two_digits_text(t.day).as_str(),
    ).concat(" ").concat(text::two_digits_text(t.hour).as_str()).concat(":").concat(
        text::two_digits_text(t.minute).as_str(),
    ).concat(":").concat(text::two_digits_text(t.second).as_str())
}

/// A number below a hundred takes up two digits.
proof fn lemma_two_digits(n: int)
    requires
        0 <= n < 100,
    ensures
        text::two_digits(n) == seq![
            text::digit_char((n / 10) as nat),
            text::digit_char((n % 10) as nat),
        ],
{
    if n >= 10 {
        reveal_with_fuel(text::decimal, 2);
        assert(text::decimal(n as nat / 10) == seq![text::digit_char((n / 10) as nat)]);
    } else {
        assert(text::digit_char(0) == '0');
    }
}

/// A moment always takes up the same 14 characters, with the marks in the same places.
pub proof fn law_time_has_fixed_width(t: LocalTime)
    requires
        0 <= t.month < 12,
        1 <= t.day <= 31,
        0 <= t.hour < 24,
        0 <= t.minute < 60,
        0 <= t.second <= 60,
    ensures
        time_text(t).len() == 14,
        time_text(t)[2] == '/',
        time_text(t)[5] == ' ',
        time_text(t)[8] == ':',
        time_text(t)[11] == ':',
{
    lemma_two_digits(t.month + 1);
    lemma_two_digits(t.day as int);
    lemma_two_digits(t.hour as int);
    lemma_two_digits(t.minute as int);
    lemma_two_digits(t.second as int);
    reveal_strlit("/");
    reveal_strlit(" ");
    reveal_strlit(":");
}

/// How long a recording is, or `?` where that is not known.
pub open spec fn length_text(secs: Option<u64>) -> Seq<char> {
    match secs {
        Some(secs) => text::decimal(secs as nat) + "秒"@,
        None => "?"@,
    }
}

pub open spec fn row_text(time: Seq<char>, secs: Option<u64>) -> Seq<char> {
    time + "　"@ + length_text(secs)
}

/// One line of the list: when the recording was made and how long it is.
pub fn row_label(time: &str, secs: Option<u64>) -> (label: String)
    ensures
        label@ == row_text(time@, secs),
        label@ == time@ + "　"@ + length_text(secs),
{
    let length = match secs {
        Some(secs) => text::decimal_text(secs).concat("秒"),
        None => "?".to_string(),
    };
    time.to_string().concat("　").concat(length.as_str())
}

// ---------------------------------------------------------------------------
// The list
// ---------------------------------------------------------------------------

/// A recording: when it was made, in milliseconds, and where it is.
#[derive(Debug, PartialEq)]
pub struct Recording {
    pub epoch_ms: u64,
    pub path: Vec<u8>,
}

/// The place of a recording among others that stand newest first: behind those that are
/// as new as it is.
pub open spec fn place(list: Seq<Recording>, epoch_ms: u64) -> nat
    decreases list.len(),
{
    if list.len() == 0 || list.last().epoch_ms >= epoch_ms {
        list.len()
    } else {
        place(list.drop_last(), epoch_ms)
    }
}

/// The recordings, newest first; of those made at the same moment each keeps its place.
pub open spec fn by_age(list: Seq<Recording>) -> Seq<Recording>
    decreases list.len(),
{
    if list.len() == 0 {
        Seq::empty()
    } else {
        let rest = by_age(list.drop_last());
        rest.insert(place(rest, list.last().epoch_ms) as int, list.last())
    }
}

pub open spec fn is_newest_first(list: Seq<Recording>) -> bool {
    forall|i: int, j: int|
        0 <= i <= j < list.len() ==> (#[trigger] list[i]).epoch_ms >= (#[trigger] list[j]).epoch_ms
}

proof fn lemma_place(list: Seq<Recording>, epoch_ms: u64)
    ensures
        place(list, epoch_ms) <= list.len(),
        place(list, epoch_ms) > 0 ==> list[place(list, epoch_ms) - 1].epoch_ms >= epoch_ms,
        forall|i: int|
            place(list, epoch_ms) <= i < list.len() ==> (#[trigger] list[i]).epoch_ms < epoch_ms,
    decreases list.len(),
{
    if list.len() > 0 && list.last().epoch_ms < epoch_ms {
        lemma_place(list.drop_last(), epoch_ms);
        assert forall|i: int| place(list, epoch_ms) <= i < list.len() implies (
        #[trigger] list[i]).epoch_ms < epoch_ms by {
            if i < list.len() - 1 {
                assert(list.drop_last()[i] == list[i]);
            }
        }
    }
}

/// Ordering the recordings puts them newest first and neither loses nor adds any.
pub proof fn law_ordering_is_complete(list: Seq<Recording>)
    ensures
        is_newest_first(by_age(list)),
        by_age(list).to_multiset() == list.to_multiset(),
        by_age(list).len() == list.len(),
    decreases list.len(),
{
    if list.len() == 0 {
        assert(by_age(list) =~= list);
    } else {
        let front = list.drop_last();
        let rest = by_age(front);
        law_ordering_is_complete(front);
        lemma_place(rest, list.last().epoch_ms);
        let at = place(rest, list.last().epoch_ms) as int;
        vstd::seq_lib::to_multiset_insert(rest, at, list.last());
        assert(list == front.push(list.last()));
        vstd::seq_lib::to_multiset_build(front, list.last());
    }
}

/// Recordings that already stand newest first stay as they are.
pub proof fn law_ordered_list_stays(list: Seq<Recording>)
    requires
        is_newest_first(list),
    ensures
        by_age(list) == list,
    decreases list.len(),
{
    if list.len() > 0 {
        let front = list.drop_last();
        law_ordered_list_stays(front);
        assert(place(front, list.last().epoch_ms) == front.len());
        assert(by_age(list) =~= list);
    }
}

/// Puts the recordings in order, newest first.
pub fn newest_first(recordings: Vec<Recording>) -> (list: Vec<Recording>)
    ensures
        list@ == by_age(recordings@),
{
    let ghost all = recordings@;
    let mut rest = recordings;
    let mut list: Vec<Recording> = Vec::new();
    assert(all.take(0) =~= Seq::empty());
    while rest.len() > 0
        invariant
            rest.len() <= all.len(),
            rest@ == all.skip(all.len() - rest.len()),
            list@ == by_age(all.take(all.len() - rest.len())),
        decreases rest.len(),
    {
        let ghost done = all.len() - rest.len();
        let recording = rest.remove(0);
        proof {
            assert(recording == all[done]);
            assert(rest@ =~= all.skip(done + 1));
            assert(all.take(done + 1).drop_last() =~= all.take(done));
        }
        let mut at: usize = list.len();
        assert(list@.take(at as int) =~= list@);
        while at > 0 && list[at - 1].epoch_ms < recording.epoch_ms
            invariant
                at <= list.len(),
                place(list@, recording.epoch_ms) == place(
                    list@.take(at as int),
                    recording.epoch_ms,
                ),
            decreases at,
        {
            assert(list@.take(at as int).drop_last() =~= list@.take(at - 1));
            at = at - 1;
        }
        list.insert(at, recording);
    }
    assert(all.take(all.len() as int) =~= all);
    list
}

// ---------------------------------------------------------------------------
// Playing
// ---------------------------------------------------------------------------

/// What the window is waiting for.
#[derive(Clone, Copy, Debug, PartialEq, Eq, Structural)]
pub enum PlayPhase {
    Idle,
    /// The recording that was played before is being cut off.
    Silencing,
    FindingPlayer,
    StartingPlayer,
    /// The user is being told that something failed.
    Reporting,
    /// The window is being closed.
    Closing,
}

#[verifier::ext_equal]
pub struct Playback {
    pub playing: Option<u32>,
    pub path: Seq<u8>,
    pub phase: PlayPhase,
}

impl Playback {
    pub open spec fn find_player(self) -> (Playback, Step) {
        (Playback { phase: PlayPhase::FindingPlayer, ..self }, Step::FindTools)
    }

    pub open spec fn report(self, message: Seq<char>) -> (Playback, Step) {
        (Playback { phase: PlayPhase::Reporting, ..self }, Step::Report(message))
    }

    pub open spec fn idle(self) -> (Playback, Step) {
        (Playback { phase: PlayPhase::Idle, ..self }, Step::Done)
    }

    pub open spec fn play(self, path: Seq<u8>) -> (Playback, Step) {
        if self.phase != PlayPhase::Idle {
            (self, Step::Done)
        } else {
            match self.playing {
                Some(pid) => (
                    Playback { playing: None, path, phase: PlayPhase::Silencing },
                    Step::KillAndReap(pid),
                ),
                None => (Playback { path, ..self }).find_player(),
            }
        }
    }

    pub open spec fn close(self) -> (Playback, Step) {
        if self.phase != PlayPhase::Idle {
            (self, Step::Done)
        } else {
            match self.playing {
                Some(pid) => (
                    Playback { playing: None, phase: PlayPhase::Closing, ..self },
                    Step::KillAndReap(pid),
                ),
                None => (self, Step::Done),
            }
        }
    }

    /// What follows on an answer. One that does not belong to what was asked for changes
    /// nothing.
    pub open spec fn resume(self, answer: Answer) -> (Playback, Step) {
        match (self.phase, answer) {
            (PlayPhase::Silencing, Answer::Done) => self.find_player(),
            (PlayPhase::FindingPlayer, Answer::Tools {
                parecord,
                pw_record,
            }) => match crate::process::recording_tools(parecord, pw_record) {
                Some((_, player)) => (
                    Playback { phase: PlayPhase::StartingPlayer, ..self },
                    Step::Spawn(crate::loopback::play_command(player, self.path)),
                ),
                None => self.report("paplay も pw-play も見つかりません"@),
            },
            (PlayPhase::StartingPlayer, Answer::Spawned(pid)) => (Playback {
                playing: Some(pid),
                ..self
            }).idle(),
            (PlayPhase::StartingPlayer, Answer::Failed { message, .. }) => self.report(
                "再生の開始に失敗: "@ + message,
            ),
            (PlayPhase::Reporting, Answer::Done) => self.idle(),
            (PlayPhase::Closing, Answer::Done) => self.idle(),
            _ => (self, Step::Done),
        }
    }

    /// Nothing is played while something is waited for.
    pub open spec fn well_formed(self) -> bool {
        self.phase != PlayPhase::Idle ==> self.playing is None
    }

    /// The process that plays.
    pub open spec fn processes(self) -> Set<u32> {
        match self.playing {
            Some(pid) => set![pid],
            None => Set::empty(),
        }
    }

    /// The process that an answer hands over.
    pub open spec fn handed_over(self, answer: Answer) -> Set<u32> {
        match (self.phase, answer) {
            (PlayPhase::StartingPlayer, Answer::Spawned(pid)) => set![pid],
            _ => Set::empty(),
        }
    }
}

/// The window with the recordings. Like the loopback, it says what is to be done and goes
/// on with what came of it.
#[derive(Debug)]
pub struct HistoryApp {
    playing: Option<u32>,
    path: Vec<u8>,
    phase: PlayPhase,
}

impl View for HistoryApp {
    type V = Playback;

    closed spec fn view(&self) -> Playback {
        Playback { playing: self.playing, path: self.path@, phase: self.phase }
    }
}

impl Default for HistoryApp {
    fn default() -> (app: Self)
        ensures
            app@ == (Playback { playing: None, path: Seq::empty(), phase: PlayPhase::Idle }),
            app@.well_formed(),
    {
        let app = HistoryApp { playing: None, path: Vec::new(), phase: PlayPhase::Idle };
        assert(app@.path =~= Seq::empty());
        app
    }
}

impl HistoryApp {
    /// Plays a recording. One that is still played is cut off first.
    pub fn play(&mut self, path: &[u8]) -> (action: Action)
        ensures
            (final(self)@, action@) == old(self)@.play(path@),
            old(self)@.well_formed() ==> final(self)@.well_formed(),
    {
        if self.phase != PlayPhase::Idle {
            return Action::Done;
        }
        self.path = path::copy(path);
        match self.playing.take() {
            Some(pid) => {
                self.phase = PlayPhase::Silencing;
                Action::KillAndReap(pid)
            },
            None => {
                self.phase = PlayPhase::FindingPlayer;
                Action::FindTools
            },
        }
    }

    /// Closes the window: what is played is cut off.
    pub fn close(&mut self) -> (action: Action)
        ensures
            (final(self)@, action@) == old(self)@.close(),
            old(self)@.well_formed() ==> final(self)@.well_formed(),
    {
        if self.phase != PlayPhase::Idle {
            return Action::Done;
        }
        match self.playing.take() {
            Some(pid) => {
                self.phase = PlayPhase::Closing;
                Action::KillAndReap(pid)
            },
            None => Action::Done,
        }
    }

    fn report(&mut self, message: String) -> (action: Action)
        ensures
            (final(self)@, action@) == old(self)@.report(message@),
    {
        self.phase = PlayPhase::Reporting;
        Action::Report(message)
    }

    /// Goes on with what came of the last action.
    pub fn resume(&mut self, reply: Reply) -> (action: Action)
        ensures
            (final(self)@, action@) == old(self)@.resume(reply@),
            old(self)@.well_formed() ==> final(self)@.well_formed(),
    {
        match (self.phase, reply) {
            (PlayPhase::Silencing, Reply::Done) => {
                self.phase = PlayPhase::FindingPlayer;
                Action::FindTools
            },
            (PlayPhase::FindingPlayer, Reply::Tools {
                parecord,
                pw_record,
            }) => match record_tools(parecord, pw_record) {
                Some((_, player)) => {
                    self.phase = PlayPhase::StartingPlayer;
                    Action::Spawn(player_command(player, self.path.as_slice()))
                },
                None => self.report("paplay も pw-play も見つかりません".to_string()),
            },
            (PlayPhase::StartingPlayer, Reply::Spawned(pid)) => {
                self.playing = Some(pid);
                self.phase = PlayPhase::Idle;
                Action::Done
            },
            (PlayPhase::StartingPlayer, Reply::Failed { message, .. }) => self.report(
                "再生の開始に失敗: ".to_string().concat(message.as_str()),
            ),
            (PlayPhase::Reporting, Reply::Done) | (PlayPhase::Closing, Reply::Done) => {
                self.phase = PlayPhase::Idle;
                Action::Done
            },
            _ => Action::Done,
        }
    }
}

/// At most one recording is played, and no player is lost: what played before, together
/// with what is handed over, is what plays after, together with what the step ends.
pub proof fn law_no_player_is_lost(p: Playback, path: Seq<u8>, answer: Answer)
    requires
        p.well_formed(),
    ensures
        p.play(path).0.well_formed(),
        p.close().0.well_formed(),
        p.resume(answer).0.well_formed(),
        p.processes() =~= p.play(path).0.processes().union(p.play(path).1.ends()),
        p.processes() =~= p.close().0.processes().union(p.close().1.ends()),
        p.processes().union(p.handed_over(answer)) =~= p.resume(answer).0.processes().union(
            p.resume(answer).1.ends(),
        ),
{
}

/// Closing the window leaves nothing playing.
pub proof fn law_closing_silences(p: Playback)
    requires
        p.well_formed(),
    ensures
        p.close().0.processes() == Set::<u32>::empty(),
{
}

// ---------------------------------------------------------------------------
// What always holds
// ---------------------------------------------------------------------------

/// Month, day, hour, minute and second stand in their places, by the numbers that people
/// use: months from 1.
pub proof fn law_time_shows_its_parts(t: LocalTime)
    requires
        0 <= t.month < 12,
        1 <= t.day <= 31,
        0 <= t.hour < 24,
        0 <= t.minute < 60,
        0 <= t.second <= 60,
    ensures
        ({
            let s = time_text(t);
            &&& s.len() == 14
            &&& forall|i: int|
                0 <= i < 14 && i != 2 && i != 5 && i != 8 && i != 11 ==> '0' <= #[trigger] s[i]
                    <= '9'
            &&& 10 * (s[0] as int - 48) + (s[1] as int - 48) == t.month + 1
            &&& 10 * (s[3] as int - 48) + (s[4] as int - 48) == t.day
            &&& 10 * (s[6] as int - 48) + (s[7] as int - 48) == t.hour
            &&& 10 * (s[9] as int - 48) + (s[10] as int - 48) == t.minute
            &&& 10 * (s[12] as int - 48) + (s[13] as int - 48) == t.second
        }),
{
    law_time_has_fixed_width(t);
    text::law_two_digits(t.month + 1);
    text::law_two_digits(t.day as int);
    text::law_two_digits(t.hour as int);
    text::law_two_digits(t.minute as int);
    text::law_two_digits(t.second as int);
    reveal_strlit("/");
    reveal_strlit(" ");
    reveal_strlit(":");
    let s = time_text(t);
    assert(s[0] == text::two_digits(t.month + 1)[0] && s[1] == text::two_digits(t.month + 1)[1]);
    assert(s[3] == text::two_digits(t.day as int)[0] && s[4] == text::two_digits(t.day as int)[1]);
    assert(s[6] == text::two_digits(t.hour as int)[0] && s[7] == text::two_digits(
        t.hour as int,
    )[1]);
    assert(s[9] == text::two_digits(t.minute as int)[0] && s[10] == text::two_digits(
        t.minute as int,
    )[1]);
    assert(s[12] == text::two_digits(t.second as int)[0] && s[13] == text::two_digits(
        t.second as int,
    )[1]);
}

/// A row shows the time as it is given and then the length: all its seconds in decimal, or
/// a question mark where it is not known.
pub proof fn law_row_shows_time_and_length(time: Seq<char>, secs: Option<u64>)
    ensures
        secs matches Some(n) ==> row_text(time, secs) == time + "　"@ + text::decimal(n as nat)
            + "秒"@,
        secs is None ==> row_text(time, secs) == time + "　"@ + "?"@,
{
    if let Some(n) = secs {
        assert(row_text(time, secs) =~= time + "　"@ + text::decimal(n as nat) + "秒"@);
    }
}

/// Recordings of the same moment keep the order in which they came.
pub proof fn law_same_moment_keeps_its_order(list: Seq<Recording>, epoch_ms: u64)
    ensures
        by_age(list).filter(|r: Recording| r.epoch_ms == epoch_ms) == list.filter(
            |r: Recording| r.epoch_ms == epoch_ms,
        ),
    decreases list.len(),
{
    broadcast use Seq::filter_distributes_over_add;

    reveal(Seq::filter);
    let same = |r: Recording| r.epoch_ms == epoch_ms;
    if list.len() > 0 {
        let front = list.drop_last();
        let rest = by_age(front);
        let new = list.last();
        let at = place(rest, new.epoch_ms) as int;
        law_same_moment_keeps_its_order(front, epoch_ms);
        lemma_place(rest, new.epoch_ms);
        let before = rest.take(at);
        let behind = rest.skip(at);
        assert(rest =~= before + behind);
        assert(by_age(list) =~= before + seq![new] + behind);
        assert(rest.filter(same) == before.filter(same) + behind.filter(same));
        assert((before + seq![new] + behind).filter(same) == (before + seq![new]).filter(same)
            + behind.filter(same));
        assert((before + seq![new]).filter(same) == before.filter(same) + seq![new].filter(same));
        assert(seq![new].drop_last() =~= Seq::empty());
        assert(seq![new].drop_last().filter(same) =~= Seq::empty());
        assert(list =~= front + seq![new]);
        assert(list.filter(same) == front.filter(same) + seq![new].filter(same));
        if new.epoch_ms == epoch_ms {
            assert forall|i: int| 0 <= i < behind.len() implies !same(#[trigger] behind[i]) by {
                assert(behind[i] == rest[at + i]);
            }
            behind.lemma_all_neg_filter_empty(same);
            assert(behind.filter(same).len() == 0);
        } else {
            assert(seq![new].filter(same) =~= Seq::empty());
        }
        assert(by_age(list).filter(same) =~= list.filter(same));
    }
}

/// Playing a recording cuts off the one that is still played, looks for a player, and then
/// has that player play the very file that was asked for. Its process is then the one that
/// is played.
pub proof fn law_playing_a_recording(
    p: Playback,
    path: Seq<u8>,
    parecord: bool,
    pw_record: bool,
    pid: u32,
)
    requires
        p.phase == PlayPhase::Idle,
    ensures
        p.playing matches Some(old_pid) ==> {
            &&& p.play(path).1 == Step::KillAndReap(old_pid)
            &&& p.play(path).0.resume(Answer::Done) == (Playback { playing: None, ..p }).play(path)
        },
        p.playing is None ==> {
            let (finding, find) = p.play(path);
            let (starting, start) = finding.resume(Answer::Tools { parecord, pw_record });
            &&& find == Step::FindTools
            &&& parecord || pw_record ==> {
                &&& start matches Step::Spawn(command)
                &&& parecord ==> command.program == "paplay"@
                &&& !parecord ==> command.program == "pw-play"@
                &&& command.args == seq![path]
            }
            &&& parecord || pw_record ==> starting.resume(Answer::Spawned(pid)) == (
                Playback { playing: Some(pid), path, phase: PlayPhase::Idle },
                Step::Done,
            )
            &&& !parecord && !pw_record ==> start == Step::Report(
                "paplay も pw-play も見つかりません"@,
            )
        },
{
}

/// What fails is told in full; after that nothing is waited for, and nothing is played.
pub proof fn law_playing_failures_are_told(p: Playback, not_found: bool, message: Seq<char>)
    requires
        p.phase == PlayPhase::StartingPlayer,
    ensures
        p.resume(Answer::Failed { not_found, message }).1 == Step::Report(
            "再生の開始に失敗: "@ + message,
        ),
        p.resume(Answer::Failed { not_found, message }).0.resume(Answer::Done) == (
            Playback { phase: PlayPhase::Idle, ..p },
            Step::Done,
        ),
{
}

/// Closing the window kills what is played, and nothing else.
pub proof fn law_closing_kills_the_player(p: Playback, pid: u32)
    requires
        p.phase == PlayPhase::Idle,
    ensures
        p.playing == Some(pid) ==> {
            &&& p.close().1 == Step::KillAndReap(pid)
            &&& p.close().0.resume(Answer::Done) == (
                Playback { playing: None, ..p },
                Step::Done,
            )
        },
        p.playing is None ==> p.close() == (p, Step::Done),
{
}

/// Nothing new is begun before what was asked for is answered, and an answer to something
/// else changes nothing.
pub proof fn law_one_recording_at_a_time(p: Playback, path: Seq<u8>, answer: Answer)
    ensures
        p.phase != PlayPhase::Idle ==> p.play(path) == (p, Step::Done) && p.close() == (
            p,
            Step::Done,
        ),
        p.phase == PlayPhase::Idle ==> p.resume(answer) == (p, Step::Done),
        p.phase == PlayPhase::FindingPlayer && !(answer is Tools) ==> p.resume(answer) == (
            p,
            Step::Done,
        ),
        p.phase == PlayPhase::StartingPlayer && !(answer is Spawned || answer is Failed)
            ==> p.resume(answer) == (p, Step::Done),
        (p.phase == PlayPhase::Silencing || p.phase == PlayPhase::Reporting || p.phase
            == PlayPhase::Closing) && !(answer is Done) ==> p.resume(answer) == (p, Step::Done),
{
}

/// Two moments that are shown alike are the same.
pub proof fn law_times_tell_apart(t: LocalTime, u: LocalTime)
    requires
        0 <= t.month < 12 && 0 <= t.day < 100 && 0 <= t.hour < 100,
        0 <= t.minute < 100 && 0 <= t.second < 100,
        0 <= u.month < 12 && 0 <= u.day < 100 && 0 <= u.hour < 100,
        0 <= u.minute < 100 && 0 <= u.second < 100,
    ensures
        time_text(t) == time_text(u) ==> t == u,
{
    text::law_two_digits(t.month + 1);
    text::law_two_digits(t.day as int);
    text::law_two_digits(t.hour as int);
    text::law_two_digits(t.minute as int);
    text::law_two_digits(t.second as int);
    text::law_two_digits(u.month + 1);
    text::law_two_digits(u.day as int);
    text::law_two_digits(u.hour as int);
    text::law_two_digits(u.minute as int);
    text::law_two_digits(u.second as int);
    reveal_strlit("/");
    reveal_strlit(" ");
    reveal_strlit(":");
    let a = time_text(t);
    let b = time_text(u);
    if a == b {
        assert(a.subrange(0, 2) =~= text::two_digits(t.month + 1));
        assert(b.subrange(0, 2) =~= text::two_digits(u.month + 1));
        assert(a.subrange(3, 5) =~= text::two_digits(t.day as int));
        assert(b.subrange(3, 5) =~= text::two_digits(u.day as int));
        assert(a.subrange(6, 8) =~= text::two_digits(t.hour as int));
        assert(b.subrange(6, 8) =~= text::two_digits(u.hour as int));
        assert(a.subrange(9, 11) =~= text::two_digits(t.minute as int));
        assert(b.subrange(9, 11) =~= text::two_digits(u.minute as int));
        assert(a.subrange(12, 14) =~= text::two_digits(t.second as int));
        assert(b.subrange(12, 14) =~= text::two_digits(u.second as int));
    }
}

} // verus!
