//! One instance at a time, by way of a file that holds its process id.

use vstd::prelude::*;
use vstd::string::*;

use crate::path;
use crate::text;

verus! {

/// The pause between two looks, in milliseconds.
pub const PROBE_PAUSE_MSEC: u64 = 100;

/// The path of the file, in the runtime directory or else among the temporary files.
pub open spec fn pid_file(runtime_dir: Option<&[u8]>, temp_dir: &[u8]) -> Seq<u8> {
    path::joined(path::directory_or(runtime_dir, temp_dir@), "micloop.pid".spec_bytes())
}

/// Where the process id is kept, for the value of `XDG_RUNTIME_DIR` and the directory of
/// temporary files.
pub fn pidfile(runtime_dir: Option<&[u8]>, temp_dir: &[u8]) -> (file: Vec<u8>)
    ensures
        file@ == pid_file(runtime_dir, temp_dir),
{
    match runtime_dir {
        Some(dir) => path::join(dir, "micloop.pid"),
        None => path::join(temp_dir, "micloop.pid"),
    }
}

/// The process id that the file's contents give.
pub open spec fn recorded_pid(contents: Seq<char>) -> Option<i32> {
    text::parsed_i32(text::trimmed(contents))
}

/// Reads a process id.
pub fn parse_pid(contents: &str) -> (pid: Option<i32>)
    ensures
        pid == recorded_pid(contents@),
{
    text::parse_i32(text::trim(contents).as_str())
}

/// What an instance writes into the file.
pub fn pid_text(pid: u32) -> (contents: String)
    ensures
        contents@ == text::decimal(pid as nat),
{
    text::decimal_text(pid as u64)
}

/// An instance finds the id that another one wrote.
pub proof fn law_recorded_pid_reads_back(pid: u32)
    requires
        pid <= i32::MAX,
    ensures
        recorded_pid(text::decimal(pid as nat)) == Some(pid as i32),
{
    text::law_decimal_is_digits(pid as nat);
    text::law_trim_keeps_clean_text(text::decimal(pid as nat));
    text::law_i32_text_reads_back(pid as i32);
}

// ---------------------------------------------------------------------------
// Stopping the instance that runs
// ---------------------------------------------------------------------------

/// How far the stopping has come.
#[derive(Clone, Copy, Debug, PartialEq, Eq, Structural)]
pub enum StopPhase {
    /// The instance is being asked to end.
    Signalling,
    /// It is being looked for.
    Probing,
    /// It was still there; a pause is being made.
    Pausing,
    Finished,
}

/// What is to be done next.
#[derive(Debug, PartialEq)]
pub enum StopAction {
    /// Send SIGTERM to the process.
    Terminate(i32),
    /// Find out whether there is such a process.
    Probe(i32),
    /// Wait for as many milliseconds.
    Pause(u64),
    /// It is over; remove the file if so told, tell the user if there is something to
    /// tell, and write into the file if there is something to write.
    Finish { remove_pidfile: bool, message: Option<String>, write: Option<String> },
}

#[verifier::ext_equal]
pub enum StopStep {
    Terminate(i32),
    Probe(i32),
    Pause(u64),
    Finish { remove_pidfile: bool, message: Option<Seq<char>>, write: Option<Seq<char>> },
}

impl View for StopAction {
    type V = StopStep;

    open spec fn view(&self) -> StopStep {
        match self {
            StopAction::Terminate(pid) => StopStep::Terminate(*pid),
            StopAction::Probe(pid) => StopStep::Probe(*pid),
            StopAction::Pause(msec) => StopStep::Pause(*msec),
            StopAction::Finish { remove_pidfile, message, write } => StopStep::Finish {
                remove_pidfile: *remove_pidfile,
                message: crate::config::optional_text(*message),
                write: crate::config::optional_text(*write),
            },
        }
    }
}

/// Stops the instance that runs, step by step, until it is gone.
#[derive(Clone, Copy, Debug, PartialEq, Eq, Structural)]
pub struct StopRunning {
    pub verbose: bool,
    /// The process that takes the place of the one that is stopped, if any does.
    pub successor: Option<u32>,
    pub pid: i32,
    pub phase: StopPhase,
}

pub open spec fn when_verbose(verbose: bool, message: Seq<char>) -> Option<Seq<char>> {
    if verbose {
        Some(message)
    } else {
        None
    }
}

pub open spec fn stopped_message(pid: i32) -> Seq<char> {
    "micloop (pid "@ + text::signed_decimal(pid as int) + ") を停止しました"@
}

/// What goes into the file when the place is free.
pub open spec fn claim_text(successor: Option<u32>) -> Option<Seq<char>> {
    match successor {
        Some(pid) => Some(text::decimal(pid as nat)),
        None => None,
    }
}

/// What goes into the file when the place is free: the id of the process that takes it.
fn claim_contents(successor: Option<u32>) -> (write: Option<String>)
    ensures
        crate::config::optional_text(write) == claim_text(successor),
{
    match successor {
        Some(pid) => Some(pid_text(pid)),
        None => None,
    }
}

impl StopRunning {
    /// The first step, for the contents of the file (`None` if it cannot be read).
    pub open spec fn begin(
        verbose: bool,
        successor: Option<u32>,
        contents: Option<Seq<char>>,
    ) -> (StopRunning, StopStep) {
        let pid = match contents {
            Some(contents) => recorded_pid(contents),
            None => None,
        };
        match pid {
            Some(pid) => (
                StopRunning { verbose, successor, pid, phase: StopPhase::Signalling },
                StopStep::Terminate(pid),
            ),
            None => (
                StopRunning { verbose, successor, pid: 0, phase: StopPhase::Finished },
                StopStep::Finish {
                    remove_pidfile: false,
                    message: when_verbose(verbose, "micloop は稼働していません"@),
                    write: claim_text(successor),
                },
            ),
        }
    }

    pub open spec fn stopped(self) -> (StopRunning, StopStep) {
        (
            StopRunning { phase: StopPhase::Finished, ..self },
            StopStep::Finish {
                remove_pidfile: false,
                message: when_verbose(self.verbose, stopped_message(self.pid)),
                write: claim_text(self.successor),
            },
        )
    }

    pub open spec fn stale(self) -> (StopRunning, StopStep) {
        (
            StopRunning { phase: StopPhase::Finished, ..self },
            StopStep::Finish {
                remove_pidfile: true,
                message: when_verbose(
                    self.verbose,
                    "micloop は稼働していません (残っていたpidfileを削除)"@,
                ),
                write: claim_text(self.successor),
            },
        )
    }

    pub open spec fn after(self, reached: bool) -> (StopRunning, StopStep) {
        match self.phase {
            StopPhase::Signalling => if reached {
                (StopRunning { phase: StopPhase::Probing, ..self }, StopStep::Probe(self.pid))
            } else {
                self.stale()
            },
            StopPhase::Probing => if reached {
                (
                    StopRunning { phase: StopPhase::Pausing, ..self },
                    StopStep::Pause(PROBE_PAUSE_MSEC),
                )
            } else {
                self.stopped()
            },
            StopPhase::Pausing => (
                StopRunning { phase: StopPhase::Probing, ..self },
                StopStep::Probe(self.pid),
            ),
            StopPhase::Finished => (
                self,
                StopStep::Finish { remove_pidfile: false, message: None, write: None },
            ),
        }
    }

    fn finish_stopped(&mut self) -> (action: StopAction)
        ensures
            (*final(self), action@) == old(self).stopped(),
    {
        self.phase = StopPhase::Finished;
        let message = if self.verbose {
            Some(
                "micloop (pid ".to_string().concat(
                    text::signed_decimal_text(self.pid).as_str(),
                ).concat(") を停止しました"),
            )
        } else {
            None
        };
        StopAction::Finish { remove_pidfile: false, message, write: claim_contents(self.successor) }
    }

    fn finish_stale(&mut self) -> (action: StopAction)
        ensures
            (*final(self), action@) == old(self).stale(),
    {
        self.phase = StopPhase::Finished;
        let message = if self.verbose {
            Some("micloop は稼働していません (残っていたpidfileを削除)".to_string())
        } else {
            None
        };
        StopAction::Finish { remove_pidfile: true, message, write: claim_contents(self.successor) }
    }

    /// Takes what came of the last action: whether the process was reached. (Of a pause
    /// it makes no difference.)
    pub fn resume(&mut self, reached: bool) -> (action: StopAction)
        ensures
            (*final(self), action@) == old(self).after(reached),
    {
        match self.phase {
            StopPhase::Signalling => if reached {
                self.phase = StopPhase::Probing;
                StopAction::Probe(self.pid)
            } else {
                self.finish_stale()
            },
            StopPhase::Probing => if reached {
                self.phase = StopPhase::Pausing;
                StopAction::Pause(PROBE_PAUSE_MSEC)
            } else {
                self.finish_stopped()
            },
            StopPhase::Pausing => {
                self.phase = StopPhase::Probing;
                StopAction::Probe(self.pid)
            },
            StopPhase::Finished => StopAction::Finish {
                remove_pidfile: false,
                message: None,
                write: None,
            },
        }
    }
}

pub open spec fn file_contents(contents: Option<&str>) -> Option<Seq<char>> {
    match contents {
        Some(contents) => Some(contents@),
        None => None,
    }
}

fn begin(verbose: bool, successor: Option<u32>, contents: Option<&str>) -> (r: (
    StopRunning,
    StopAction,
))
    ensures
        (r.0, r.1@) == StopRunning::begin(verbose, successor, file_contents(contents)),
{
    let pid = match contents {
        Some(contents) => parse_pid(contents),
        None => None,
    };
    match pid {
        Some(pid) => (
            StopRunning { verbose, successor, pid, phase: StopPhase::Signalling },
            StopAction::Terminate(pid),
        ),
        None => {
            let message = if verbose {
                Some("micloop は稼働していません".to_string())
            } else {
                None
            };
            (
                StopRunning { verbose, successor, pid: 0, phase: StopPhase::Finished },
                StopAction::Finish {
                    remove_pidfile: false,
                    message,
                    write: claim_contents(successor),
                },
            )
        },
    }
}

/// Stops the instance that runs and waits for its end: the first step, for the contents
/// of the file (`None` if it cannot be read). [`StopRunning::resume`] goes on from there.
pub fn stop_running(verbose: bool, contents: Option<&str>) -> (r: (StopRunning, StopAction))
    ensures
        (r.0, r.1@) == StopRunning::begin(verbose, None, file_contents(contents)),
{
    begin(verbose, None, contents)
}

/// Takes the place of the instance that runs: stops it without a word, waits for its end,
/// and then has the own process id written into the file. This is the first step, as in
/// [`stop_running`].
pub fn claim(pid: u32, contents: Option<&str>) -> (r: (StopRunning, StopAction))
    ensures
        (r.0, r.1@) == StopRunning::begin(false, Some(pid), file_contents(contents)),
{
    begin(false, Some(pid), contents)
}

// ---------------------------------------------------------------------------
// What always holds
// ---------------------------------------------------------------------------

/// Once a process was asked to end, nothing but its end ends the waiting: each time it is
/// still there, a pause is made and it is looked for again.
pub proof fn law_the_end_is_waited_for(stop: StopRunning, reached: bool)
    requires
        stop.phase == StopPhase::Probing || stop.phase == StopPhase::Pausing,
    ensures
        stop.after(reached).1 is Finish <==> stop.phase == StopPhase::Probing && !reached,
        stop.phase == StopPhase::Probing && reached ==> stop.after(reached).1 == StopStep::Pause(
            PROBE_PAUSE_MSEC,
        ) && stop.after(reached).0.after(true).1 == StopStep::Probe(stop.pid),
{
}

/// When the process is gone, so that no answer finds it any more, stopping comes to its
/// end within two answers.
pub proof fn law_stopping_ends_with_the_process(stop: StopRunning)
    ensures
        stop.after(false).0.after(false).0.phase == StopPhase::Finished,
        stop.phase != StopPhase::Finished ==> stop.after(false).1 is Finish || stop.after(
            false,
        ).0.after(false).1 is Finish,
{
}

/// The own process id is written only when stopping is over, and exactly if the place was
/// claimed; what is written is read back as that id.
pub proof fn law_claimed_after_stopping(
    verbose: bool,
    successor: Option<u32>,
    contents: Option<Seq<char>>,
    stop: StopRunning,
    reached: bool,
)
    requires
        stop.phase != StopPhase::Finished,
    ensures
        StopRunning::begin(verbose, successor, contents).0.successor == successor,
        StopRunning::begin(verbose, successor, contents).1 matches StopStep::Finish { write, .. }
            ==> write == claim_text(successor),
        stop.after(reached).0.successor == stop.successor,
        stop.after(reached).1 matches StopStep::Finish { write, .. } ==> write == claim_text(
            stop.successor,
        ),
        successor matches Some(pid) ==> pid <= i32::MAX ==> (claim_text(successor) matches Some(
            text,
        ) && recorded_pid(text) == Some(pid as i32)),
        successor is None ==> claim_text(successor) is None,
{
    match successor {
        Some(pid) => {
            if pid <= i32::MAX {
                law_recorded_pid_reads_back(pid);
            }
        },
        None => {},
    }
}

/// Without `verbose` nothing is ever told.
pub proof fn law_quiet_stopping_tells_nothing(
    successor: Option<u32>,
    contents: Option<Seq<char>>,
    stop: StopRunning,
    reached: bool,
)
    requires
        !stop.verbose,
    ensures
        !StopRunning::begin(false, successor, contents).0.verbose,
        StopRunning::begin(false, successor, contents).1 matches StopStep::Finish { message, .. }
            ==> message is None,
        !stop.after(reached).0.verbose,
        stop.after(reached).1 matches StopStep::Finish { message, .. } ==> message is None,
{
}

/// The file is removed exactly if it names a process that cannot be signalled. Only the
/// process that the file names is ever signalled.
pub proof fn law_only_stale_files_are_removed(stop: StopRunning, reached: bool)
    ensures
        stop.after(reached).1 matches StopStep::Finish { remove_pidfile, .. } ==> (remove_pidfile
            <==> stop.phase == StopPhase::Signalling && !reached),
        stop.after(reached).0.pid == stop.pid,
        !(stop.after(reached).1 is Terminate),
        stop.after(reached).1 matches StopStep::Probe(pid) ==> pid == stop.pid,
{
}

/// A process id is read whatever white space stands around it; a text that is not a number
/// by itself gives none.
pub proof fn law_recorded_pid_with_white_space(
    before: Seq<char>,
    pid: i32,
    behind: Seq<char>,
    contents: Seq<char>,
)
    requires
        forall|i: int| 0 <= i < before.len() ==> text::is_white_space(#[trigger] before[i]),
        forall|i: int| 0 <= i < behind.len() ==> text::is_white_space(#[trigger] behind[i]),
    ensures
        recorded_pid(before + text::signed_decimal(pid as int) + behind) == Some(pid),
        recorded_pid(contents) == text::parsed_i32(text::trimmed(contents)),
        text::trimmed(contents).len() == 0 ==> recorded_pid(contents) is None,
{
    let s = text::signed_decimal(pid as int);
    let magnitude: nat = if pid < 0 {
        (-pid) as nat
    } else {
        pid as nat
    };
    text::law_decimal_stands_for_its_number(magnitude, 0);
    assert(s.len() > 0 && (s[0] == '-' || '0' <= s[0] <= '9'));
    assert('0' <= s.last() <= '9') by {
        let digits = text::decimal(magnitude);
        assert(s.last() == digits[digits.len() - 1]);
    }
    text::law_surrounding_white_space_is_dropped(before, s, behind);
    text::law_i32_text_reads_back(pid);
}

/// The process that the file names is the first to be dealt with, and it is asked to end,
/// not killed. Without a readable id nothing is signalled, and there is nothing to stop.
pub proof fn law_stopping_begins_with_the_recorded_process(
    verbose: bool,
    successor: Option<u32>,
    contents: Seq<char>,
)
    ensures
        recorded_pid(contents) matches Some(pid) ==> {
            let (stop, step) = StopRunning::begin(verbose, successor, Some(contents));
            &&& step == StopStep::Terminate(pid)
            &&& stop.pid == pid
            &&& stop.phase == StopPhase::Signalling
            &&& stop.verbose == verbose
            &&& stop.successor == successor
        },
        recorded_pid(contents) is None ==> StopRunning::begin(verbose, successor, Some(contents))
            == StopRunning::begin(verbose, successor, None),
        StopRunning::begin(verbose, successor, None).1 matches StopStep::Finish {
            remove_pidfile,
            message,
            ..
        } && !remove_pidfile && (verbose ==> message == Some("micloop は稼働していません"@)) && (
        !verbose ==> message is None),
{
}

/// Whoever stops an instance is told how it went, by its process id where one was stopped.
/// In between, the process is looked for every 100 milliseconds.
pub proof fn law_stopping_is_told(stop: StopRunning)
    requires
        stop.verbose,
    ensures
        stop.phase == StopPhase::Signalling ==> stop.after(true).1 == StopStep::Probe(stop.pid),
        stop.phase == StopPhase::Signalling ==> (stop.after(false).1 matches StopStep::Finish {
            message,
            remove_pidfile,
            ..
        } && remove_pidfile && message == Some(
            "micloop は稼働していません (残っていたpidfileを削除)"@,
        )),
        stop.phase == StopPhase::Probing ==> stop.after(true).1 == StopStep::Pause(100),
        stop.phase == StopPhase::Probing ==> (stop.after(false).1 matches StopStep::Finish {
            message,
            remove_pidfile,
            ..
        } && !remove_pidfile && message == Some(
            "micloop (pid "@ + text::signed_decimal(stop.pid as int) + ") を停止しました"@,
        )),
{
}

/// What is done of stopping does not depend on whether it is told of, nor does what is
/// written; and nothing changes but how far it has come.
pub proof fn law_telling_changes_nothing(stop: StopRunning, verbose: bool, reached: bool)
    ensures
        ({
            let told = StopRunning { verbose, ..stop };
            &&& told.after(reached).0 == (StopRunning { verbose, ..stop.after(reached).0 })
            &&& stop.after(reached).0 == (StopRunning {
                phase: stop.after(reached).0.phase,
                ..stop
            })
            &&& !(stop.after(reached).1 is Finish) ==> told.after(reached).1 == stop.after(
                reached,
            ).1
            &&& stop.after(reached).1 matches StopStep::Finish { remove_pidfile, write, .. } ==> (
            told.after(reached).1 matches StopStep::Finish {
                remove_pidfile: also_removed,
                write: also_written,
                ..
            } && also_removed == remove_pidfile && also_written == write)
        }),
{
}

/// The file is `micloop.pid` in the directory that `XDG_RUNTIME_DIR` names, and among the
/// temporary files only where it is not set.
pub proof fn law_pid_file(dir: &[u8], temp_dir: &[u8])
    ensures
        pid_file(Some(dir), temp_dir) == path::joined(dir@, "micloop.pid".spec_bytes()),
        pid_file(None, temp_dir) == path::joined(temp_dir@, "micloop.pid".spec_bytes()),
        dir@.len() > 0 && dir@.last() != 47 ==> pid_file(Some(dir), temp_dir) == dir@
            + seq![47u8] + "micloop.pid".spec_bytes(),
        temp_dir@.len() > 0 && temp_dir@.last() != 47 ==> pid_file(None, temp_dir) == temp_dir@
            + seq![47u8] + "micloop.pid".spec_bytes(),
{
    path::lemma_literal_parts();
}

/// What is asked for is what is stated of it.
pub proof fn law_stop_actions_are_what_they_say(action: StopAction)
    ensures
        action matches StopAction::Terminate(pid) ==> action@ == StopStep::Terminate(pid),
        action matches StopAction::Probe(pid) ==> action@ == StopStep::Probe(pid),
        action matches StopAction::Pause(msec) ==> action@ == StopStep::Pause(msec),
        action matches StopAction::Finish { remove_pidfile, message, write } ==> {
            &&& action@ matches StopStep::Finish {
                remove_pidfile: removed,
                message: told,
                write: written,
            }
            &&& removed == remove_pidfile
            &&& message matches Some(text) ==> told == Some(text@)
            &&& message is None ==> told is None
            &&& write matches Some(text) ==> written == Some(text@)
            &&& write is None ==> written is None
        },
{
}

/// What is written for a process is its id in decimal and nothing else, so no two processes
/// write the same.
pub proof fn law_written_id(pid: u32, other: u32)
    ensures
        claim_text(Some(pid)) == Some(text::decimal(pid as nat)),
        claim_text(Some(pid)) == claim_text(Some(other)) ==> pid == other,
        claim_text(None) is None,
{
    text::law_decimal_stands_for_its_number(pid as nat, other as nat);
}

} // verus!
