//! The loopback from the microphone to the speakers, and what a key does to it.
//!
//! There are two backends, and which one is used is found out on the way:
//! - `pactl`, for PulseAudio and for PipeWire with the PulseAudio tools;
//! - `pw-loopback`, for PipeWire without them. It loops back for as long as it runs.

use vstd::prelude::*;
use vstd::string::*;

use crate::config::{Config, Mode, Output, Settings};
use crate::listener::{InputEvent, Watch, EV_KEY};
use crate::path;
use crate::process::{record_tools, Action, Answer, Command, Invocation, Reply, Step};
use crate::text;

verus! {

/// What is running while the loopback is on.
#[derive(Debug, PartialEq)]
pub enum State {
    Off,
    /// The module that `pactl load-module` gave this id.
    PactlModule(String),
    /// The `pw-loopback` that runs as this process.
    PwProcess(u32),
    /// The recorder (inside `timeout`) that runs as this process.
    Recording(u32),
}

#[verifier::ext_equal]
pub enum Running {
    Off,
    PactlModule(Seq<char>),
    PwProcess(u32),
    Recording(u32),
}

impl View for State {
    type V = Running;

    open spec fn view(&self) -> Running {
        match self {
            State::Off => Running::Off,
            State::PactlModule(id) => Running::PactlModule(id@),
            State::PwProcess(pid) => Running::PwProcess(*pid),
            State::Recording(pid) => Running::Recording(*pid),
        }
    }
}

/// What the loopback is waiting for.
#[derive(Clone, Copy, Debug, PartialEq, Eq, Structural)]
pub enum Phase {
    Idle,
    /// Switching on: the playback of the last recording is being killed.
    SilencingPlayback,
    FindingRecorder,
    StartingRecorder,
    StartingPactl,
    StartingPwLoopback,
    /// Switching off.
    UnloadingModule,
    KillingPwLoopback,
    ClosingRecording,
    FindingPlayer,
    StartingPlayer,
    /// The user is being told that something failed.
    Reporting,
    /// Closing down.
    KillingPlayback,
    RemovingRecording,
}

/// The loopback as mathematical values.
#[verifier::ext_equal]
pub struct Machine {
    pub latency_msec: u32,
    pub output: Output,
    pub max_record_secs: u32,
    pub wav: Seq<u8>,
    pub state: Running,
    pub playing: Option<u32>,
    pub phase: Phase,
    pub closing: bool,
}

// ---------------------------------------------------------------------------
// Commands
// ---------------------------------------------------------------------------

pub open spec fn pactl_command(latency_msec: u32) -> Invocation {
    Invocation {
        program: "pactl"@,
        args: seq![
            vstd::utf8::encode_utf8("load-module"@),
            vstd::utf8::encode_utf8("module-loopback"@),
            vstd::utf8::encode_utf8("latency_msec="@ + text::decimal(latency_msec as nat)),
        ],
    }
}

pub open spec fn unload_command(id: Seq<char>) -> Invocation {
    Invocation {
        program: "pactl"@,
        args: seq![vstd::utf8::encode_utf8("unload-module"@), vstd::utf8::encode_utf8(id)],
    }
}

pub open spec fn pw_loopback_command(latency_msec: u32) -> Invocation {
    Invocation {
        program: "pw-loopback"@,
        args: seq![
            vstd::utf8::encode_utf8("-n"@),
            vstd::utf8::encode_utf8("micloop"@),
            vstd::utf8::encode_utf8("-l"@),
            vstd::utf8::encode_utf8(text::decimal(latency_msec as nat)),
        ],
    }
}

/// The seconds after which a recording is ended. To `timeout` zero would be no limit, so
/// the least limit is one second.
pub open spec fn record_limit(max_record_secs: u32) -> u32 {
    if max_record_secs == 0 {
        1
    } else {
        max_record_secs
    }
}

/// The recorder runs under a time limit, so that recordings cannot fill up the memory.
pub open spec fn record_command(
    max_record_secs: u32,
    recorder: Seq<char>,
    wav: Seq<u8>,
) -> Invocation {
    Invocation {
        program: "timeout"@,
        args: seq![
            vstd::utf8::encode_utf8(text::decimal(record_limit(max_record_secs) as nat)),
            vstd::utf8::encode_utf8(recorder),
            wav,
        ],
    }
}

pub open spec fn play_command(player: Seq<char>, wav: Seq<u8>) -> Invocation {
    Invocation { program: player, args: seq![wav] }
}

/// Plays the recording at `wav`.
pub fn player_command(player: &str, wav: &[u8]) -> (cmd: Command)
    ensures
        cmd@ == play_command(player@, wav@),
{
    let cmd = Command::new(player).raw_arg(path::copy(wav));
    assert(cmd@.args =~= seq![wav@]);
    cmd
}

fn unload_module(id: &str) -> (cmd: Command)
    ensures
        cmd@ == unload_command(id@),
{
    let cmd = Command::new("pactl").arg("unload-module").arg(id);
    assert(cmd@.args =~= unload_command(id@).args);
    cmd
}

/// The path of the recording: in the runtime directory, which is kept in memory and goes
/// when the user logs out, or else among the temporary files.
pub open spec fn wav_file(runtime_dir: Option<&[u8]>, temp_dir: &[u8]) -> Seq<u8> {
    path::joined(path::directory_or(runtime_dir, temp_dir@), "micloop.wav".spec_bytes())
}

/// Where the recording is kept, for the value of `XDG_RUNTIME_DIR` and the directory of
/// temporary files.
pub fn wav_path(runtime_dir: Option<&[u8]>, temp_dir: &[u8]) -> (file: Vec<u8>)
    ensures
        file@ == wav_file(runtime_dir, temp_dir),
{
    match runtime_dir {
        Some(dir) => path::join(dir, "micloop.wav"),
        None => path::join(temp_dir, "micloop.wav"),
    }
}

// ---------------------------------------------------------------------------
// What happens
// ---------------------------------------------------------------------------

pub open spec fn no_recorder() -> Seq<char> {
    "parecord も pw-record も見つかりません。pulseaudio-utils か pipewire を導入してください"@
}

pub open spec fn no_backend() -> Seq<char> {
    "pactl も pw-loopback も見つかりません。pulseaudio-utils か pipewire を導入してください"@
}

impl Machine {
    /// The loopback with these settings, off.
    pub open spec fn off(cfg: Settings, wav: Seq<u8>) -> Machine {
        Machine {
            latency_msec: cfg.latency_msec,
            output: cfg.output,
            max_record_secs: cfg.max_record_secs,
            wav,
            state: Running::Off,
            playing: None,
            phase: Phase::Idle,
            closing: false,
        }
    }

    pub open spec fn active(self) -> bool {
        !(self.state is Off)
    }

    /// Ends an operation; when closing down, goes on to the playback and the recording.
    pub open spec fn finish(self) -> (Machine, Step) {
        if !self.closing {
            (Machine { phase: Phase::Idle, ..self }, Step::Done)
        } else {
            match self.playing {
                Some(pid) => (
                    Machine { playing: None, phase: Phase::KillingPlayback, ..self },
                    Step::KillAndReap(pid),
                ),
                None => (
                    Machine { phase: Phase::RemovingRecording, ..self },
                    Step::RemoveFile(self.wav),
                ),
            }
        }
    }

    pub open spec fn report(self, message: Seq<char>) -> (Machine, Step) {
        (Machine { phase: Phase::Reporting, ..self }, Step::Report(message))
    }

    /// Starts the recorder or the loopback.
    pub open spec fn launch(self) -> (Machine, Step) {
        if self.output == Output::Delayed {
            (Machine { phase: Phase::FindingRecorder, ..self }, Step::FindTools)
        } else {
            (
                Machine { phase: Phase::StartingPactl, ..self },
                Step::Run(pactl_command(self.latency_msec)),
            )
        }
    }

    pub open spec fn start(self) -> (Machine, Step) {
        if self.phase != Phase::Idle || self.active() {
            (self, Step::Done)
        } else {
            match self.playing {
                Some(pid) => (
                    Machine { playing: None, phase: Phase::SilencingPlayback, ..self },
                    Step::KillAndReap(pid),
                ),
                None => self.launch(),
            }
        }
    }

    pub open spec fn switch_off(self) -> (Machine, Step) {
        let off = Machine { state: Running::Off, ..self };
        match self.state {
            Running::Off => self.finish(),
            Running::PactlModule(id) => (
                Machine { phase: Phase::UnloadingModule, ..off },
                Step::RunQuietly(unload_command(id)),
            ),
            Running::PwProcess(pid) => (
                Machine { phase: Phase::KillingPwLoopback, ..off },
                Step::KillAndReap(pid),
            ),
            Running::Recording(pid) => (
                Machine { phase: Phase::ClosingRecording, ..off },
                Step::TerminateAndReap(pid),
            ),
        }
    }

    pub open spec fn stop(self) -> (Machine, Step) {
        if self.phase != Phase::Idle {
            (self, Step::Done)
        } else {
            self.switch_off()
        }
    }

    pub open spec fn close(self) -> (Machine, Step) {
        if self.phase != Phase::Idle {
            (self, Step::Done)
        } else {
            (Machine { closing: true, ..self }).switch_off()
        }
    }

    pub open spec fn set_active(self, active: bool) -> (Machine, Step) {
        if active {
            self.start()
        } else {
            self.stop()
        }
    }

    /// What follows when `pactl load-module` has run and printed this.
    pub open spec fn pactl_ran(
        self,
        success: bool,
        stdout: Seq<char>,
        stderr: Seq<char>,
    ) -> (Machine, Step) {
        if self.phase != Phase::StartingPactl {
            (self, Step::Done)
        } else if success {
            (Machine { state: Running::PactlModule(stdout), ..self }).finish()
        } else {
            self.report("pactl の実行に失敗: "@ + stderr)
        }
    }

    /// What follows when a program could not be started.
    pub open spec fn failed(self, not_found: bool, message: Seq<char>) -> (Machine, Step) {
        match self.phase {
            Phase::StartingRecorder => if not_found {
                self.report(no_recorder())
            } else {
                self.report("録音の開始に失敗: "@ + message)
            },
            Phase::StartingPactl => if not_found {
                (
                    Machine { phase: Phase::StartingPwLoopback, ..self },
                    Step::Spawn(pw_loopback_command(self.latency_msec)),
                )
            } else {
                self.report("pactl の実行に失敗: "@ + message)
            },
            Phase::StartingPwLoopback => if not_found {
                self.report(no_backend())
            } else {
                self.report("pw-loopback の起動に失敗: "@ + message)
            },
            Phase::StartingPlayer => self.report("再生の開始に失敗: "@ + message),
            _ => (self, Step::Done),
        }
    }

    /// What follows when a program was started.
    pub open spec fn spawned(self, pid: u32) -> (Machine, Step) {
        match self.phase {
            Phase::StartingRecorder => (Machine {
                state: Running::Recording(pid),
                ..self
            }).finish(),
            Phase::StartingPwLoopback => (Machine {
                state: Running::PwProcess(pid),
                ..self
            }).finish(),
            Phase::StartingPlayer => (Machine { playing: Some(pid), ..self }).finish(),
            _ => (self, Step::Done),
        }
    }

    /// What follows when the recorders have been looked for.
    pub open spec fn tools_found(self, parecord: bool, pw_record: bool) -> (Machine, Step) {
        match self.phase {
            Phase::FindingRecorder => match crate::process::recording_tools(parecord, pw_record) {
                Some((recorder, _)) => (
                    Machine { phase: Phase::StartingRecorder, ..self },
                    Step::Spawn(record_command(self.max_record_secs, recorder, self.wav)),
                ),
                None => self.report(no_recorder()),
            },
            Phase::FindingPlayer => match crate::process::recording_tools(parecord, pw_record) {
                Some((_, player)) => (
                    Machine { phase: Phase::StartingPlayer, ..self },
                    Step::Spawn(play_command(player, self.wav)),
                ),
                None => self.finish(),
            },
            _ => (self, Step::Done),
        }
    }

    /// What follows when something was done.
    pub open spec fn done(self) -> (Machine, Step) {
        match self.phase {
            Phase::SilencingPlayback => self.launch(),
            Phase::UnloadingModule | Phase::KillingPwLoopback | Phase::Reporting => self.finish(),
            Phase::ClosingRecording => (
                Machine { phase: Phase::FindingPlayer, ..self },
                Step::FindTools,
            ),
            Phase::KillingPlayback => (
                Machine { phase: Phase::RemovingRecording, ..self },
                Step::RemoveFile(self.wav),
            ),
            Phase::RemovingRecording => (
                Machine { phase: Phase::Idle, closing: false, ..self },
                Step::Done,
            ),
            _ => (self, Step::Done),
        }
    }

    /// What follows on an answer. One that does not belong to what was asked for changes
    /// nothing.
    pub open spec fn resume(self, answer: Answer) -> (Machine, Step) {
        match answer {
            Answer::Done => self.done(),
            Answer::Tools { parecord, pw_record } => self.tools_found(parecord, pw_record),
            Answer::Ran { success, stdout, stderr } => self.pactl_ran(
                success,
                text::printed_text(stdout),
                text::printed_text(stderr),
            ),
            Answer::Spawned(pid) => self.spawned(pid),
            Answer::Failed { not_found, message } => self.failed(not_found, message),
        }
    }
}

/// The loopback. Its operations do nothing themselves: they say what is to be done, and
/// [`Loopback::resume`] takes what came of it and goes on from there, until nothing is
/// left to do.
#[derive(Debug)]
pub struct Loopback {
    latency_msec: u32,
    output: Output,
    max_record_secs: u32,
    wav: Vec<u8>,
    state: State,
    /// The process that plays the last recording.
    playing: Option<u32>,
    phase: Phase,
    closing: bool,
}

impl View for Loopback {
    type V = Machine;

    closed spec fn view(&self) -> Machine {
        Machine {
            latency_msec: self.latency_msec,
            output: self.output,
            max_record_secs: self.max_record_secs,
            wav: self.wav@,
            state: self.state@,
            playing: self.playing,
            phase: self.phase,
            closing: self.closing,
        }
    }
}

impl Loopback {
    /// The loopback with these settings, off; recordings are kept at `wav`.
    pub fn new(cfg: &Config, wav: Vec<u8>) -> (loopback: Self)
        ensures
            loopback@ == Machine::off(cfg@, wav@),
            loopback@.well_formed(),
    {
        Loopback {
            latency_msec: cfg.latency_msec,
            output: cfg.output,
            max_record_secs: cfg.max_record_secs,
            wav,
            state: State::Off,
            playing: None,
            phase: Phase::Idle,
            closing: false,
        }
    }

    /// Whether the loopback is on.
    pub fn active(&self) -> (b: bool)
        ensures
            b == self@.active(),
    {
        match self.state {
            State::Off => false,
            _ => true,
        }
    }

    fn start_pactl(&self) -> (cmd: Command)
        ensures
            cmd@ == pactl_command(self@.latency_msec),
    {
        let latency = "latency_msec=".to_string().concat(
            text::decimal_text(self.latency_msec as u64).as_str(),
        );
        let cmd = Command::new("pactl").arg("load-module").arg("module-loopback").arg(
            latency.as_str(),
        );
        assert(cmd@.args =~= pactl_command(self.latency_msec).args);
        cmd
    }

    fn start_pw_loopback(&self) -> (cmd: Command)
        ensures
            cmd@ == pw_loopback_command(self@.latency_msec),
    {
        let cmd = Command::new("pw-loopback").arg("-n").arg("micloop").arg("-l").arg(
            text::decimal_text(self.latency_msec as u64).as_str(),
        );
        assert(cmd@.args =~= pw_loopback_command(self.latency_msec).args);
        cmd
    }

    fn start_record(&self, recorder: &str) -> (cmd: Command)
        ensures
            cmd@ == record_command(self@.max_record_secs, recorder@, self@.wav),
    {
        let limit: u32 = if self.max_record_secs == 0 {
            1
        } else {
            self.max_record_secs
        };
        let cmd = Command::new("timeout").arg(
            text::decimal_text(limit as u64).as_str(),
        ).arg(recorder).raw_arg(path::copy(self.wav.as_slice()));
        assert(cmd@.args =~= record_command(self.max_record_secs, recorder@, self.wav@).args);
        cmd
    }

    fn finish(&mut self) -> (action: Action)
        ensures
            (final(self)@, action@) == old(self)@.finish(),
    {
        if !self.closing {
            self.phase = Phase::Idle;
            return Action::Done;
        }
        match self.playing.take() {
            Some(pid) => {
                self.phase = Phase::KillingPlayback;
                Action::KillAndReap(pid)
            },
            None => {
                self.phase = Phase::RemovingRecording;
                Action::RemoveFile(path::copy(self.wav.as_slice()))
            },
        }
    }

    fn report(&mut self, message: String) -> (action: Action)
        ensures
            (final(self)@, action@) == old(self)@.report(message@),
    {
        self.phase = Phase::Reporting;
        Action::Report(message)
    }

    fn launch(&mut self) -> (action: Action)
        ensures
            (final(self)@, action@) == old(self)@.launch(),
    {
        if self.output == Output::Delayed {
            self.phase = Phase::FindingRecorder;
            Action::FindTools
        } else {
            self.phase = Phase::StartingPactl;
            Action::Run(self.start_pactl())
        }
    }

    /// Switches on. A recording that is still played is cut off first.
    pub fn start(&mut self) -> (action: Action)
        ensures
            (final(self)@, action@) == old(self)@.start(),
            old(self)@.well_formed() ==> final(self)@.well_formed(),
    {
        if self.phase != Phase::Idle || self.active() {
            return Action::Done;
        }
        match self.playing.take() {
            Some(pid) => {
                self.phase = Phase::SilencingPlayback;
                Action::KillAndReap(pid)
            },
            None => self.launch(),
        }
    }

    fn switch_off(&mut self) -> (action: Action)
        ensures
            (final(self)@, action@) == old(self)@.switch_off(),
    {
        let mut state = State::Off;
        std::mem::swap(&mut self.state, &mut state);
        match state {
            State::Off => self.finish(),
            State::PactlModule(id) => {
                self.phase = Phase::UnloadingModule;
                Action::RunQuietly(unload_module(id.as_str()))
            },
            State::PwProcess(pid) => {
                self.phase = Phase::KillingPwLoopback;
                Action::KillAndReap(pid)
            },
            State::Recording(pid) => {
                self.phase = Phase::ClosingRecording;
                Action::TerminateAndReap(pid)
            },
        }
    }

    /// Switches off. What was recorded is then played.
    pub fn stop(&mut self) -> (action: Action)
        ensures
            (final(self)@, action@) == old(self)@.stop(),
            old(self)@.well_formed() ==> final(self)@.well_formed(),
    {
        if self.phase != Phase::Idle {
            return Action::Done;
        }
        self.switch_off()
    }

    /// Closes down: switches off, ends the playback and removes the recording.
    pub fn close(&mut self) -> (action: Action)
        ensures
            (final(self)@, action@) == old(self)@.close(),
            old(self)@.well_formed() ==> final(self)@.well_formed(),
    {
        if self.phase != Phase::Idle {
            return Action::Done;
        }
        self.closing = true;
        self.switch_off()
    }

    /// Switches on or off.
    pub fn set_active(&mut self, active: bool) -> (action: Action)
        ensures
            (final(self)@, action@) == old(self)@.set_active(active),
            old(self)@.well_formed() ==> final(self)@.well_formed(),
    {
        if active {
            self.start()
        } else {
            self.stop()
        }
    }

    /// Goes on when `pactl load-module` has run and printed this, as text.
    pub fn pactl_ran(&mut self, success: bool, stdout: String, stderr: String) -> (action: Action)
        ensures
            (final(self)@, action@) == old(self)@.pactl_ran(success, stdout@, stderr@),
            old(self)@.well_formed() ==> final(self)@.well_formed(),
    {
        if self.phase != Phase::StartingPactl {
            Action::Done
        } else if success {
            self.state = State::PactlModule(stdout);
            self.finish()
        } else {
            self.report("pactl の実行に失敗: ".to_string().concat(stderr.as_str()))
        }
    }

    fn failed(&mut self, not_found: bool, message: String) -> (action: Action)
        ensures
            (final(self)@, action@) == old(self)@.failed(not_found, message@),
    {
        match self.phase {
            Phase::StartingRecorder => if not_found {
                self.report(
                    "parecord も pw-record も見つかりません。pulseaudio-utils か pipewire を導入してください".to_string(),
                )
            } else {
                self.report("録音の開始に失敗: ".to_string().concat(message.as_str()))
            },
            Phase::StartingPactl => if not_found {
                self.phase = Phase::StartingPwLoopback;
                Action::Spawn(self.start_pw_loopback())
            } else {
                self.report("pactl の実行に失敗: ".to_string().concat(message.as_str()))
            },
            Phase::StartingPwLoopback => if not_found {
                self.report(
                    "pactl も pw-loopback も見つかりません。pulseaudio-utils か pipewire を導入してください".to_string(),
                )
            } else {
                self.report("pw-loopback の起動に失敗: ".to_string().concat(message.as_str()))
            },
            Phase::StartingPlayer => self.report(
                "再生の開始に失敗: ".to_string().concat(message.as_str()),
            ),
            _ => Action::Done,
        }
    }

    fn spawned(&mut self, pid: u32) -> (action: Action)
        ensures
            (final(self)@, action@) == old(self)@.spawned(pid),
    {
        match self.phase {
            Phase::StartingRecorder => {
                self.state = State::Recording(pid);
                self.finish()
            },
            Phase::StartingPwLoopback => {
                self.state = State::PwProcess(pid);
                self.finish()
            },
            Phase::StartingPlayer => {
                self.playing = Some(pid);
                self.finish()
            },
            _ => Action::Done,
        }
    }

    fn tools_found(&mut self, parecord: bool, pw_record: bool) -> (action: Action)
        ensures
            (final(self)@, action@) == old(self)@.tools_found(parecord, pw_record),
    {
        let tools = record_tools(parecord, pw_record);
        match self.phase {
            Phase::FindingRecorder => match tools {
                Some((recorder, _)) => {
                    self.phase = Phase::StartingRecorder;
                    Action::Spawn(self.start_record(recorder))
                },
                None => self.report(
                    "parecord も pw-record も見つかりません。pulseaudio-utils か pipewire を導入してください".to_string(),
                ),
            },
            Phase::FindingPlayer => match tools {
                Some((_, player)) => {
                    self.phase = Phase::StartingPlayer;
                    Action::Spawn(player_command(player, self.wav.as_slice()))
                },
                None => self.finish(),
            },
            _ => Action::Done,
        }
    }

    fn done(&mut self) -> (action: Action)
        ensures
            (final(self)@, action@) == old(self)@.done(),
    {
        match self.phase {
            Phase::SilencingPlayback => self.launch(),
            Phase::UnloadingModule | Phase::KillingPwLoopback | Phase::Reporting => self.finish(),
            Phase::ClosingRecording => {
                self.phase = Phase::FindingPlayer;
                Action::FindTools
            },
            Phase::KillingPlayback => {
                self.phase = Phase::RemovingRecording;
                Action::RemoveFile(path::copy(self.wav.as_slice()))
            },
            Phase::RemovingRecording => {
                self.phase = Phase::Idle;
                self.closing = false;
                Action::Done
            },
            _ => Action::Done,
        }
    }

    /// Goes on with what came of the last action.
    pub fn resume(&mut self, reply: Reply) -> (action: Action)
        ensures
            (final(self)@, action@) == old(self)@.resume(reply@),
            old(self)@.well_formed() ==> final(self)@.well_formed(),
            reply@ matches Answer::Ran { success, stdout, stderr } ==> vstd::utf8::valid_utf8(
                stdout,
            ) && vstd::utf8::valid_utf8(stderr) ==> (final(self)@, action@) == old(
                self,
            )@.pactl_ran(
                success,
                text::trimmed(vstd::utf8::decode_utf8(stdout)),
                text::trimmed(vstd::utf8::decode_utf8(stderr)),
            ),
    {
        match reply {
            Reply::Done => self.done(),
            Reply::Tools { parecord, pw_record } => self.tools_found(parecord, pw_record),
            Reply::Ran { success, stdout, stderr } => {
                let out = text::read_printed(stdout.as_slice());
                let err = text::read_printed(stderr.as_slice());
                self.pactl_ran(success, out, err)
            },
            Reply::Spawned(pid) => self.spawned(pid),
            Reply::Failed { not_found, message } => self.failed(not_found, message),
        }
    }

    /// What the hotkey does: switches on or off, or nothing (`None`).
    pub fn on_key(&mut self, mode: Mode, pressed: bool) -> (action: Option<Action>)
        ensures
            match (next_active(mode, pressed, old(self)@.active()), action) {
                (Some(active), Some(action)) => (final(self)@, action@) == old(
                    self,
                )@.set_active(active),
                (None, None) => final(self)@ == old(self)@,
                _ => false,
            },
            old(self)@.well_formed() ==> final(self)@.well_formed(),
    {
        match transition(mode, pressed, self.active()) {
            Some(active) => Some(self.set_active(active)),
            None => None,
        }
    }
}

// ---------------------------------------------------------------------------
// The hotkey
// ---------------------------------------------------------------------------

/// Whether the loopback is to be on after the key went down or came up, if that changes
/// anything.
pub open spec fn next_active(mode: Mode, pressed: bool, active: bool) -> Option<bool> {
    match mode {
        Mode::Hold => Some(pressed),
        Mode::Toggle => if pressed {
            Some(!active)
        } else {
            None
        },
    }
}

/// Decides from a key event whether the loopback is to be on; `None` is no change.
pub fn transition(mode: Mode, pressed: bool, active: bool) -> (next: Option<bool>)
    ensures
        next == next_active(mode, pressed, active),
{
    match (mode, pressed) {
        (Mode::Hold, pressed) => Some(pressed),
        (Mode::Toggle, true) => Some(!active),
        (Mode::Toggle, false) => None,
    }
}

/// What the loopback comes to be under a key event.
pub open spec fn active_after(mode: Mode, pressed: bool, active: bool) -> bool {
    match next_active(mode, pressed, active) {
        Some(next) => next,
        None => active,
    }
}

/// In hold mode the loopback follows the key, whatever it was before.
pub proof fn law_hold_follows_the_key(pressed: bool, active: bool)
    ensures
        active_after(Mode::Hold, pressed, active) == pressed,
{
}

/// In toggle mode a press and its release switch over once; two of them lead back.
pub proof fn law_toggle_flips_per_press(active: bool)
    ensures
        active_after(Mode::Toggle, false, active_after(Mode::Toggle, true, active)) == !active,
        active_after(
            Mode::Toggle,
            true,
            active_after(Mode::Toggle, false, active_after(Mode::Toggle, true, active)),
        ) == active,
{
}

/// What the loopback comes to be under a row of key events.
pub open spec fn active_after_all(mode: Mode, notices: Seq<bool>, active: bool) -> bool
    decreases notices.len(),
{
    if notices.len() == 0 {
        active
    } else {
        active_after(mode, notices.last(), active_after_all(mode, notices.drop_last(), active))
    }
}

/// How often the key went down.
pub open spec fn presses(notices: Seq<bool>) -> nat
    decreases notices.len(),
{
    if notices.len() == 0 {
        0
    } else if notices.last() {
        presses(notices.drop_last()) + 1
    } else {
        presses(notices.drop_last())
    }
}

/// In hold mode the loopback is on exactly if the last that was told is that the key went
/// down.
pub proof fn law_hold_is_on_while_held(notices: Seq<bool>, active: bool)
    requires
        notices.len() > 0,
    ensures
        active_after_all(Mode::Hold, notices, active) == notices.last(),
{
}

/// In toggle mode the loopback changes over with every press: after an odd number of them
/// it is what it was not before.
pub proof fn law_toggle_counts_presses(notices: Seq<bool>, active: bool)
    ensures
        active_after_all(Mode::Toggle, notices, active) == (active != (presses(notices) % 2 == 1)),
    decreases notices.len(),
{
    if notices.len() > 0 {
        law_toggle_counts_presses(notices.drop_last(), active);
    }
}

/// In hold mode letting go of the key always switches off, even when the modifiers were
/// let go first: the listener tells of the release, and the release means off.
pub proof fn law_hold_ends_whatever_is_held(watch: Watch, event: InputEvent, active: bool)
    requires
        event.kind == EV_KEY,
        event.code == watch.key,
        event.value == 0,
    ensures
        watch.notice(event) matches Some(pressed) && !active_after(Mode::Hold, pressed, active),
{
}

// ---------------------------------------------------------------------------
// What always holds
// ---------------------------------------------------------------------------

impl Machine {
    /// An operation that switches on is under way.
    pub open spec fn starting(self) -> bool {
        ||| self.phase == Phase::SilencingPlayback
        ||| self.phase == Phase::FindingRecorder
        ||| self.phase == Phase::StartingRecorder
        ||| self.phase == Phase::StartingPactl
        ||| self.phase == Phase::StartingPwLoopback
    }

    /// An operation that switches off or closes down is under way, or a failure is being
    /// told of.
    pub open spec fn ending(self) -> bool {
        self.phase != Phase::Idle && !self.starting()
    }

    /// While something runs for the loopback, no old recording is played. While an
    /// operation is under way nothing runs yet, or any more. Closing down is an operation.
    pub open spec fn well_formed(self) -> bool {
        &&& self.active() ==> self.playing is None
        &&& self.phase != Phase::Idle ==> !self.active() && self.playing is None
        &&& self.closing ==> self.ending()
        &&& self.phase == Phase::KillingPlayback || self.phase == Phase::RemovingRecording
            ==> self.closing
    }

    pub open spec fn same_settings(self, other: Machine) -> bool {
        &&& self.latency_msec == other.latency_msec
        &&& self.output == other.output
        &&& self.max_record_secs == other.max_record_secs
        &&& self.wav == other.wav
    }

    /// What a row of answers leads to.
    pub open spec fn after_answers(self, answers: Seq<Answer>) -> Machine
        decreases answers.len(),
    {
        if answers.len() == 0 {
            self
        } else {
            self.after_answers(answers.drop_last()).resume(answers.last()).0
        }
    }

    /// Switching on or off, once, with the answers that come in until it is over.
    pub open spec fn switched(self, active: bool, answers: Seq<Answer>) -> (Machine, Step)
        decreases answers.len(),
    {
        if answers.len() == 0 {
            self.set_active(active)
        } else {
            let (m, step) = self.switched(active, answers.drop_last());
            if step is Done {
                (m, step)
            } else {
                m.resume(answers.last())
            }
        }
    }

    /// Each answer that comes in until it is over is of the kind that was asked for.
    pub open spec fn switched_as_asked(self, active: bool, answers: Seq<Answer>) -> bool
        decreases answers.len(),
    {
        answers.len() > 0 ==> {
            let (m, step) = self.switched(active, answers.drop_last());
            &&& self.switched_as_asked(active, answers.drop_last())
            &&& step is Done || m.expects(answers.last())
        }
    }

    /// The processes that the loopback has started and not ended.
    pub open spec fn processes(self) -> Set<u32> {
        let running = match self.state {
            Running::PwProcess(pid) => set![pid],
            Running::Recording(pid) => set![pid],
            _ => Set::empty(),
        };
        match self.playing {
            Some(pid) => running.insert(pid),
            None => running,
        }
    }

    /// The loopback has asked for a program to be started and left running.
    pub open spec fn spawning(self) -> bool {
        ||| self.phase == Phase::StartingRecorder
        ||| self.phase == Phase::StartingPwLoopback
        ||| self.phase == Phase::StartingPlayer
    }

    /// The process that an answer hands over.
    pub open spec fn handed_over(self, answer: Answer) -> Set<u32> {
        match answer {
            Answer::Spawned(pid) => if self.spawning() {
                set![pid]
            } else {
                Set::empty()
            },
            _ => Set::empty(),
        }
    }

    /// The answer is of the kind that was asked for.
    pub open spec fn expects(self, answer: Answer) -> bool {
        match self.phase {
            Phase::Idle => false,
            Phase::FindingRecorder | Phase::FindingPlayer => answer is Tools,
            Phase::StartingPactl => answer is Ran || answer is Failed,
            Phase::StartingRecorder | Phase::StartingPwLoopback | Phase::StartingPlayer => answer
                is Spawned || answer is Failed,
            _ => answer is Done,
        }
    }

    /// How many answers are still to come, at most.
    pub open spec fn answers_left(self) -> nat {
        match self.phase {
            Phase::Idle => 0,
            Phase::RemovingRecording => 1,
            Phase::KillingPlayback => 2,
            Phase::UnloadingModule | Phase::KillingPwLoopback | Phase::Reporting => 3,
            Phase::StartingPlayer => 4,
            Phase::FindingPlayer => 5,
            Phase::ClosingRecording => 6,
            Phase::StartingRecorder | Phase::StartingPwLoopback => 4,
            Phase::FindingRecorder | Phase::StartingPactl => 5,
            Phase::SilencingPlayback => 6,
        }
    }
}

/// Every operation and every answer keeps the loopback well formed and its settings as
/// they are.
pub proof fn law_loopback_stays_well_formed(m: Machine, active: bool, answer: Answer)
    requires
        m.well_formed(),
    ensures
        m.set_active(active).0.well_formed(),
        m.set_active(active).0.same_settings(m),
        m.close().0.well_formed(),
        m.close().0.same_settings(m),
        m.resume(answer).0.well_formed(),
        m.resume(answer).0.same_settings(m),
{
}

/// No process is lost. What ran before, together with what is handed over, is what runs
/// after, together with what the step ends: nothing is started without being kept track
/// of, nothing is forgotten without being ended, and nothing else is ended.
pub proof fn law_no_process_is_lost(m: Machine, active: bool, answer: Answer)
    requires
        m.well_formed(),
    ensures
        ({
            let (after, step) = m.set_active(active);
            m.processes() =~= after.processes().union(step.ends())
        }),
        ({
            let (after, step) = m.close();
            m.processes() =~= after.processes().union(step.ends())
        }),
        ({
            let (after, step) = m.resume(answer);
            m.processes().union(m.handed_over(answer)) =~= after.processes().union(step.ends())
        }),
{
}

/// Every operation comes to its end: each answer to what was asked leaves fewer to come.
/// The last step of an operation is `Done`, and it comes when nothing is waited for.
pub proof fn law_operations_end(m: Machine, answer: Answer)
    requires
        m.well_formed(),
        m.expects(answer),
    ensures
        m.resume(answer).0.answers_left() < m.answers_left() <= 6,
        m.resume(answer).1 == Step::Done <==> m.resume(answer).0.phase == Phase::Idle,
{
}

/// Switching on what is already on asks for nothing and changes nothing.
pub proof fn law_start_when_on_does_nothing(m: Machine)
    requires
        m.active(),
    ensures
        m.start() == (m, Step::Done),
{
}

/// Stopping switches off at once, and nothing that comes of it switches on again.
pub proof fn law_stop_switches_off(m: Machine, answer: Answer)
    requires
        m.well_formed(),
    ensures
        m.phase == Phase::Idle ==> !m.stop().0.active() && !m.stop().0.starting(),
        m.ending() ==> !m.resume(answer).0.active() && !m.resume(answer).0.starting(),
{
}

/// Once stopped, the loopback stays off, whatever answers come in, until it is started
/// again.
pub proof fn law_stopped_stays_off(m: Machine, answers: Seq<Answer>)
    requires
        m.well_formed(),
        m.phase == Phase::Idle,
    ensures
        !m.stop().0.after_answers(answers).active(),
        !m.stop().0.after_answers(answers).starting(),
        m.stop().0.after_answers(answers).well_formed(),
    decreases answers.len(),
{
    if answers.len() > 0 {
        law_stopped_stays_off(m, answers.drop_last());
    }
}

/// Switching on or off comes to its end: six answers to what was asked are enough. It is
/// over when nothing is waited for, and switching off leaves the loopback off.
pub proof fn law_switching_ends(m: Machine, active: bool, answers: Seq<Answer>)
    requires
        m.well_formed(),
        m.phase == Phase::Idle,
        m.switched_as_asked(active, answers),
    ensures
        ({
            let (end, step) = m.switched(active, answers);
            &&& end.well_formed()
            &&& step is Done <==> end.phase == Phase::Idle
            &&& answers.len() >= 6 ==> step is Done
            &&& !(step is Done) ==> end.answers_left() + answers.len() <= 6
            &&& !active ==> !end.active() && !end.starting()
        }),
    decreases answers.len(),
{
    if answers.len() > 0 {
        law_switching_ends(m, active, answers.drop_last());
        let (before, step) = m.switched(active, answers.drop_last());
        if !(step is Done) {
            law_operations_end(before, answers.last());
            law_stop_switches_off(before, answers.last());
            law_loopback_stays_well_formed(before, active, answers.last());
        }
    }
}

/// What `pactl` loaded is what `pactl` is told to unload.
pub proof fn law_loaded_module_is_unloaded(m: Machine, id: Seq<char>, stderr: Seq<char>)
    requires
        m.well_formed(),
        m.phase == Phase::StartingPactl,
    ensures
        m.pactl_ran(true, id, stderr).1 == Step::Done,
        m.pactl_ran(true, id, stderr).0.stop().1 == Step::RunQuietly(unload_command(id)),
{
}

/// Stopping what is off asks for nothing and changes nothing.
pub proof fn law_stop_when_off_does_nothing(m: Machine)
    requires
        m.well_formed(),
        m.phase == Phase::Idle,
        !m.active(),
    ensures
        m.stop() == (m, Step::Done),
{
}

/// Switching on ends in being on exactly if a backend or a recorder came up.
pub proof fn law_start_succeeds_with_its_program(m: Machine, answer: Answer)
    requires
        m.well_formed(),
        m.starting(),
        m.expects(answer),
    ensures
        m.resume(answer).0.active() <==> {
            ||| answer is Spawned
            ||| answer matches Answer::Ran { success, .. } && success
        },
{
}

/// `pw-loopback` is turned to exactly when there is no `pactl`.
pub proof fn law_pw_loopback_only_without_pactl(m: Machine, answer: Answer)
    requires
        m.well_formed(),
        m.phase == Phase::StartingPactl,
        m.expects(answer),
    ensures
        m.resume(answer).0.phase == Phase::StartingPwLoopback <==> (answer matches Answer::Failed {
            not_found,
            ..
        } && not_found),
{
}

/// A recording is never killed: it is asked to end, so that its file is closed properly.
/// It is played after that, by the player that goes with the installed recorder.
pub proof fn law_recording_is_closed_and_played(
    m: Machine,
    pid: u32,
    parecord: bool,
    pw_record: bool,
)
    requires
        m.well_formed(),
        m.phase == Phase::Idle,
        m.state == Running::Recording(pid),
    ensures
        m.stop().1 == Step::TerminateAndReap(pid),
        m.stop().0.resume(Answer::Done).1 == Step::FindTools,
        crate::process::recording_tools(parecord, pw_record) matches Some((_, player))
            ==> m.stop().0.resume(Answer::Done).0.resume(
            Answer::Tools { parecord, pw_record },
        ).1 == Step::Spawn(play_command(player, m.wav)),
{
}

/// Every recorder is started under a limit that is above zero, and that is the one set
/// wherever one is set.
pub proof fn law_recordings_are_limited(m: Machine, parecord: bool, pw_record: bool)
    requires
        m.phase == Phase::FindingRecorder,
    ensures
        m.tools_found(parecord, pw_record).1 matches Step::Spawn(command) ==> {
            &&& command.program == "timeout"@
            &&& command.args[0] == vstd::utf8::encode_utf8(
                text::decimal(record_limit(m.max_record_secs) as nat),
            )
        },
        record_limit(m.max_record_secs) > 0,
        m.max_record_secs > 0 ==> record_limit(m.max_record_secs) == m.max_record_secs,
{
}

/// When closing down has come to its end, nothing runs any more and the recording has
/// been removed.
pub proof fn law_closing_leaves_nothing(m: Machine, answer: Answer)
    requires
        m.well_formed(),
        m.closing,
        m.expects(answer),
    ensures
        m.resume(answer).1 == Step::Done ==> {
            &&& m.phase == Phase::RemovingRecording
            &&& m.resume(answer).0.processes() == Set::<u32>::empty()
            &&& m.resume(answer).0.state == Running::Off
        },
        m.resume(answer).0.phase == Phase::RemovingRecording ==> m.resume(answer).1
            == Step::RemoveFile(m.wav),
        m.resume(answer).1 != Step::Done ==> m.resume(answer).0.closing,
{
}

// ---------------------------------------------------------------------------
// What holds of switching on
// ---------------------------------------------------------------------------

/// What a key event means, for every mode and state: holding follows the key; toggling
/// changes over when the key goes down and does nothing when it comes up.
pub proof fn law_key_events(pressed: bool, active: bool)
    ensures
        next_active(Mode::Hold, pressed, active) == Some(pressed),
        next_active(Mode::Toggle, true, active) == Some(!active),
        next_active(Mode::Toggle, false, active) is None,
{
}

/// A new loopback has the settings it was given, is off, plays nothing and waits for
/// nothing.
pub proof fn law_new_loopback_is_off(cfg: Settings, wav: Seq<u8>)
    ensures
        ({
            let m = Machine::off(cfg, wav);
            &&& m.latency_msec == cfg.latency_msec
            &&& m.output == cfg.output
            &&& m.max_record_secs == cfg.max_record_secs
            &&& m.wav == wav
            &&& m.state == Running::Off
            &&& !m.active()
            &&& m.playing is None
            &&& m.phase == Phase::Idle
            &&& !m.closing
        }),
{
}

/// The loopback is on exactly if something runs for it.
pub proof fn law_on_means_something_runs(m: Machine)
    ensures
        m.active() <==> m.state is PactlModule || m.state is PwProcess || m.state is Recording,
{
}

/// Where the loopback runs in real time, `pactl` is told to load it with the latency that
/// was set, in decimal.
pub proof fn law_pactl_gets_the_latency(m: Machine)
    requires
        m.phase == Phase::Idle,
        !m.active(),
        m.playing is None,
        m.output == Output::Realtime,
    ensures
        m.start().0 == (Machine { phase: Phase::StartingPactl, ..m }),
        m.start().1 matches Step::Run(command) && {
            let setting = vstd::utf8::decode_utf8(command.args[2]);
            let number = setting.skip("latency_msec="@.len() as int);
            &&& command.program == "pactl"@
            &&& command.args.len() == 3
            &&& command.args[0] == vstd::utf8::encode_utf8("load-module"@)
            &&& command.args[1] == vstd::utf8::encode_utf8("module-loopback"@)
            &&& setting == "latency_msec="@ + number
            &&& number.len() > 0
            &&& forall|i: int| 0 <= i < number.len() ==> '0' <= #[trigger] number[i] <= '9'
            &&& number.len() > 1 ==> number[0] != '0'
            &&& text::digits_value(number) == m.latency_msec
        },
{
    broadcast use vstd::utf8::encode_utf8_decode_utf8;

    text::law_decimal_stands_for_its_number(m.latency_msec as nat, 0);
    let number = text::decimal(m.latency_msec as nat);
    assert(("latency_msec="@ + number).skip("latency_msec="@.len() as int) =~= number);
}

/// Where there is no `pactl`, `pw-loopback` is started with the latency that was set, in
/// decimal; so two different latencies never give the same command.
pub proof fn law_pw_loopback_gets_the_latency(m: Machine, message: Seq<char>)
    requires
        m.phase == Phase::StartingPactl,
    ensures
        ({
            let (after, step) = m.resume(Answer::Failed { not_found: true, message });
            &&& after == (Machine { phase: Phase::StartingPwLoopback, ..m })
            &&& step matches Step::Spawn(command) && {
                let number = vstd::utf8::decode_utf8(command.args[3]);
                &&& command.program == "pw-loopback"@
                &&& command.args.len() == 4
                &&& command.args[0] == vstd::utf8::encode_utf8("-n"@)
                &&& command.args[1] == vstd::utf8::encode_utf8("micloop"@)
                &&& command.args[2] == vstd::utf8::encode_utf8("-l"@)
                &&& number.len() > 0
                &&& forall|i: int| 0 <= i < number.len() ==> '0' <= #[trigger] number[i] <= '9'
                &&& number.len() > 1 ==> number[0] != '0'
                &&& text::digits_value(number) == m.latency_msec
            }
        }),
{
    broadcast use vstd::utf8::encode_utf8_decode_utf8;

    text::law_decimal_stands_for_its_number(m.latency_msec as nat, 0);
}

/// Two loopbacks whose latencies differ never give the same command to either backend.
pub proof fn law_latency_makes_a_difference(m: Machine, n: Machine, message: Seq<char>)
    requires
        m.latency_msec != n.latency_msec,
        m.phase == Phase::StartingPactl,
        n.phase == Phase::StartingPactl,
    ensures
        m.resume(Answer::Failed { not_found: true, message }).1 != n.resume(
            Answer::Failed { not_found: true, message },
        ).1,
        m.launch().1 == n.launch().1 ==> m.output == Output::Delayed,
{
    broadcast use vstd::utf8::encode_utf8_decode_utf8;

    law_pw_loopback_gets_the_latency(m, message);
    law_pw_loopback_gets_the_latency(n, message);
    if m.output == Output::Realtime && m.launch().1 == n.launch().1 {
        let a = Machine { phase: Phase::Idle, state: Running::Off, playing: None, ..m };
        let b = Machine { phase: Phase::Idle, state: Running::Off, playing: None, ..n };
        assert(n.output == Output::Realtime);
        law_pactl_gets_the_latency(a);
        law_pactl_gets_the_latency(b);
        assert(a.start().1 == m.launch().1);
        assert(b.start().1 == n.launch().1);
    }
}

/// A recording that is still played is cut off before anything is started; after that it
/// goes on as if nothing had been played.
pub proof fn law_playback_is_cut_off_first(m: Machine, pid: u32)
    requires
        m.phase == Phase::Idle,
        !m.active(),
        m.playing == Some(pid),
    ensures
        m.start().1 == Step::KillAndReap(pid),
        m.start().0.playing is None,
        m.start().0.resume(Answer::Done) == (Machine { playing: None, ..m }).start(),
{
}

/// Where the output is delayed, a recorder is looked for, and nothing of the real-time
/// loopback is started. The recorder found is started under the time limit that was set,
/// in decimal seconds, and writes to the file of the recording.
pub proof fn law_recorder_is_started(m: Machine, parecord: bool, pw_record: bool)
    requires
        m.phase == Phase::Idle,
        !m.active(),
        m.playing is None,
        m.output == Output::Delayed,
    ensures
        m.start().1 == Step::FindTools,
        ({
            let (after, step) = m.start().0.resume(Answer::Tools { parecord, pw_record });
            &&& parecord || pw_record ==> after == (Machine { phase: Phase::StartingRecorder, ..m })
            &&& parecord || pw_record ==> (step matches Step::Spawn(command) && {
                let number = vstd::utf8::decode_utf8(command.args[0]);
                &&& command.program == "timeout"@
                &&& command.args.len() == 3
                &&& forall|i: int| 0 <= i < number.len() ==> '0' <= #[trigger] number[i] <= '9'
                &&& text::digits_value(number) > 0
                &&& m.max_record_secs > 0 ==> text::digits_value(number) == m.max_record_secs
                &&& m.max_record_secs == 0 ==> text::digits_value(number) == 1
                &&& parecord ==> command.args[1] == vstd::utf8::encode_utf8("parecord"@)
                &&& !parecord ==> command.args[1] == vstd::utf8::encode_utf8("pw-record"@)
                &&& command.args[2] == m.wav
            })
            &&& !parecord && !pw_record ==> step == Step::Report(
                "parecord も pw-record も見つかりません。pulseaudio-utils か pipewire を導入してください"@,
            ) && !after.active()
        }),
{
    broadcast use vstd::utf8::encode_utf8_decode_utf8;

    text::law_decimal_stands_for_its_number(record_limit(m.max_record_secs) as nat, 0);
}

/// What has been started is what runs: the process that came up, or the module under the
/// id that `pactl` printed. Nothing else of the loopback changes, and it is over.
pub proof fn law_what_came_up_runs(
    m: Machine,
    pid: u32,
    stdout: Seq<u8>,
    stderr: Seq<u8>,
)
    requires
        !m.closing,
    ensures
        m.phase == Phase::StartingRecorder ==> m.resume(Answer::Spawned(pid)) == (
            Machine { state: Running::Recording(pid), phase: Phase::Idle, ..m },
            Step::Done,
        ),
        m.phase == Phase::StartingPwLoopback ==> m.resume(Answer::Spawned(pid)) == (
            Machine { state: Running::PwProcess(pid), phase: Phase::Idle, ..m },
            Step::Done,
        ),
        m.phase == Phase::StartingPlayer ==> m.resume(Answer::Spawned(pid)) == (
            Machine { playing: Some(pid), phase: Phase::Idle, ..m },
            Step::Done,
        ),
        m.phase == Phase::StartingPactl ==> m.resume(
            Answer::Ran { success: true, stdout, stderr },
        ) == (
            Machine {
                state: Running::PactlModule(text::trimmed(text::lossy_text(stdout))),
                phase: Phase::Idle,
                ..m
            },
            Step::Done,
        ),
{
}

/// What fails is told in full, and leaves the loopback off: which program it was, and what
/// it or the system said. Once told, it is over.
pub proof fn law_failures_are_told(
    m: Machine,
    not_found: bool,
    message: Seq<char>,
    stdout: Seq<u8>,
    stderr: Seq<u8>,
)
    requires
        m.well_formed(),
        !m.closing,
    ensures
        ({
            let (after, step) = m.resume(Answer::Failed { not_found, message });
            &&& m.phase == Phase::StartingPactl && !not_found ==> step == Step::Report(
                "pactl の実行に失敗: "@ + message,
            )
            &&& m.phase == Phase::StartingPwLoopback && !not_found ==> step == Step::Report(
                "pw-loopback の起動に失敗: "@ + message,
            )
            &&& m.phase == Phase::StartingPwLoopback && not_found ==> step == Step::Report(
                "pactl も pw-loopback も見つかりません。pulseaudio-utils か pipewire を導入してください"@,
            )
            &&& m.phase == Phase::StartingRecorder && !not_found ==> step == Step::Report(
                "録音の開始に失敗: "@ + message,
            )
            &&& m.phase == Phase::StartingRecorder && not_found ==> step == Step::Report(
                "parecord も pw-record も見つかりません。pulseaudio-utils か pipewire を導入してください"@,
            )
            &&& m.phase == Phase::StartingPlayer ==> step == Step::Report(
                "再生の開始に失敗: "@ + message,
            )
            &&& step is Report ==> !after.active() && after.resume(Answer::Done) == (
                Machine { phase: Phase::Idle, ..m },
                Step::Done,
            )
        }),
        m.phase == Phase::StartingPactl ==> {
            let (after, step) = m.resume(Answer::Ran { success: false, stdout, stderr });
            &&& step == Step::Report(
                "pactl の実行に失敗: "@ + text::trimmed(text::lossy_text(stderr)),
            )
            &&& !after.active()
            &&& after.resume(Answer::Done) == (Machine { phase: Phase::Idle, ..m }, Step::Done)
        },
{
}

/// An answer to something that was not asked changes nothing and asks for nothing.
pub proof fn law_stray_answers_change_nothing(m: Machine, answer: Answer)
    requires
        !m.expects(answer),
    ensures
        m.resume(answer) == (m, Step::Done),
{
}

// ---------------------------------------------------------------------------
// What holds of switching off
// ---------------------------------------------------------------------------

/// Switching off ends what runs, by the means that fit it: the module is unloaded under
/// the very id it was loaded with, `pw-loopback` is killed, and a recorder is asked to end.
/// Settings stay as they are.
pub proof fn law_stop_ends_what_runs(m: Machine, pid: u32, id: Seq<char>)
    requires
        m.phase == Phase::Idle,
        !m.closing,
    ensures
        !m.stop().0.active(),
        m.stop().0.same_settings(m),
        m.state == Running::PactlModule(id) ==> {
            &&& m.stop().1 matches Step::RunQuietly(command) && command.program == "pactl"@
                && command.args.len() == 2 && command.args[0] == vstd::utf8::encode_utf8(
                "unload-module"@,
            ) && vstd::utf8::decode_utf8(command.args[1]) == id
            &&& m.stop().0.resume(Answer::Done) == (
                Machine { state: Running::Off, ..m },
                Step::Done,
            )
        },
        m.state == Running::PwProcess(pid) ==> {
            &&& m.stop().1 == Step::KillAndReap(pid)
            &&& m.stop().0.resume(Answer::Done) == (
                Machine { state: Running::Off, ..m },
                Step::Done,
            )
        },
        m.state == Running::Recording(pid) ==> m.stop().1 == Step::TerminateAndReap(pid),
        m.state == Running::Off ==> m.stop() == (m, Step::Done),
{
    broadcast use vstd::utf8::encode_utf8_decode_utf8;

}

/// A recording that has ended is played, from its file, by the player that goes with the
/// recorder; where there is no player, it is over.
pub proof fn law_recording_is_played(m: Machine, pid: u32, parecord: bool, pw_record: bool)
    requires
        m.phase == Phase::Idle,
        !m.closing,
        m.state == Running::Recording(pid),
    ensures
        ({
            let ended = m.stop().0.resume(Answer::Done);
            let (after, step) = ended.0.resume(Answer::Tools { parecord, pw_record });
            &&& ended.1 == Step::FindTools
            &&& parecord || pw_record ==> (step matches Step::Spawn(command) && {
                &&& parecord ==> command.program == "paplay"@
                &&& !parecord ==> command.program == "pw-play"@
                &&& command.args == seq![m.wav]
            })
            &&& !parecord && !pw_record ==> after == (Machine { state: Running::Off, ..m }) && step
                == Step::Done
        }),
{
}

/// Closing down goes through it all, in this order: what runs is ended, then the playback,
/// and at last the file of the recording is removed; then nothing is waited for.
pub proof fn law_closing_goes_through(m: Machine, pid: u32, id: Seq<char>)
    requires
        m.phase == Phase::Idle,
        !m.closing,
    ensures
        m.state == Running::PwProcess(pid) ==> m.close().1 == Step::KillAndReap(pid),
        m.state == Running::Recording(pid) ==> m.close().1 == Step::TerminateAndReap(pid),
        m.state == Running::PactlModule(id) ==> m.close().1 == m.stop().1,
        m.state == Running::Off && m.playing == Some(pid) ==> {
            let (killing, kill) = m.close();
            let (removing, remove) = killing.resume(Answer::Done);
            &&& kill == Step::KillAndReap(pid)
            &&& remove == Step::RemoveFile(m.wav)
            &&& removing.resume(Answer::Done) == (Machine { playing: None, ..m }, Step::Done)
        },
        m.state == Running::Off && m.playing is None ==> {
            let (removing, remove) = m.close();
            &&& remove == Step::RemoveFile(m.wav)
            &&& removing.resume(Answer::Done) == (m, Step::Done)
        },
        m.state == Running::PwProcess(pid) && m.playing is None ==> {
            let (removing, remove) = m.close().0.resume(Answer::Done);
            &&& remove == Step::RemoveFile(m.wav)
            &&& removing.resume(Answer::Done) == (
                Machine { state: Running::Off, ..m },
                Step::Done,
            )
        },
        m.state == Running::PactlModule(id) && m.playing is None ==> {
            let (removing, remove) = m.close().0.resume(Answer::Done);
            &&& remove == Step::RemoveFile(m.wav)
            &&& removing.resume(Answer::Done) == (
                Machine { state: Running::Off, ..m },
                Step::Done,
            )
        },
{
}

/// Nothing new is begun before what was asked for is answered.
pub proof fn law_one_operation_at_a_time(m: Machine, active: bool)
    requires
        m.phase != Phase::Idle,
    ensures
        m.start() == (m, Step::Done),
        m.stop() == (m, Step::Done),
        m.close() == (m, Step::Done),
        m.set_active(active) == (m, Step::Done),
{
}

/// To be on is to be started, to be off is to be stopped.
pub proof fn law_set_active(m: Machine)
    ensures
        m.set_active(true) == m.start(),
        m.set_active(false) == m.stop(),
{
}

/// The recording is kept as `micloop.wav` in the directory that `XDG_RUNTIME_DIR` names,
/// and among the temporary files only where it is not set.
pub proof fn law_wav_file(dir: &[u8], temp_dir: &[u8])
    ensures
        wav_file(Some(dir), temp_dir) == path::joined(dir@, "micloop.wav".spec_bytes()),
        wav_file(None, temp_dir) == path::joined(temp_dir@, "micloop.wav".spec_bytes()),
        dir@.len() > 0 && dir@.last() != 47 ==> wav_file(Some(dir), temp_dir) == dir@
            + seq![47u8] + "micloop.wav".spec_bytes(),
        temp_dir@.len() > 0 && temp_dir@.last() != 47 ==> wav_file(None, temp_dir) == temp_dir@
            + seq![47u8] + "micloop.wav".spec_bytes(),
{
    path::lemma_literal_parts();
}

/// A recording that is cut short by closing down is ended like any other, and the player
/// that was started for it is killed, before its file is removed.
pub proof fn law_closing_a_recording(
    m: Machine,
    pid: u32,
    player: u32,
    parecord: bool,
    pw_record: bool,
)
    requires
        m.phase == Phase::Idle,
        !m.closing,
        m.playing is None,
        m.state == Running::Recording(pid),
    ensures
        ({
            let (finding, find) = m.close().0.resume(Answer::Done);
            let (starting, spawn) = finding.resume(Answer::Tools { parecord, pw_record });
            let (killing, kill) = starting.resume(Answer::Spawned(player));
            let (removing, remove) = killing.resume(Answer::Done);
            &&& find == Step::FindTools
            &&& parecord || pw_record ==> {
                &&& spawn is Spawn
                &&& kill == Step::KillAndReap(player)
                &&& remove == Step::RemoveFile(m.wav)
                &&& removing.resume(Answer::Done) == (
                    Machine { state: Running::Off, ..m },
                    Step::Done,
                )
            }
            &&& !parecord && !pw_record ==> {
                &&& spawn == Step::RemoveFile(m.wav)
                &&& starting.resume(Answer::Done) == (
                    Machine { state: Running::Off, ..m },
                    Step::Done,
                )
            }
        }),
{
}

/// A player that fails while the loopback closes down is told of, and the recording is
/// removed all the same.
pub proof fn law_closing_goes_on_after_a_failure(m: Machine, not_found: bool, message: Seq<char>)
    requires
        m.well_formed(),
        m.closing,
        m.phase == Phase::StartingPlayer,
    ensures
        ({
            let (reporting, report) = m.resume(Answer::Failed { not_found, message });
            let (removing, remove) = reporting.resume(Answer::Done);
            &&& report == Step::Report("再生の開始に失敗: "@ + message)
            &&& remove == Step::RemoveFile(m.wav)
            &&& removing.resume(Answer::Done) == (
                Machine { phase: Phase::Idle, closing: false, ..m },
                Step::Done,
            )
        }),
{
}

} // verus!
