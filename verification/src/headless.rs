//! Running in the foreground, without a tray.

use vstd::prelude::*;
use vstd::string::*;

use crate::config::{Config, Mode, Modifier, Output, Settings};

verus! {

/// What the command line sets in place of the settings file.
#[derive(Debug, PartialEq)]
pub struct Overrides {
    pub mode: Option<Mode>,
    pub key: Option<String>,
    /// None given is no override.
    pub modifiers: Vec<Modifier>,
    pub output: Option<Output>,
}

impl Overrides {
    /// The settings with what the command line sets.
    pub open spec fn over(self, cfg: Settings) -> Settings {
        Settings {
            mode: crate::config::or_default(self.mode, cfg.mode),
            key: crate::config::or_default(crate::config::optional_text(self.key), cfg.key),
            modifiers: if self.modifiers@.len() > 0 {
                self.modifiers@
            } else {
                cfg.modifiers
            },
            output: crate::config::or_default(self.output, cfg.output),
            ..cfg
        }
    }
}

/// Puts what the command line sets in place of what the settings file says.
pub fn apply_overrides(cfg: Config, overrides: Overrides) -> (result: Config)
    ensures
        result@ == overrides.over(cfg@),
        overrides.mode matches Some(mode) ==> result.mode == mode,
        overrides.mode is None ==> result.mode == cfg.mode,
        overrides.key matches Some(key) ==> result.key@ == key@,
        overrides.key is None ==> result.key@ == cfg.key@,
        overrides.modifiers@.len() > 0 ==> result.modifiers@ == overrides.modifiers@,
        overrides.modifiers@.len() == 0 ==> result.modifiers@ == cfg.modifiers@,
        overrides.output matches Some(output) ==> result.output == output,
        overrides.output is None ==> result.output == cfg.output,
{
    let mut result = cfg;
    if let Some(mode) = overrides.mode {
        result.mode = mode;
    }
    if let Some(key) = overrides.key {
        result.key = key;
    }
    if overrides.modifiers.len() > 0 {
        result.modifiers = overrides.modifiers;
    }
    if let Some(output) = overrides.output {
        result.output = output;
    }
    result
}

pub open spec fn banner_text(cfg: Settings) -> Seq<char> {
    crate::config::hotkey_text(cfg.modifiers, cfg.key) + " を監視中 ("@ + cfg.mode.spec_name()
        + " モード)"@
}

/// What is printed when the watch begins.
pub fn watch_banner(cfg: &Config) -> (banner: String)
    ensures
        banner@ == banner_text(cfg@),
{
    cfg.hotkey_label().concat(" を監視中 (").concat(cfg.mode.name()).concat(" モード)")
}

// ---------------------------------------------------------------------------
// The run
// ---------------------------------------------------------------------------

/// The pause between two looks whether the process was told to end, in milliseconds.
pub const WATCH_PAUSE_MSEC: u64 = 300;

/// How far the run has come: what is being done.
#[derive(Clone, Copy, Debug, PartialEq, Eq, Structural)]
pub enum HeadlessPhase {
    StartingListener,
    Reporting,
    Claiming,
    CatchingSignals,
    Watching,
    StoppingListener,
    StoppingLoopback,
    Releasing,
    Ended(i32),
}

/// What is to be done next.
#[derive(Debug, PartialEq)]
pub enum HeadlessAction {
    /// Watch for the hotkey.
    StartListener,
    /// Tell the user what failed.
    Report(String),
    /// Take the place of the instance that runs.
    Claim,
    /// Have SIGTERM and SIGINT noticed.
    CatchSignals,
    /// Tell the user.
    Tell(String),
    /// Wait for as many milliseconds.
    Sleep(u64),
    StopListener,
    StopLoopback,
    /// Give the place back.
    Release,
    /// End with this exit code.
    Exit(i32),
}

#[verifier::ext_equal]
pub enum HeadlessStep {
    StartListener,
    Report(Seq<char>),
    Claim,
    CatchSignals,
    Tell(Seq<char>),
    Sleep(u64),
    StopListener,
    StopLoopback,
    Release,
    Exit(i32),
}

impl View for HeadlessAction {
    type V = HeadlessStep;

    open spec fn view(&self) -> HeadlessStep {
        match self {
            HeadlessAction::StartListener => HeadlessStep::StartListener,
            HeadlessAction::Report(message) => HeadlessStep::Report(message@),
            HeadlessAction::Claim => HeadlessStep::Claim,
            HeadlessAction::CatchSignals => HeadlessStep::CatchSignals,
            HeadlessAction::Tell(message) => HeadlessStep::Tell(message@),
            HeadlessAction::Sleep(msec) => HeadlessStep::Sleep(*msec),
            HeadlessAction::StopListener => HeadlessStep::StopListener,
            HeadlessAction::StopLoopback => HeadlessStep::StopLoopback,
            HeadlessAction::Release => HeadlessStep::Release,
            HeadlessAction::Exit(code) => HeadlessStep::Exit(*code),
        }
    }
}

/// A run in the foreground, step by step.
#[derive(Debug, PartialEq)]
pub struct Headless {
    pub banner: String,
    pub phase: HeadlessPhase,
}

#[verifier::ext_equal]
pub struct Run {
    pub banner: Seq<char>,
    pub phase: HeadlessPhase,
}

impl View for Headless {
    type V = Run;

    open spec fn view(&self) -> Run {
        Run { banner: self.banner@, phase: self.phase }
    }
}

impl Run {
    /// The run before its first step.
    pub open spec fn start(cfg: Settings) -> Run {
        Run { banner: banner_text(cfg), phase: HeadlessPhase::StartingListener }
    }

    pub open spec fn to(self, phase: HeadlessPhase, step: HeadlessStep) -> (Run, HeadlessStep) {
        (Run { phase, ..self }, step)
    }

    /// What follows when the last action is done: it may have failed, and the process may
    /// have been told to end. A failure counts only where the listener is started, and
    /// being told to end only while the hotkey is watched for.
    pub open spec fn after(self, failure: Option<Seq<char>>, terminated: bool) -> (
        Run,
        HeadlessStep,
    ) {
        match self.phase {
            HeadlessPhase::StartingListener => match failure {
                Some(message) => self.to(HeadlessPhase::Reporting, HeadlessStep::Report(message)),
                None => self.to(HeadlessPhase::Claiming, HeadlessStep::Claim),
            },
            HeadlessPhase::Reporting => self.to(HeadlessPhase::Ended(1), HeadlessStep::Exit(1)),
            HeadlessPhase::Claiming => self.to(
                HeadlessPhase::CatchingSignals,
                HeadlessStep::CatchSignals,
            ),
            HeadlessPhase::CatchingSignals => self.to(
                HeadlessPhase::Watching,
                HeadlessStep::Tell(self.banner),
            ),
            HeadlessPhase::Watching => if terminated {
                self.to(HeadlessPhase::StoppingListener, HeadlessStep::StopListener)
            } else {
                self.to(HeadlessPhase::Watching, HeadlessStep::Sleep(WATCH_PAUSE_MSEC))
            },
            HeadlessPhase::StoppingListener => self.to(
                HeadlessPhase::StoppingLoopback,
                HeadlessStep::StopLoopback,
            ),
            HeadlessPhase::StoppingLoopback => self.to(
                HeadlessPhase::Releasing,
                HeadlessStep::Release,
            ),
            HeadlessPhase::Releasing => self.to(HeadlessPhase::Ended(0), HeadlessStep::Exit(0)),
            HeadlessPhase::Ended(code) => self.to(
                HeadlessPhase::Ended(code),
                HeadlessStep::Exit(code),
            ),
        }
    }
}

impl Headless {
    fn to(&mut self, phase: HeadlessPhase, action: HeadlessAction) -> (result: HeadlessAction)
        ensures
            (final(self)@, result@) == old(self)@.to(phase, action@),
    {
        self.phase = phase;
        action
    }

    /// Takes what came of the last action: what failed, if anything did, and whether the
    /// process was told to end.
    pub fn resume(&mut self, failure: Option<String>, terminated: bool) -> (action: HeadlessAction)
        ensures
            (final(self)@, action@) == old(self)@.after(
                crate::config::optional_text(failure),
                terminated,
            ),
    {
        match self.phase {
            HeadlessPhase::StartingListener => match failure {
                Some(message) => self.to(HeadlessPhase::Reporting, HeadlessAction::Report(message)),
                None => self.to(HeadlessPhase::Claiming, HeadlessAction::Claim),
            },
            HeadlessPhase::Reporting => self.to(HeadlessPhase::Ended(1), HeadlessAction::Exit(1)),
            HeadlessPhase::Claiming => self.to(
                HeadlessPhase::CatchingSignals,
                HeadlessAction::CatchSignals,
            ),
            HeadlessPhase::CatchingSignals => {
                let banner = self.banner.clone();
                self.to(HeadlessPhase::Watching, HeadlessAction::Tell(banner))
            },
            HeadlessPhase::Watching => if terminated {
                self.to(HeadlessPhase::StoppingListener, HeadlessAction::StopListener)
            } else {
                self.to(HeadlessPhase::Watching, HeadlessAction::Sleep(WATCH_PAUSE_MSEC))
            },
            HeadlessPhase::StoppingListener => self.to(
                HeadlessPhase::StoppingLoopback,
                HeadlessAction::StopLoopback,
            ),
            HeadlessPhase::StoppingLoopback => self.to(
                HeadlessPhase::Releasing,
                HeadlessAction::Release,
            ),
            HeadlessPhase::Releasing => self.to(HeadlessPhase::Ended(0), HeadlessAction::Exit(0)),
            HeadlessPhase::Ended(code) => self.to(
                HeadlessPhase::Ended(code),
                HeadlessAction::Exit(code),
            ),
        }
    }
}

/// Runs in the foreground: the settings in force, from those stored and what the command
/// line sets, and the first step. [`Headless::resume`] goes on from there.
pub fn run_headless(cfg: Config, overrides: Overrides) -> (r: (Config, Headless, HeadlessAction))
    ensures
        r.0@ == overrides.over(cfg@),
        r.1@ == Run::start(overrides.over(cfg@)),
        r.2@ == HeadlessStep::StartListener,
{
    let cfg = apply_overrides(cfg, overrides);
    let headless = Headless { banner: watch_banner(&cfg), phase: HeadlessPhase::StartingListener };
    (cfg, headless, HeadlessAction::StartListener)
}

// ---------------------------------------------------------------------------
// What always holds
// ---------------------------------------------------------------------------

/// What came of an action: what failed, if anything did, and whether the process was told
/// to end.
pub struct Answer {
    pub failure: Option<Seq<char>>,
    pub terminated: bool,
}

impl Run {
    pub open spec fn after_answers(self, answers: Seq<Answer>) -> Run
        decreases answers.len(),
    {
        if answers.len() == 0 {
            self
        } else {
            let answer = answers.last();
            self.after_answers(answers.drop_last()).after(answer.failure, answer.terminated).0
        }
    }
}

/// Where the hotkey cannot be watched for, the instance that runs is left alone: the
/// failure is told, and the run ends with exit code one.
pub proof fn law_failed_run(cfg: Settings, message: Seq<char>, told: bool, answer: Answer)
    ensures
        ({
            let (reporting, report) = Run::start(cfg).after(Some(message), told);
            let (ended, exit) = reporting.after(answer.failure, answer.terminated);
            &&& report == HeadlessStep::Report(message)
            &&& exit == HeadlessStep::Exit(1)
            &&& ended.phase == HeadlessPhase::Ended(1)
        }),
{
}

/// The place of another instance is taken exactly when the hotkey has come to be watched
/// for. It is given back before a run that took it ends, when the listener and the
/// loopback have been stopped.
pub proof fn law_run_order(run: Run, answer: Answer)
    ensures
        ({
            let step = run.after(answer.failure, answer.terminated).1;
            &&& step == HeadlessStep::Claim <==> (run.phase == HeadlessPhase::StartingListener
                && answer.failure is None)
            &&& step == HeadlessStep::StopListener <==> (run.phase == HeadlessPhase::Watching
                && answer.terminated)
            &&& step == HeadlessStep::StopLoopback <==> run.phase
                == HeadlessPhase::StoppingListener
            &&& step == HeadlessStep::Release <==> run.phase == HeadlessPhase::StoppingLoopback
            &&& step == HeadlessStep::Exit(0) <==> (run.phase == HeadlessPhase::Releasing
                || run.phase == HeadlessPhase::Ended(0))
            &&& step == HeadlessStep::Exit(1) <==> (run.phase == HeadlessPhase::Reporting
                || run.phase == HeadlessPhase::Ended(1))
        }),
{
}

/// However a run goes, it ends with exit code one if the hotkey could not be watched for,
/// and with zero otherwise.
pub proof fn law_exit_code(cfg: Settings, answers: Seq<Answer>)
    ensures
        Run::start(cfg).after_answers(answers).phase matches HeadlessPhase::Ended(code)
            ==> answers.len() > 0 && code == if answers[0].failure is Some {
            1int
        } else {
            0int
        },
        answers.len() > 0 ==> (answers[0].failure is Some <==> {
            let phase = Run::start(cfg).after_answers(answers).phase;
            phase == HeadlessPhase::Reporting || phase == HeadlessPhase::Ended(1)
        }),
        answers.len() > 0 ==> Run::start(cfg).after_answers(answers).phase
            != HeadlessPhase::StartingListener,
        Run::start(cfg).after_answers(answers).phase matches HeadlessPhase::Ended(code) ==> code
            == 0 || code == 1,
    decreases answers.len(),
{
    if answers.len() > 0 {
        law_exit_code(cfg, answers.drop_last());
    }
}

/// The banner is told once the place is taken and the signals are caught; then the run
/// waits until it is told to end.
pub proof fn law_run_waits(cfg: Settings, told: bool, first: Answer, second: Answer)
    ensures
        ({
            let claiming = Run::start(cfg).after(None, told).0;
            let (catching, catch) = claiming.after(first.failure, first.terminated);
            let (watching, tell) = catching.after(second.failure, second.terminated);
            &&& catch == HeadlessStep::CatchSignals
            &&& tell == HeadlessStep::Tell(banner_text(cfg))
            &&& watching.phase == HeadlessPhase::Watching
            &&& watching.after(None, false) == (watching, HeadlessStep::Sleep(WATCH_PAUSE_MSEC))
        }),
{
}

/// A command line that sets nothing leaves the settings as they are; and what it sets,
/// setting it again does not change.
pub proof fn law_overrides(cfg: Settings, overrides: Overrides)
    ensures
        overrides.mode is None && overrides.key is None && overrides.modifiers@.len() == 0
            && overrides.output is None ==> overrides.over(cfg) == cfg,
        overrides.over(overrides.over(cfg)) == overrides.over(cfg),
{
}

/// Each option of the command line counts on its own: where it is given, its value is the
/// one in force, whatever the other options are; where it is not, that of the settings is.
/// What the command line has no option for is that of the settings.
pub proof fn law_each_option_counts(cfg: Settings, overrides: Overrides)
    ensures
        ({
            let result = overrides.over(cfg);
            &&& overrides.mode matches Some(mode) ==> result.mode == mode
            &&& overrides.mode is None ==> result.mode == cfg.mode
            &&& overrides.key matches Some(key) ==> result.key == key@
            &&& overrides.key is None ==> result.key == cfg.key
            &&& overrides.modifiers@.len() > 0 ==> result.modifiers == overrides.modifiers@
            &&& overrides.modifiers@.len() == 0 ==> result.modifiers == cfg.modifiers
            &&& overrides.output matches Some(output) ==> result.output == output
            &&& overrides.output is None ==> result.output == cfg.output
            &&& result.latency_msec == cfg.latency_msec
            &&& result.max_record_secs == cfg.max_record_secs
            &&& result.history_key == cfg.history_key
            &&& result.history_modifiers == cfg.history_modifiers
        }),
{
}

/// Two command lines that agree in an option have the same effect on that setting, however
/// they differ otherwise.
pub proof fn law_options_are_independent(cfg: Settings, a: Overrides, b: Overrides)
    ensures
        a.mode == b.mode ==> a.over(cfg).mode == b.over(cfg).mode,
        a.key == b.key ==> a.over(cfg).key == b.over(cfg).key,
        a.modifiers@ == b.modifiers@ ==> a.over(cfg).modifiers == b.over(cfg).modifiers,
        a.output == b.output ==> a.over(cfg).output == b.over(cfg).output,
{
}

/// The banner names the hotkey in force as it is shown elsewhere, and the mode in force.
pub proof fn law_banner(cfg: Settings)
    ensures
        cfg.mode == Mode::Toggle ==> banner_text(cfg) == crate::config::hotkey_text(
            cfg.modifiers,
            cfg.key,
        ) + " を監視中 ("@ + "toggle"@ + " モード)"@,
        cfg.mode == Mode::Hold ==> banner_text(cfg) == crate::config::hotkey_text(
            cfg.modifiers,
            cfg.key,
        ) + " を監視中 ("@ + "hold"@ + " モード)"@,
        Run::start(cfg).banner == banner_text(cfg),
{
}

/// A run that has come to watch for the hotkey sleeps for 300 milliseconds at a time, and
/// changes in nothing else, for as long as it is not told to end; once it is told, nothing
/// that fails keeps it from ending, and it ends in four steps.
pub proof fn law_watching_and_ending(
    run: Run,
    failure: Option<Seq<char>>,
    a: Answer,
    b: Answer,
    c: Answer,
)
    requires
        run.phase == HeadlessPhase::Watching,
    ensures
        run.after(failure, false) == (run, HeadlessStep::Sleep(300)),
        ({
            let (first, stop_listener) = run.after(failure, true);
            let (second, stop_loopback) = first.after(a.failure, a.terminated);
            let (third, release) = second.after(b.failure, b.terminated);
            let (end, exit) = third.after(c.failure, c.terminated);
            &&& stop_listener == HeadlessStep::StopListener
            &&& stop_loopback == HeadlessStep::StopLoopback
            &&& release == HeadlessStep::Release
            &&& exit == HeadlessStep::Exit(0)
            &&& end.after(failure, true) == (end, HeadlessStep::Exit(0))
        }),
{
}

/// What is asked for is what is stated of it.
pub proof fn law_headless_actions_are_what_they_say(action: HeadlessAction)
    ensures
        action is StartListener <==> action@ == HeadlessStep::StartListener,
        action matches HeadlessAction::Report(message) ==> action@ == HeadlessStep::Report(
            message@,
        ),
        action is Claim <==> action@ == HeadlessStep::Claim,
        action is CatchSignals <==> action@ == HeadlessStep::CatchSignals,
        action matches HeadlessAction::Tell(message) ==> action@ == HeadlessStep::Tell(message@),
        action matches HeadlessAction::Sleep(msec) ==> action@ == HeadlessStep::Sleep(msec),
        action is StopListener <==> action@ == HeadlessStep::StopListener,
        action is StopLoopback <==> action@ == HeadlessStep::StopLoopback,
        action is Release <==> action@ == HeadlessStep::Release,
        action matches HeadlessAction::Exit(code) ==> action@ == HeadlessStep::Exit(code),
{
}

} // verus!
