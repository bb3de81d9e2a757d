//! What the hotkey does: it switches the loopback, and the tray shows what came of it.

use vstd::prelude::*;

use crate::config::{Config, Settings};
use crate::loopback::{Loopback, Machine, Phase};
use crate::process::{Action, Answer, Reply, Step};
use crate::tray::{MicloopTray, Shown};

verus! {

/// What is to be done next.
#[derive(Debug, PartialEq)]
pub enum EngineAction {
    /// Nothing.
    Idle,
    /// Do what the loopback asks for, and go on with what came of it.
    Do(Action),
    /// Show this in the tray.
    Show(MicloopTray),
}

#[verifier::ext_equal]
pub enum EngineStep {
    Idle,
    Do(Step),
    Show(Shown),
}

impl View for EngineAction {
    type V = EngineStep;

    open spec fn view(&self) -> EngineStep {
        match self {
            EngineAction::Idle => EngineStep::Idle,
            EngineAction::Do(action) => EngineStep::Do(action@),
            EngineAction::Show(shown) => EngineStep::Show(shown@),
        }
    }
}

/// The engine as mathematical values.
#[verifier::ext_equal]
pub struct EngineState {
    pub loopback: Machine,
    pub cfg: Settings,
    /// The hotkey is being handled.
    pub handling: bool,
}

impl EngineState {
    /// A hotkey is handled as long as the loopback is at work on it.
    pub open spec fn well_formed(self) -> bool {
        &&& self.loopback.well_formed()
        &&& self.handling ==> self.loopback.phase != Phase::Idle
    }

    /// What the tray shows of the loopback as it is.
    pub open spec fn shown(self) -> Shown {
        Shown {
            status: crate::tray::status_text(
                self.loopback.active(),
                crate::tray::base_text(self.cfg),
            ),
            active: self.loopback.active(),
        }
    }

    /// What follows on a step of the loopback. When it has come to its end, the tray shows
    /// the outcome, if it was the hotkey that set it off.
    pub open spec fn led(self, handling: bool, r: (Machine, Step)) -> (EngineState, EngineStep) {
        let next = EngineState { loopback: r.0, handling: handling && !(r.1 is Done), ..self };
        (
            next,
            if !(r.1 is Done) {
                EngineStep::Do(r.1)
            } else if handling {
                EngineStep::Show(next.shown())
            } else {
                EngineStep::Idle
            },
        )
    }

    pub open spec fn on_key(self, pressed: bool) -> (EngineState, EngineStep) {
        match crate::loopback::next_active(self.cfg.mode, pressed, self.loopback.active()) {
            Some(active) => self.led(true, self.loopback.set_active(active)),
            None => (self, EngineStep::Idle),
        }
    }

    pub open spec fn stop(self) -> (EngineState, EngineStep) {
        self.led(false, self.loopback.stop())
    }

    pub open spec fn close(self) -> (EngineState, EngineStep) {
        self.led(false, self.loopback.close())
    }

    pub open spec fn resume(self, answer: Answer) -> (EngineState, EngineStep) {
        self.led(self.handling, self.loopback.resume(answer))
    }
}

/// The loopback, with the hotkey that switches it.
#[derive(Debug)]
pub struct Engine {
    loopback: Loopback,
    cfg: Config,
    handling: bool,
}

impl View for Engine {
    type V = EngineState;

    closed spec fn view(&self) -> EngineState {
        EngineState { loopback: self.loopback@, cfg: self.cfg@, handling: self.handling }
    }
}

impl Engine {
    /// The loopback with these settings, off; recordings are kept at `wav`.
    pub fn new(cfg: Config, wav: Vec<u8>) -> (engine: Self)
        ensures
            engine@ == (EngineState {
                loopback: Machine::off(cfg@, wav@),
                cfg: cfg@,
                handling: false,
            }),
            engine@.well_formed(),
    {
        let loopback = Loopback::new(&cfg, wav);
        Engine { loopback, cfg, handling: false }
    }

    /// Goes on from a step that the loopback has taken.
    fn led(&mut self, handling: bool, action: Action) -> (result: EngineAction)
        ensures
            (final(self)@, result@) == old(self)@.led(handling, (old(self)@.loopback, action@)),
    {
        match action {
            Action::Done => {
                self.handling = false;
                if handling {
                    let mut shown = MicloopTray::new();
                    shown.hotkey_handled(self.loopback.active(), &self.cfg);
                    EngineAction::Show(shown)
                } else {
                    EngineAction::Idle
                }
            },
            action => {
                self.handling = handling;
                EngineAction::Do(action)
            },
        }
    }

    /// Takes in that the hotkey went down or came up.
    pub fn on_key(&mut self, pressed: bool) -> (action: EngineAction)
        ensures
            (final(self)@, action@) == old(self)@.on_key(pressed),
            old(self)@.well_formed() ==> final(self)@.well_formed(),
    {
        match self.loopback.on_key(self.cfg.mode, pressed) {
            Some(action) => self.led(true, action),
            None => EngineAction::Idle,
        }
    }

    /// Switches the loopback off. What was recorded is then played.
    pub fn stop(&mut self) -> (action: EngineAction)
        ensures
            (final(self)@, action@) == old(self)@.stop(),
            old(self)@.well_formed() ==> final(self)@.well_formed(),
    {
        let action = self.loopback.stop();
        self.led(false, action)
    }

    /// Closes down: switches off, ends the playback and removes the recording.
    pub fn close(&mut self) -> (action: EngineAction)
        ensures
            (final(self)@, action@) == old(self)@.close(),
            old(self)@.well_formed() ==> final(self)@.well_formed(),
    {
        let action = self.loopback.close();
        self.led(false, action)
    }

    /// Goes on with what came of the last action.
    pub fn resume(&mut self, reply: Reply) -> (action: EngineAction)
        ensures
            (final(self)@, action@) == old(self)@.resume(reply@),
            old(self)@.well_formed() ==> final(self)@.well_formed(),
            reply@ matches Answer::Ran { success, stdout, stderr } ==> vstd::utf8::valid_utf8(
                stdout,
            ) && vstd::utf8::valid_utf8(stderr) ==> (final(self)@, action@) == old(self)@.led(
                old(self)@.handling,
                old(self)@.loopback.pactl_ran(
                    success,
                    crate::text::trimmed(vstd::utf8::decode_utf8(stdout)),
                    crate::text::trimmed(vstd::utf8::decode_utf8(stderr)),
                ),
            ),
    {
        let action = self.loopback.resume(reply);
        self.led(self.handling, action)
    }
}

// ---------------------------------------------------------------------------
// What always holds
// ---------------------------------------------------------------------------

impl EngineState {
    /// The hotkey, with the answers that come in until it is handled.
    pub open spec fn key_handled(self, pressed: bool, answers: Seq<Answer>) -> (
        EngineState,
        EngineStep,
    )
        decreases answers.len(),
    {
        if answers.len() == 0 {
            self.on_key(pressed)
        } else {
            let (engine, step) = self.key_handled(pressed, answers.drop_last());
            if step is Do {
                engine.resume(answers.last())
            } else {
                (engine, step)
            }
        }
    }
}

/// A key event that means nothing leaves the loopback and the tray alone. Any other
/// switches the loopback once; and when that is over, the tray shows the state that the
/// loopback really is in, which is off where switching on has failed.
pub proof fn law_tray_shows_the_loopback(e: EngineState, pressed: bool, answers: Seq<Answer>)
    ensures
        ({
            let (end, step) = e.key_handled(pressed, answers);
            match crate::loopback::next_active(e.cfg.mode, pressed, e.loopback.active()) {
                None => end == e && step == EngineStep::Idle,
                Some(active) => {
                    let (loopback, last) = e.loopback.switched(active, answers);
                    &&& end == (EngineState { loopback, handling: !(last is Done), ..e })
                    &&& step == if last is Done {
                        EngineStep::Show(
                            Shown {
                                status: crate::tray::status_text(
                                    loopback.active(),
                                    crate::tray::base_text(e.cfg),
                                ),
                                active: loopback.active(),
                            },
                        )
                    } else {
                        EngineStep::Do(last)
                    }
                },
            }
        }),
    decreases answers.len(),
{
    if answers.len() > 0 {
        law_tray_shows_the_loopback(e, pressed, answers.drop_last());
    }
}

/// A key event that means something is always shown in the end: six answers to what was
/// asked are enough. Then the loopback waits for nothing any more, and it is on only if it
/// was to be.
pub proof fn law_hotkey_comes_to_its_end(
    e: EngineState,
    pressed: bool,
    active: bool,
    answers: Seq<Answer>,
)
    requires
        e.well_formed(),
        e.loopback.phase == Phase::Idle,
        crate::loopback::next_active(e.cfg.mode, pressed, e.loopback.active()) == Some(active),
        e.loopback.switched_as_asked(active, answers),
    ensures
        ({
            let (end, step) = e.key_handled(pressed, answers);
            &&& end.well_formed()
            &&& answers.len() >= 6 ==> step is Show
            &&& step is Show ==> end.loopback.phase == Phase::Idle
            &&& step matches EngineStep::Show(shown) ==> shown.active ==> active
        }),
{
    law_tray_shows_the_loopback(e, pressed, answers);
    crate::loopback::law_switching_ends(e.loopback, active, answers);
}

impl EngineState {
    /// What a row of answers leads to, up to its last step.
    pub open spec fn answered(self, first: EngineStep, answers: Seq<Answer>) -> (
        EngineState,
        EngineStep,
    )
        decreases answers.len(),
    {
        if answers.len() == 0 {
            (self, first)
        } else {
            let (engine, step) = self.answered(first, answers.drop_last());
            if step is Do {
                engine.resume(answers.last())
            } else {
                (engine, step)
            }
        }
    }
}

/// Stopping or closing down, which the hotkey did not ask for, is never shown: each step
/// is the loopback's own, and at the end there is nothing to do.
pub proof fn law_stopping_is_not_shown(e: EngineState, answers: Seq<Answer>)
    ensures
        e.stop().0.loopback == e.loopback.stop().0,
        !(e.loopback.stop().1 is Done) ==> e.stop().1 == EngineStep::Do(e.loopback.stop().1),
        e.loopback.stop().1 is Done ==> e.stop().1 == EngineStep::Idle,
        e.close().0.loopback == e.loopback.close().0,
        !(e.loopback.close().1 is Done) ==> e.close().1 == EngineStep::Do(e.loopback.close().1),
        e.loopback.close().1 is Done ==> e.close().1 == EngineStep::Idle,
        !(e.stop().0.answered(e.stop().1, answers).1 is Show),
        !(e.close().0.answered(e.close().1, answers).1 is Show),
        !e.stop().0.answered(e.stop().1, answers).0.handling,
        !e.close().0.answered(e.close().1, answers).0.handling,
    decreases answers.len(),
{
    if answers.len() > 0 {
        law_stopping_is_not_shown(e, answers.drop_last());
    }
}

/// An answer goes to the loopback as it is, and what the loopback asks for next is asked
/// for as it is. The settings stay.
pub proof fn law_loopback_is_passed_through(e: EngineState, answer: Answer)
    ensures
        ({
            let (after, step) = e.resume(answer);
            let (loopback, next) = e.loopback.resume(answer);
            &&& after.loopback == loopback
            &&& after.cfg == e.cfg
            &&& step is Do <==> !(next is Done)
            &&& step matches EngineStep::Do(asked) ==> asked == next
            &&& step is Show <==> next is Done && e.handling
            &&& step matches EngineStep::Show(shown) ==> shown.active == (loopback.state
                is PactlModule || loopback.state is PwProcess || loopback.state is Recording)
        }),
{
}

/// What is asked for is what is stated of it.
pub proof fn law_engine_actions_are_what_they_say(action: EngineAction)
    ensures
        action is Idle <==> action@ == EngineStep::Idle,
        action matches EngineAction::Do(asked) ==> action@ == EngineStep::Do(asked@),
        action matches EngineAction::Show(shown) ==> {
            &&& action@ matches EngineStep::Show(seen)
            &&& seen.status == shown.status@
            &&& seen.active == shown.active
        },
{
}

} // verus!
