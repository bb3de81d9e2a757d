//! The settings window.
//!
//! A new setting gets a row in the window and a field in [`Config`].

use vstd::prelude::*;
use vstd::string::*;

use crate::config::{Config, Mode, Modifier, Output, Settings};
use crate::listener::parse_key;
use crate::text;

verus! {

pub const MIN_LATENCY_MSEC: u32 = 1;

pub const MAX_LATENCY_MSEC: u32 = 200;

pub const MIN_RECORD_SECS: u32 = 10;

pub const MAX_RECORD_SECS: u32 = 3600;

pub open spec fn optional_message(message: Option<&'static str>) -> Option<Seq<char>> {
    match message {
        Some(message) => Some(message@),
        None => None,
    }
}

// ---------------------------------------------------------------------------
// The hotkey
// ---------------------------------------------------------------------------

/// What is wrong with a hotkey that has so many modifiers and whose key's name stands
/// for `key`.
pub open spec fn hotkey_fault(modifiers: Seq<Modifier>, key: Option<u16>) -> Option<Seq<char>> {
    if modifiers.len() == 0 {
        Some("修飾キーを含むホットキーを登録してください"@)
    } else if key is None {
        Some("ホットキーが未登録です"@)
    } else {
        None
    }
}

/// What is wrong with a hotkey; `key` is what its key's name stands for.
pub fn hotkey_error(modifiers: &[Modifier], key: Option<u16>) -> (error: Option<&'static str>)
    ensures
        optional_message(error) == hotkey_fault(modifiers@, key),
{
    if modifiers.len() == 0 {
        return Some("修飾キーを含むホットキーを登録してください");
    }
    if key.is_none() {
        return Some("ホットキーが未登録です");
    }
    None
}

/// What has come of recording a hotkey.
#[derive(Debug, PartialEq)]
pub enum CaptureNews {
    /// These modifiers were held and a key of this name was pressed.
    Combo(Vec<Modifier>, String),
    /// Nothing yet.
    Waiting,
    /// It was called off.
    Ended,
}

#[verifier::ext_equal]
pub enum News {
    Combo(Seq<Modifier>, Seq<char>),
    Waiting,
    Ended,
}

impl View for CaptureNews {
    type V = News;

    open spec fn view(&self) -> News {
        match self {
            CaptureNews::Combo(modifiers, key) => News::Combo(modifiers@, key@),
            CaptureNews::Waiting => News::Waiting,
            CaptureNews::Ended => News::Ended,
        }
    }
}

/// What is to be done about the recording of a hotkey.
#[derive(Clone, Copy, Debug, PartialEq, Eq, Structural)]
pub enum CaptureStep {
    Nothing,
    /// Start recording a hotkey.
    Start,
    /// Stop recording.
    Cancel,
    /// Look again soon.
    LookAgain,
}

// ---------------------------------------------------------------------------
// The window
// ---------------------------------------------------------------------------

/// The settings window: the settings as they are being changed, whether a hotkey is being
/// recorded, and what is wrong.
#[derive(Debug, PartialEq)]
pub struct SettingsApp {
    pub cfg: Config,
    pub recording: bool,
    pub error: Option<&'static str>,
}

#[verifier::ext_equal]
pub struct Form {
    pub cfg: Settings,
    pub recording: bool,
    pub error: Option<Seq<char>>,
}

impl View for SettingsApp {
    type V = Form;

    open spec fn view(&self) -> Form {
        Form {
            cfg: self.cfg@,
            recording: self.recording,
            error: optional_message(self.error),
        }
    }
}

impl Form {
    pub open spec fn poll(self, news: News) -> (Form, CaptureStep) {
        if !self.recording {
            (self, CaptureStep::Nothing)
        } else {
            match news {
                News::Combo(modifiers, key) => if modifiers.len() == 0 {
                    (
                        Form {
                            error: Some("修飾キーを含めて押してください (例: Ctrl+A)"@),
                            ..self
                        },
                        CaptureStep::Start,
                    )
                } else {
                    (
                        Form {
                            cfg: Settings { modifiers, key, ..self.cfg },
                            recording: false,
                            error: None,
                        },
                        CaptureStep::Nothing,
                    )
                },
                News::Waiting => (self, CaptureStep::LookAgain),
                News::Ended => (Form { recording: false, ..self }, CaptureStep::Nothing),
            }
        }
    }

    pub open spec fn click_hotkey(self) -> (Form, CaptureStep) {
        if self.recording {
            (Form { recording: false, ..self }, CaptureStep::Cancel)
        } else {
            (Form { recording: true, error: None, ..self }, CaptureStep::Start)
        }
    }

    /// What stands on the hotkey's button.
    pub open spec fn button(self) -> Seq<char> {
        if self.recording {
            "Recording... (Escで取り消し)"@
        } else {
            crate::config::hotkey_text(self.cfg.modifiers, self.cfg.key)
        }
    }

    /// What is wrong with the settings.
    pub open spec fn fault(self) -> Option<Seq<char>> {
        hotkey_fault(self.cfg.modifiers, crate::listener::key_called(self.cfg.key))
    }
}

impl SettingsApp {
    pub fn new(cfg: Config) -> (app: Self)
        ensures
            app@ == (Form { cfg: cfg@, recording: false, error: None }),
    {
        SettingsApp { cfg, recording: false, error: None }
    }

    /// Takes in what has come of the recording of a hotkey. A hotkey without modifiers is
    /// not accepted: the recording starts over.
    pub fn poll_capture(&mut self, news: CaptureNews) -> (step: CaptureStep)
        ensures
            (final(self)@, step) == old(self)@.poll(news@),
    {
        if !self.recording {
            return CaptureStep::Nothing;
        }
        match news {
            CaptureNews::Combo(modifiers, key) => if modifiers.len() == 0 {
                self.error = Some("修飾キーを含めて押してください (例: Ctrl+A)");
                CaptureStep::Start
            } else {
                self.cfg.modifiers = modifiers;
                self.cfg.key = key;
                self.error = None;
                self.recording = false;
                CaptureStep::Nothing
            },
            CaptureNews::Waiting => CaptureStep::LookAgain,
            CaptureNews::Ended => {
                self.recording = false;
                CaptureStep::Nothing
            },
        }
    }

    /// The hotkey's button was clicked: starts to record a hotkey, or stops.
    pub fn click_hotkey(&mut self) -> (step: CaptureStep)
        ensures
            (final(self)@, step) == old(self)@.click_hotkey(),
    {
        if self.recording {
            self.recording = false;
            CaptureStep::Cancel
        } else {
            self.error = None;
            self.recording = true;
            CaptureStep::Start
        }
    }

    /// What is wrong with the settings.
    pub fn validate(&self) -> (error: Option<&'static str>)
        ensures
            optional_message(error) == self@.fault(),
    {
        hotkey_error(self.cfg.modifiers.as_slice(), parse_key(self.cfg.key.as_str()))
    }

    /// The save button was clicked; `true` if the settings are to be saved and the window
    /// closed, which is so exactly if nothing is wrong with them.
    pub fn click_save(&mut self) -> (save: bool)
        ensures
            save <==> old(self)@.fault() is None,
            save <==> old(self).cfg.modifiers@.len() > 0 && exists|code: u16|
                code < 0x2ff && #[trigger] crate::listener::key_name_of(code) == old(
                    self,
                ).cfg.key@,
            final(self).cfg@ == old(self).cfg@,
            save <==> final(self).error is None,
            final(self)@ == (Form { error: old(self)@.fault(), ..old(self)@ }),
    {
        proof {
            law_faults(self@);
        }
        self.error = self.validate();
        self.error.is_none()
    }

    /// What stands on the hotkey's button.
    pub fn hotkey_button(&self) -> (label: String)
        ensures
            label@ == if self@.recording {
                "Recording... (Escで取り消し)"@
            } else {
                crate::config::hotkey_text(self@.cfg.modifiers, self@.cfg.key)
            },
            label@ == self@.button(),
    {
        if self.recording {
            "Recording... (Escで取り消し)".to_string()
        } else {
            self.cfg.hotkey_label()
        }
    }

    /// Whether the latency can be changed: it matters in real time only.
    pub fn latency_enabled(&self) -> (b: bool)
        ensures
            b <==> self@.cfg.output == Output::Realtime,
    {
        self.cfg.output == Output::Realtime
    }

    /// Whether the longest recording can be changed: it matters for delayed output only.
    pub fn record_time_enabled(&self) -> (b: bool)
        ensures
            b <==> self@.cfg.output == Output::Delayed,
    {
        self.cfg.output == Output::Delayed
    }
}

pub open spec fn mode_text(mode: Mode) -> Seq<char> {
    match mode {
        Mode::Toggle => "押すたびON/OFF"@,
        Mode::Hold => "押している間だけON"@,
    }
}

/// How a mode is described.
pub fn mode_label(mode: Mode) -> (label: &'static str)
    ensures
        label@ == mode_text(mode),
        label@ == match mode {
            Mode::Toggle => "押すたびON/OFF"@,
            Mode::Hold => "押している間だけON"@,
        },
{
    match mode {
        Mode::Toggle => "押すたびON/OFF",
        Mode::Hold => "押している間だけON",
    }
}

pub open spec fn output_text(output: Output) -> Seq<char> {
    match output {
        Output::Realtime => "リアルタイム再生"@,
        Output::Delayed => "OFF時にまとめて再生"@,
    }
}

/// How an output is described.
pub fn output_label(output: Output) -> (label: &'static str)
    ensures
        label@ == output_text(output),
        label@ == match output {
            Output::Realtime => "リアルタイム再生"@,
            Output::Delayed => "OFF時にまとめて再生"@,
        },
{
    match output {
        Output::Realtime => "リアルタイム再生",
        Output::Delayed => "OFF時にまとめて再生",
    }
}

/// The file that the font finder printed; `None` if it failed or printed nothing.
pub open spec fn found_font(success: bool, stdout: Seq<char>) -> Option<Seq<char>> {
    if success && stdout.len() > 0 {
        Some(stdout)
    } else {
        None
    }
}

/// The font file, by what the font finder printed (without the white space around it).
pub fn font_file(success: bool, stdout: String) -> (file: Option<String>)
    ensures
        crate::config::optional_text(file) == found_font(success, stdout@),
{
    if success && !stdout.as_str().is_empty() {
        Some(stdout)
    } else {
        None
    }
}

/// The font file, by the bytes that the font finder printed.
pub fn font_path(success: bool, stdout: &[u8]) -> (file: Option<String>)
    ensures
        crate::config::optional_text(file) == found_font(success, text::printed_text(stdout@)),
        vstd::utf8::valid_utf8(stdout@) ==> crate::config::optional_text(file) == found_font(
            success,
            text::trimmed(vstd::utf8::decode_utf8(stdout@)),
        ),
{
    font_file(success, text::read_printed(stdout))
}

/// Settings that can be saved have a hotkey that can be watched for: it has modifiers,
/// and its name is that of a key.
pub proof fn law_saved_settings_can_be_watched(form: Form)
    requires
        form.fault() is None,
    ensures
        form.cfg.modifiers.len() > 0,
        crate::listener::key_called(form.cfg.key) is Some,
{
}

/// A recorded hotkey that is accepted can be saved, if its name is that of a key; all the
/// other settings stay as they are.
pub proof fn law_accepted_hotkey_can_be_saved(form: Form, modifiers: Seq<Modifier>, key: Seq<char>)
    requires
        form.recording,
        modifiers.len() > 0,
        crate::listener::key_called(key) is Some,
    ensures
        ({
            let (after, step) = form.poll(News::Combo(modifiers, key));
            &&& after.fault() is None
            &&& after.error is None
            &&& !after.recording
            &&& step == CaptureStep::Nothing
            &&& after.cfg == Settings { modifiers, key, ..form.cfg }
        }),
{
}

/// A hotkey without modifiers is never taken over: the settings stay, the user is told,
/// and the recording goes on.
pub proof fn law_hotkey_needs_modifiers(form: Form, key: Seq<char>)
    requires
        form.recording,
    ensures
        ({
            let (after, step) = form.poll(News::Combo(Seq::empty(), key));
            &&& after.cfg == form.cfg
            &&& after.recording
            &&& after.error is Some
            &&& step == CaptureStep::Start
        }),
{
}

/// Calling the recording off leaves the settings as they were.
pub proof fn law_cancelled_recording_changes_nothing(form: Form)
    ensures
        form.poll(News::Ended).0.cfg == form.cfg,
        form.click_hotkey().0.cfg == form.cfg,
{
}

/// What is wrong with the settings: first of all a hotkey without modifiers, then a name
/// that is not that of a key. Nothing else is.
pub proof fn law_faults(form: Form)
    ensures
        form.cfg.modifiers.len() == 0 ==> form.fault() == Some(
            "修飾キーを含むホットキーを登録してください"@,
        ),
        form.cfg.modifiers.len() > 0 ==> {
            let known = exists|code: u16|
                code < 0x2ff && #[trigger] crate::listener::key_name_of(code) == form.cfg.key;
            &&& known ==> form.fault() is None
            &&& !known ==> form.fault() == Some("ホットキーが未登録です"@)
        },
{
    crate::listener::law_key_called(form.cfg.key);
}

/// Whether settings can be saved rests on the hotkey alone.
pub proof fn law_only_the_hotkey_is_checked(a: Form, b: Form)
    requires
        a.cfg.modifiers == b.cfg.modifiers,
        a.cfg.key == b.cfg.key,
    ensures
        a.fault() == b.fault(),
{
}

/// News of a recording count only while one is under way. Then a hotkey with modifiers is
/// taken over as it is and ends the recording; one without makes it start over; no news
/// mean to look again; and an end ends it. Only a hotkey that is taken over changes the
/// settings, and nothing but the hotkey in them.
pub proof fn law_news_of_a_recording(form: Form, news: News)
    ensures
        ({
            let (after, step) = form.poll(news);
            &&& !form.recording ==> after == form && step == CaptureStep::Nothing
            &&& form.recording ==> match news {
                News::Combo(modifiers, key) => if modifiers.len() > 0 {
                    &&& after.cfg.modifiers == modifiers
                    &&& after.cfg.key == key
                    &&& after.cfg.mode == form.cfg.mode
                    &&& after.cfg.latency_msec == form.cfg.latency_msec
                    &&& after.cfg.output == form.cfg.output
                    &&& after.cfg.max_record_secs == form.cfg.max_record_secs
                    &&& after.cfg.history_key == form.cfg.history_key
                    &&& after.cfg.history_modifiers == form.cfg.history_modifiers
                    &&& !after.recording
                    &&& after.error is None
                    &&& step == CaptureStep::Nothing
                } else {
                    &&& after.cfg == form.cfg
                    &&& after.recording
                    &&& after.error == Some("修飾キーを含めて押してください (例: Ctrl+A)"@)
                    &&& step == CaptureStep::Start
                },
                News::Waiting => after == form && step == CaptureStep::LookAgain,
                News::Ended => {
                    &&& after.cfg == form.cfg
                    &&& !after.recording
                    &&& after.error == form.error
                    &&& step == CaptureStep::Nothing
                },
            }
        }),
{
}

/// The hotkey's button starts a recording, with what was wrong forgotten, and clicked
/// again calls it off. The settings stay as they are.
pub proof fn law_hotkey_button_switches(form: Form)
    ensures
        form.click_hotkey().0.recording == !form.recording,
        form.click_hotkey().0.cfg == form.cfg,
        form.click_hotkey().1 == CaptureStep::Start <==> !form.recording,
        form.click_hotkey().1 == CaptureStep::Cancel <==> form.recording,
        !form.recording ==> form.click_hotkey().0.error is None,
        form.recording ==> form.click_hotkey().0.error == form.error,
{
}

/// The button shows the hotkey of the settings, unless one is being recorded.
pub proof fn law_button_shows_the_hotkey(form: Form)
    ensures
        !form.recording ==> form.button() == crate::config::hotkey_text(
            form.cfg.modifiers,
            form.cfg.key,
        ),
        form.recording ==> form.button() == "Recording... (Escで取り消し)"@,
{
}

/// Modes and outputs have their own descriptions.
pub proof fn law_descriptions(mode: Mode, output: Output)
    ensures
        mode == Mode::Toggle ==> mode_text(mode) == "押すたびON/OFF"@,
        mode == Mode::Hold ==> mode_text(mode) == "押している間だけON"@,
        output == Output::Realtime ==> output_text(output) == "リアルタイム再生"@,
        output == Output::Delayed ==> output_text(output) == "OFF時にまとめて再生"@,
{
}

/// The sliders go from 1 to 200 milliseconds and from 10 seconds to an hour.
pub proof fn law_slider_ranges(msec: u32, secs: u32)
    ensures
        MIN_LATENCY_MSEC <= msec <= MAX_LATENCY_MSEC <==> 1 <= msec <= 200,
        MIN_RECORD_SECS <= secs <= MAX_RECORD_SECS <==> 10 <= secs <= 3600,
{
}

/// A font is used exactly if the finder succeeded and printed something, and then it is
/// what was printed.
pub proof fn law_font(success: bool, stdout: Seq<char>)
    ensures
        found_font(success, stdout) is Some <==> success && stdout.len() > 0,
        found_font(success, stdout) matches Some(file) ==> file == stdout,
{
}

/// The form holds what the window holds.
pub proof fn law_form_is_the_window(app: SettingsApp)
    ensures
        app@.cfg == app.cfg@,
        app@.recording == app.recording,
        app.error matches Some(message) ==> app@.error == Some(message@),
        app.error is None ==> app@.error is None,
{
}

} // verus!
