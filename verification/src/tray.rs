//! The icon in the task tray.
//!
//! The settings window is a process of its own. While one is open the hotkey is not
//! watched for; when the last one is closed the settings are read again. The window with
//! the recordings is a process of its own too, opened from the tray or by its own hotkey.

use vstd::prelude::*;
use vstd::string::*;

use crate::config::{Config, Mode, Settings};

verus! {

// ---------------------------------------------------------------------------
// On display
// ---------------------------------------------------------------------------

/// An entry of the tray's menu.
#[derive(Debug, PartialEq)]
pub enum MenuEntry {
    /// A line that cannot be clicked.
    Status(String),
    Separator,
    /// Opens the recordings.
    History(&'static str),
    /// Opens the settings.
    Settings(&'static str),
    /// Ends the program.
    Quit(&'static str),
}

#[verifier::ext_equal]
pub enum MenuLine {
    Status(Seq<char>),
    Separator,
    History(Seq<char>),
    Settings(Seq<char>),
    Quit(Seq<char>),
}

impl View for MenuEntry {
    type V = MenuLine;

    open spec fn view(&self) -> MenuLine {
        match self {
            MenuEntry::Status(status) => MenuLine::Status(status@),
            MenuEntry::Separator => MenuLine::Separator,
            MenuEntry::History(label) => MenuLine::History(label@),
            MenuEntry::Settings(label) => MenuLine::Settings(label@),
            MenuEntry::Quit(label) => MenuLine::Quit(label@),
        }
    }
}

impl MenuLine {
    /// What happens when the line is clicked.
    pub open spec fn sends(self) -> Option<TrayEvent> {
        match self {
            MenuLine::History(_) => Some(TrayEvent::OpenHistory),
            MenuLine::Settings(_) => Some(TrayEvent::OpenSettings),
            MenuLine::Quit(_) => Some(TrayEvent::Quit),
            MenuLine::Status(_) | MenuLine::Separator => None,
        }
    }
}

impl MenuEntry {
    /// What happens when the entry is clicked; nothing if it cannot be.
    pub fn event(&self) -> (event: Option<TrayEvent>)
        ensures
            event == match self@ {
                MenuLine::History(_) => Some(TrayEvent::OpenHistory),
                MenuLine::Settings(_) => Some(TrayEvent::OpenSettings),
                MenuLine::Quit(_) => Some(TrayEvent::Quit),
                MenuLine::Status(_) | MenuLine::Separator => None,
            },
            event == self@.sends(),
    {
        match self {
            MenuEntry::History(_) => Some(TrayEvent::OpenHistory),
            MenuEntry::Settings(_) => Some(TrayEvent::OpenSettings),
            MenuEntry::Quit(_) => Some(TrayEvent::Quit),
            MenuEntry::Status(_) | MenuEntry::Separator => None,
        }
    }
}

/// What the tray shows.
#[derive(Clone, Debug, PartialEq)]
pub struct MicloopTray {
    pub status: String,
    pub active: bool,
}

#[verifier::ext_equal]
pub struct Shown {
    pub status: Seq<char>,
    pub active: bool,
}

impl Shown {
    pub open spec fn icon(self) -> Seq<char> {
        if self.active {
            "microphone-sensitivity-high"@
        } else {
            "microphone-sensitivity-muted"@
        }
    }

    pub open spec fn tip(self) -> Seq<char> {
        "micloop: "@ + self.status
    }

    pub open spec fn lines(self) -> Seq<MenuLine> {
        seq![
            MenuLine::Status(self.status),
            MenuLine::Separator,
            MenuLine::History("録音履歴..."@),
            MenuLine::Settings("設定..."@),
            MenuLine::Quit("終了"@),
        ]
    }
}

impl View for MicloopTray {
    type V = Shown;

    open spec fn view(&self) -> Shown {
        Shown { status: self.status@, active: self.active }
    }
}

impl MicloopTray {
    /// The tray while the program starts.
    pub fn new() -> (tray: Self)
        ensures
            tray@ == (Shown { status: "起動中..."@, active: false }),
    {
        MicloopTray { status: "起動中...".to_string(), active: false }
    }

    pub fn id(&self) -> (id: &'static str)
        ensures
            id@ == "micloop"@,
    {
        "micloop"
    }

    pub fn title(&self) -> (title: &'static str)
        ensures
            title@ == "micloop"@,
    {
        "micloop"
    }

    /// The icon: a microphone, muted while the loopback is off.
    pub fn icon_name(&self) -> (name: &'static str)
        ensures
            name@ == if self@.active {
                "microphone-sensitivity-high"@
            } else {
                "microphone-sensitivity-muted"@
            },
            name@ == self@.icon(),
    {
        if self.active {
            "microphone-sensitivity-high"
        } else {
            "microphone-sensitivity-muted"
        }
    }

    /// The title of the tool tip.
    pub fn tool_tip(&self) -> (title: String)
        ensures
            title@ == "micloop: "@ + self@.status,
            title@ == self@.tip(),
    {
        "micloop: ".to_string().concat(self.status.as_str())
    }

    pub fn menu(&self) -> (menu: Vec<MenuEntry>)
        ensures
            menu@.map_values(|entry: MenuEntry| entry@) == seq![
                MenuLine::Status(self@.status),
                MenuLine::Separator,
                MenuLine::History("録音履歴..."@),
                MenuLine::Settings("設定..."@),
                MenuLine::Quit("終了"@),
            ],
            menu@.map_values(|entry: MenuEntry| entry@) == self@.lines(),
    {
        let mut menu: Vec<MenuEntry> = Vec::new();
        menu.push(MenuEntry::Status(self.status.clone()));
        menu.push(MenuEntry::Separator);
        menu.push(MenuEntry::History("録音履歴..."));
        menu.push(MenuEntry::Settings("設定..."));
        menu.push(MenuEntry::Quit("終了"));
        menu
    }

    pub fn set_status(&mut self, active: bool, status: String)
        ensures
            final(self)@ == (Shown { status: status@, active }),
    {
        self.active = active;
        self.status = status;
    }

    /// Shows the state that the loopback is in after the hotkey was handled.
    pub fn hotkey_handled(&mut self, active: bool, cfg: &Config)
        ensures
            final(self)@ == (Shown { status: status_text(active, base_text(cfg@)), active }),
    {
        self.set_status(active, engine_status(active, status_base(cfg).as_str()));
    }
}

/// The hotkey and the mode, as the status shows them.
pub open spec fn base_text(cfg: Settings) -> Seq<char> {
    crate::config::hotkey_text(cfg.modifiers, cfg.key) + " ("@ + cfg.mode.spec_name() + ")"@
}

/// The hotkey and the mode, as the status shows them.
pub fn status_base(cfg: &Config) -> (base: String)
    ensures
        base@ == base_text(cfg@),
{
    cfg.hotkey_label().concat(" (").concat(cfg.mode.name()).concat(")")
}

pub open spec fn status_text(active: bool, base: Seq<char>) -> Seq<char> {
    (if active {
        "ON"@
    } else {
        "OFF"@
    }) + " — "@ + base
}

/// The status while the hotkey is watched for.
pub fn engine_status(active: bool, base: &str) -> (status: String)
    ensures
        status@ == status_text(active, base@),
{
    let word = if active {
        "ON"
    } else {
        "OFF"
    };
    word.to_string().concat(" — ").concat(base)
}

// ---------------------------------------------------------------------------
// What happens
// ---------------------------------------------------------------------------

/// What happened to the tray.
#[derive(Clone, Copy, Debug, PartialEq, Eq, Structural)]
pub enum TrayEvent {
    /// The settings were asked for.
    OpenSettings,
    /// A settings window was closed.
    SettingsClosed,
    /// The recordings were asked for.
    OpenHistory,
    /// The program is to end.
    Quit,
    /// Nothing, for a while; `terminated` if the process was told to end.
    Tick { terminated: bool },
    /// Nobody is left to tell of anything.
    Disconnected,
}

/// What is to be done.
#[derive(Clone, Copy, Debug, PartialEq, Eq, Structural)]
pub enum TrayAction {
    Wait,
    /// Open a settings window; before that, stop watching for the hotkey and switch the
    /// loopback off, if so told.
    OpenSettings { stop_engine: bool },
    /// Open the window with the recordings.
    OpenHistory,
    /// Read the settings and watch for the hotkey.
    StartEngine,
    /// Stop watching for the hotkey that has just been started to be watched for.
    DiscardEngine,
    /// End; before that, stop watching for the hotkey and switch the loopback off, if so
    /// told.
    Exit { stop_engine: bool },
}

/// What the hotkey of the recordings does: it opens them when it goes down.
pub fn history_key_event(pressed: bool) -> (event: Option<TrayEvent>)
    ensures
        event == if pressed {
            Some(TrayEvent::OpenHistory)
        } else {
            None
        },
{
    if pressed {
        Some(TrayEvent::OpenHistory)
    } else {
        None
    }
}

/// The tray: what it shows, whether the hotkey is watched for, and how many settings
/// windows are open.
#[derive(Debug, PartialEq)]
pub struct Tray {
    pub shown: MicloopTray,
    pub engine: bool,
    pub windows: u32,
}

#[verifier::ext_equal]
pub struct TrayState {
    pub shown: Shown,
    pub engine: bool,
    pub windows: u32,
}

impl View for Tray {
    type V = TrayState;

    open spec fn view(&self) -> TrayState {
        TrayState { shown: self.shown@, engine: self.engine, windows: self.windows }
    }
}

pub open spec fn outcome_text(outcome: Result<(), String>) -> Result<(), Seq<char>> {
    match outcome {
        Ok(()) => Ok(()),
        Err(message) => Err(message@),
    }
}

impl TrayState {
    /// The hotkey is not watched for while a settings window is open.
    pub open spec fn well_formed(self) -> bool {
        self.engine ==> self.windows == 0
    }

    pub open spec fn exit(self) -> (TrayState, TrayAction) {
        (
            TrayState { engine: false, ..self },
            TrayAction::Exit { stop_engine: self.engine },
        )
    }

    /// Opens a settings window, as long as they can be counted.
    pub open spec fn open_settings(self) -> (TrayState, TrayAction) {
        if self.windows == u32::MAX {
            (self, TrayAction::Wait)
        } else {
            (
                TrayState {
                    shown: Shown { status: "設定中 (ホットキー停止)"@, active: false },
                    engine: false,
                    windows: (self.windows + 1) as u32,
                },
                TrayAction::OpenSettings { stop_engine: self.engine },
            )
        }
    }

    /// A settings window was closed. When none is left the hotkey is watched for again,
    /// unless it already is.
    pub open spec fn settings_closed(self) -> (TrayState, TrayAction) {
        let left = if self.windows > 0 {
            (self.windows - 1) as u32
        } else {
            0
        };
        (
            TrayState { windows: left, ..self },
            if left == 0 && !self.engine {
                TrayAction::StartEngine
            } else {
                TrayAction::Wait
            },
        )
    }

    pub open spec fn after(self, event: TrayEvent) -> (TrayState, TrayAction) {
        match event {
            TrayEvent::OpenSettings => self.open_settings(),
            TrayEvent::SettingsClosed => self.settings_closed(),
            TrayEvent::OpenHistory => (self, TrayAction::OpenHistory),
            TrayEvent::Quit => self.exit(),
            TrayEvent::Tick { terminated } => if terminated {
                self.exit()
            } else {
                (self, TrayAction::Wait)
            },
            TrayEvent::Disconnected => self.exit(),
        }
    }

    /// What follows when the hotkey of these settings is watched for, or cannot be. Where
    /// it is already watched for, or a settings window is open, nothing is changed, and
    /// what was just started is to be stopped again.
    pub open spec fn engine_started(
        self,
        cfg: Settings,
        outcome: Result<(), Seq<char>>,
    ) -> (TrayState, TrayAction) {
        match outcome {
            Ok(()) => if self.engine || self.windows > 0 {
                (self, TrayAction::DiscardEngine)
            } else {
                (
                    TrayState {
                        shown: Shown { status: status_text(false, base_text(cfg)), active: false },
                        engine: true,
                        ..self
                    },
                    TrayAction::Wait,
                )
            },
            Err(message) => (
                TrayState {
                    shown: Shown { status: "停止中: "@ + message, active: false },
                    ..self
                },
                TrayAction::Wait,
            ),
        }
    }
}

impl Tray {
    /// The tray as the program starts; the first thing to do is to watch for the hotkey.
    pub fn new() -> (tray: Self)
        ensures
            tray@ == (TrayState {
                shown: Shown { status: "起動中..."@, active: false },
                engine: false,
                windows: 0,
            }),
            tray@.well_formed(),
    {
        Tray { shown: MicloopTray::new(), engine: false, windows: 0 }
    }

    fn exit(&mut self) -> (action: TrayAction)
        ensures
            (final(self)@, action) == old(self)@.exit(),
    {
        let stop_engine = self.engine;
        self.engine = false;
        TrayAction::Exit { stop_engine }
    }

    fn open_settings(&mut self) -> (action: TrayAction)
        ensures
            (final(self)@, action) == old(self)@.open_settings(),
    {
        if self.windows == u32::MAX {
            return TrayAction::Wait;
        }
        let stop_engine = self.engine;
        self.engine = false;
        self.windows = self.windows + 1;
        self.shown.set_status(false, "設定中 (ホットキー停止)".to_string());
        TrayAction::OpenSettings { stop_engine }
    }

    fn settings_closed(&mut self) -> (action: TrayAction)
        ensures
            (final(self)@, action) == old(self)@.settings_closed(),
    {
        if self.windows > 0 {
            self.windows = self.windows - 1;
        }
        if self.windows == 0 && !self.engine {
            TrayAction::StartEngine
        } else {
            TrayAction::Wait
        }
    }

    /// Takes in what happened; says what is to be done.
    pub fn handle(&mut self, event: TrayEvent) -> (action: TrayAction)
        ensures
            (final(self)@, action) == old(self)@.after(event),
            old(self)@.well_formed() ==> final(self)@.well_formed(),
    {
        match event {
            TrayEvent::OpenSettings => self.open_settings(),
            TrayEvent::SettingsClosed => self.settings_closed(),
            TrayEvent::OpenHistory => TrayAction::OpenHistory,
            TrayEvent::Quit => self.exit(),
            TrayEvent::Tick { terminated } => if terminated {
                self.exit()
            } else {
                TrayAction::Wait
            },
            TrayEvent::Disconnected => self.exit(),
        }
    }

    /// Takes in whether the hotkey of these settings is now watched for, or what failed;
    /// says whether that is to stay so (`Wait`) or not (`DiscardEngine`).
    pub fn engine_started(&mut self, cfg: &Config, outcome: Result<(), String>) -> (action:
        TrayAction)
        ensures
            (final(self)@, action) == old(self)@.engine_started(cfg@, outcome_text(outcome)),
            old(self)@.well_formed() ==> final(self)@.well_formed(),
    {
        match outcome {
            Ok(()) => if self.engine || self.windows > 0 {
                TrayAction::DiscardEngine
            } else {
                self.engine = true;
                self.shown.hotkey_handled(false, cfg);
                TrayAction::Wait
            },
            Err(message) => {
                self.shown.set_status(
                    false,
                    "停止中: ".to_string().concat(message.as_str()),
                );
                TrayAction::Wait
            },
        }
    }
}

// ---------------------------------------------------------------------------
// What always holds
// ---------------------------------------------------------------------------

/// An event, and what comes of it if it makes the hotkey to be watched for.
pub struct Turn {
    pub event: TrayEvent,
    pub cfg: Settings,
    pub outcome: Result<(), Seq<char>>,
}

impl TrayState {
    pub open spec fn after_turn(self, turn: Turn) -> TrayState {
        let (next, action) = self.after(turn.event);
        if action == TrayAction::StartEngine {
            next.engine_started(turn.cfg, turn.outcome).0
        } else {
            next
        }
    }

    pub open spec fn after_turns(self, turns: Seq<Turn>) -> TrayState
        decreases turns.len(),
    {
        if turns.len() == 0 {
            self
        } else {
            self.after_turns(turns.drop_last()).after_turn(turns.last())
        }
    }

    /// How many engines live after a turn, if so many did before: by what the actions
    /// start and stop.
    pub open spec fn engines_after_turn(self, engines: int, turn: Turn) -> int {
        let (next, action) = self.after(turn.event);
        match action {
            TrayAction::OpenSettings { stop_engine: true } => engines - 1,
            TrayAction::Exit { stop_engine: true } => engines - 1,
            TrayAction::StartEngine => if turn.outcome is Ok && next.engine_started(
                turn.cfg,
                turn.outcome,
            ).1 != TrayAction::DiscardEngine {
                engines + 1
            } else {
                engines
            },
            _ => engines,
        }
    }

    pub open spec fn engines_after_turns(self, engines: int, turns: Seq<Turn>) -> int
        decreases turns.len(),
    {
        if turns.len() == 0 {
            engines
        } else {
            self.after_turns(turns.drop_last()).engines_after_turn(
                self.engines_after_turns(engines, turns.drop_last()),
                turns.last(),
            )
        }
    }
}

pub open spec fn engines_of(tray: TrayState) -> int {
    if tray.engine {
        1
    } else {
        0
    }
}

/// Whatever happens, and in whatever order, the hotkey is not watched for while a settings
/// window is open; and it is never watched for twice: no engine is started before the
/// earlier one was stopped.
pub proof fn law_one_engine_and_none_beside_settings(tray: TrayState, turns: Seq<Turn>)
    requires
        tray.well_formed(),
    ensures
        tray.after_turns(turns).well_formed(),
        tray.engines_after_turns(engines_of(tray), turns) == engines_of(tray.after_turns(turns)),
        0 <= tray.engines_after_turns(engines_of(tray), turns) <= 1,
        tray.after_turns(turns).windows > 0 ==> tray.engines_after_turns(engines_of(tray), turns)
            == 0,
    decreases turns.len(),
{
    if turns.len() > 0 {
        law_one_engine_and_none_beside_settings(tray, turns.drop_last());
    }
}

/// Opening the settings stops what was watched for the hotkey.
pub proof fn law_settings_stop_the_hotkey(tray: TrayState)
    requires
        tray.windows < u32::MAX,
    ensures
        !tray.after(TrayEvent::OpenSettings).0.engine,
        !tray.after(TrayEvent::OpenSettings).0.shown.active,
        tray.after(TrayEvent::OpenSettings).0.windows == tray.windows + 1,
        tray.after(TrayEvent::OpenSettings).1 == (TrayAction::OpenSettings {
            stop_engine: tray.engine,
        }),
{
}

/// Closing a settings window brings the hotkey back exactly if it was the last one.
pub proof fn law_last_window_brings_the_hotkey_back(tray: TrayState, cfg: Settings)
    requires
        tray.well_formed(),
        tray.windows > 0,
    ensures
        ({
            let (after, action) = tray.after(TrayEvent::SettingsClosed);
            &&& after.windows == tray.windows - 1
            &&& action == TrayAction::StartEngine <==> after.windows == 0
            &&& action == TrayAction::Wait <==> after.windows > 0
            &&& after.windows == 0 ==> {
                let (started, kept) = after.engine_started(cfg, Ok(()));
                &&& started.engine
                &&& started.shown.status == status_text(false, base_text(cfg))
                &&& kept == TrayAction::Wait
            }
        }),
{
}

/// When the program ends, what was watched for the hotkey is stopped; and nothing but
/// being told so makes it end.
pub proof fn law_exit_stops_the_engine(tray: TrayState, event: TrayEvent)
    ensures
        tray.after(event).1 is Exit <==> {
            ||| event == TrayEvent::Quit
            ||| event == TrayEvent::Disconnected
            ||| event == (TrayEvent::Tick { terminated: true })
        },
        tray.after(event).1 matches TrayAction::Exit { stop_engine } ==> stop_engine == tray.engine
            && !tray.after(event).0.engine,
{
}

/// The recordings can be opened at any time, and that changes nothing else.
pub proof fn law_history_changes_nothing(tray: TrayState)
    ensures
        tray.after(TrayEvent::OpenHistory) == (tray, TrayAction::OpenHistory),
{
}

/// What the tray shows: its icon tells whether the loopback is on, and both tool tip and
/// menu show the status.
pub proof fn law_tray_shows_its_state(shown: Shown, other: Shown)
    ensures
        shown.active ==> shown.icon() == "microphone-sensitivity-high"@,
        !shown.active ==> shown.icon() == "microphone-sensitivity-muted"@,
        shown.tip() == "micloop: "@ + shown.status,
        shown.tip() == other.tip() ==> shown.status == other.status,
        shown.lines()[0] == MenuLine::Status(shown.status),
        shown.lines().skip(1) == other.lines().skip(1),
{
    if shown.tip() == other.tip() {
        let head = "micloop: "@;
        assert(shown.tip().skip(head.len() as int) =~= shown.status);
        assert(other.tip().skip(head.len() as int) =~= other.status);
    }
    assert(shown.lines().skip(1) =~= other.lines().skip(1));
}

/// The menu opens the recordings and the settings and ends the program, each from one
/// entry that says so, and only those can be clicked.
pub proof fn law_menu(shown: Shown)
    ensures
        shown.lines().len() == 5,
        shown.lines()[0].sends() is None,
        shown.lines()[1] == MenuLine::Separator && shown.lines()[1].sends() is None,
        shown.lines()[2] == MenuLine::History("録音履歴..."@),
        shown.lines()[2].sends() == Some(TrayEvent::OpenHistory),
        shown.lines()[3] == MenuLine::Settings("設定..."@),
        shown.lines()[3].sends() == Some(TrayEvent::OpenSettings),
        shown.lines()[4] == MenuLine::Quit("終了"@),
        shown.lines()[4].sends() == Some(TrayEvent::Quit),
{
}

/// While the hotkey is watched for, the status says whether the loopback is on, and by
/// which hotkey and in which mode it is switched.
pub proof fn law_status(active: bool, base: Seq<char>, cfg: Settings)
    ensures
        active ==> status_text(active, base) == "ON"@ + " — "@ + base,
        !active ==> status_text(active, base) == "OFF"@ + " — "@ + base,
        cfg.mode == Mode::Toggle ==> base_text(cfg) == crate::config::hotkey_text(
            cfg.modifiers,
            cfg.key,
        ) + " ("@ + "toggle"@ + ")"@,
        cfg.mode == Mode::Hold ==> base_text(cfg) == crate::config::hotkey_text(
            cfg.modifiers,
            cfg.key,
        ) + " ("@ + "hold"@ + ")"@,
{
}

/// Each event does its own to the tray: asking for the settings opens one more window and
/// stops the hotkey, which the status says; closing one counts it off; and nothing else
/// changes what is shown or how many windows are open.
pub proof fn law_events(tray: TrayState, event: TrayEvent)
    ensures
        ({
            let (after, action) = tray.after(event);
            &&& event == TrayEvent::OpenSettings && tray.windows < u32::MAX ==> {
                &&& after.windows == tray.windows + 1
                &&& !after.engine
                &&& after.shown.status == "設定中 (ホットキー停止)"@
                &&& !after.shown.active
                &&& action == (TrayAction::OpenSettings { stop_engine: tray.engine })
            }
            &&& event == TrayEvent::SettingsClosed ==> {
                &&& after.shown == tray.shown
                &&& after.engine == tray.engine
                &&& tray.windows > 0 ==> after.windows == tray.windows - 1
                &&& tray.windows == 0 ==> after.windows == 0
                &&& action == TrayAction::StartEngine <==> after.windows == 0 && !tray.engine
                &&& action == TrayAction::Wait <==> after.windows > 0 || tray.engine
            }
            &&& event == TrayEvent::OpenHistory ==> after == tray && action
                == TrayAction::OpenHistory
            &&& event == (TrayEvent::Tick { terminated: false }) ==> after == tray && action
                == TrayAction::Wait
            &&& action is Exit ==> {
                &&& after.shown == tray.shown
                &&& after.windows == tray.windows
                &&& !after.engine
                &&& action == (TrayAction::Exit { stop_engine: tray.engine })
            }
        }),
{
}

/// Where the hotkey could be watched for, it is, and the status says so, with the loopback
/// off; where it could not, the status says why. With an engine already running or a
/// window open, a second one is not kept, and nothing changes.
pub proof fn law_engine_outcomes(tray: TrayState, cfg: Settings, message: Seq<char>)
    ensures
        ({
            let (after, action) = tray.engine_started(cfg, Ok(()));
            &&& !tray.engine && tray.windows == 0 ==> {
                &&& after.engine
                &&& after.windows == 0
                &&& after.shown.status == "OFF"@ + " — "@ + base_text(cfg)
                &&& !after.shown.active
                &&& action == TrayAction::Wait
            }
            &&& tray.engine || tray.windows > 0 ==> after == tray && action
                == TrayAction::DiscardEngine
        }),
        ({
            let (after, action) = tray.engine_started(cfg, Err(message));
            &&& after.shown.status == "停止中: "@ + message
            &&& !after.shown.active
            &&& after.engine == tray.engine
            &&& after.windows == tray.windows
            &&& action == TrayAction::Wait
        }),
{
}

/// What is stated of the tray is what it holds.
pub proof fn law_tray_is_what_it_shows(tray: Tray, entry: MenuEntry)
    ensures
        tray@.shown.status == tray.shown.status@,
        tray@.shown.active == tray.shown.active,
        tray@.engine == tray.engine,
        tray@.windows == tray.windows,
        entry matches MenuEntry::Status(status) ==> entry@ == MenuLine::Status(status@),
        entry is Separator <==> entry@ == MenuLine::Separator,
        entry matches MenuEntry::History(label) ==> entry@ == MenuLine::History(label@),
        entry matches MenuEntry::Settings(label) ==> entry@ == MenuLine::Settings(label@),
        entry matches MenuEntry::Quit(label) ==> entry@ == MenuLine::Quit(label@),
{
}

} // verus!
