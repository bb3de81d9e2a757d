//! The user's settings (`~/.config/micloop/config.json`), shared by the command line and
//! the settings window.

use vstd::prelude::*;
use vstd::string::*;

use crate::path;
use crate::text;

verus! {

/// How the hotkey drives the loopback.
#[derive(Clone, Copy, Debug, PartialEq, Eq, Structural)]
pub enum Mode {
    /// Each press switches between on and off.
    Toggle,
    /// On for as long as the key is held.
    Hold,
}

impl Mode {
    pub open spec fn spec_name(self) -> Seq<char> {
        match self {
            Mode::Toggle => "toggle"@,
            Mode::Hold => "hold"@,
        }
    }

    /// The name by which the mode is shown.
    pub fn name(self) -> (s: &'static str)
        ensures
            s@ == self.spec_name(),
    {
        match self {
            Mode::Toggle => "toggle",
            Mode::Hold => "hold",
        }
    }
}

/// What is heard.
#[derive(Clone, Copy, Debug, PartialEq, Eq, Structural)]
pub enum Output {
    /// The microphone, as it is spoken into.
    Realtime,
    /// A recording made while on, played when switched off.
    Delayed,
}

/// A modifier key, left or right.
#[derive(Clone, Copy, Debug, PartialEq, Eq, Structural)]
pub enum Modifier {
    Ctrl,
    Shift,
    Alt,
    Super,
}

pub const ALL_MODIFIERS: [Modifier; 4] = [
    Modifier::Ctrl,
    Modifier::Shift,
    Modifier::Alt,
    Modifier::Super,
];

impl Modifier {
    pub open spec fn spec_name(self) -> Seq<char> {
        match self {
            Modifier::Ctrl => "Ctrl"@,
            Modifier::Shift => "Shift"@,
            Modifier::Alt => "Alt"@,
            Modifier::Super => "Super"@,
        }
    }

    /// The name by which the modifier is shown.
    pub fn name(self) -> (s: &'static str)
        ensures
            s@ == self.spec_name(),
    {
        match self {
            Modifier::Ctrl => "Ctrl",
            Modifier::Shift => "Shift",
            Modifier::Alt => "Alt",
            Modifier::Super => "Super",
        }
    }
}

#[derive(Clone, Debug, PartialEq)]
pub struct Config {
    pub key: String,
    pub modifiers: Vec<Modifier>,
    pub mode: Mode,
    pub latency_msec: u32,
    pub output: Output,
    /// The longest delayed recording, in seconds: recordings are kept in memory.
    pub max_record_secs: u32,
    /// The hotkey that opens the recordings; none if that is switched off.
    pub history_key: Option<String>,
    pub history_modifiers: Vec<Modifier>,
}

/// The settings as mathematical values.
#[verifier::ext_equal]
pub struct Settings {
    pub key: Seq<char>,
    pub modifiers: Seq<Modifier>,
    pub mode: Mode,
    pub latency_msec: u32,
    pub output: Output,
    pub max_record_secs: u32,
    pub history_key: Option<Seq<char>>,
    pub history_modifiers: Seq<Modifier>,
}

pub open spec fn optional_text(s: Option<String>) -> Option<Seq<char>> {
    match s {
        Some(s) => Some(s@),
        None => None,
    }
}

impl View for Config {
    type V = Settings;

    open spec fn view(&self) -> Settings {
        Settings {
            key: self.key@,
            modifiers: self.modifiers@,
            mode: self.mode,
            latency_msec: self.latency_msec,
            output: self.output,
            max_record_secs: self.max_record_secs,
            history_key: optional_text(self.history_key),
            history_modifiers: self.history_modifiers@,
        }
    }
}

/// The settings of a user who never changed any.
pub open spec fn default_settings() -> Settings {
    Settings {
        key: "KEY_SCROLLLOCK"@,
        modifiers: seq![Modifier::Ctrl],
        mode: Mode::Toggle,
        latency_msec: 20,
        output: Output::Realtime,
        max_record_secs: 600,
        history_key: None,
        history_modifiers: seq![],
    }
}

impl Default for Config {
    fn default() -> (cfg: Self)
        ensures
            cfg@ == default_settings(),
            cfg.key@ == "KEY_SCROLLLOCK"@,
            cfg.modifiers@ == seq![Modifier::Ctrl],
            cfg.mode == Mode::Toggle,
            cfg.latency_msec == 20,
            cfg.output == Output::Realtime,
            cfg.max_record_secs == 600,
            cfg.history_key is None,
            cfg.history_modifiers@.len() == 0,
    {
        Config {
            key: "KEY_SCROLLLOCK".to_string(),
            modifiers: vec![Modifier::Ctrl],
            mode: Mode::Toggle,
            latency_msec: 20,
            output: Output::Realtime,
            max_record_secs: 600,
            history_key: None,
            history_modifiers: Vec::new(),
        }
    }
}

// ---------------------------------------------------------------------------
// Hotkeys on display
// ---------------------------------------------------------------------------

/// The modifiers' names, each with a plus sign behind it.
pub open spec fn modifiers_label(modifiers: Seq<Modifier>) -> Seq<char>
    decreases modifiers.len(),
{
    if modifiers.len() == 0 {
        Seq::empty()
    } else {
        modifiers_label(modifiers.drop_last()) + modifiers.last().spec_name() + "+"@
    }
}

/// How a hotkey is shown: the modifiers and the key's name without its `KEY_`, joined
/// by plus signs.
pub open spec fn hotkey_text(modifiers: Seq<Modifier>, key: Seq<char>) -> Seq<char> {
    modifiers_label(modifiers) + text::without_prefix(key, "KEY_"@)
}

/// The hotkey as it is shown, for example `Ctrl+Super+M`.
pub fn format_hotkey(modifiers: &[Modifier], key: &str) -> (label: String)
    ensures
        label@ == hotkey_text(modifiers@, key@),
{
    let mut label = String::new();
    let mut i: usize = 0;
    assert(modifiers@.take(0) == Seq::<Modifier>::empty());
    while i < modifiers.len()
        invariant
            i <= modifiers.len(),
            label@ == modifiers_label(modifiers@.take(i as int)),
        decreases modifiers.len() - i,
    {
        label.append(modifiers[i].name());
        label.append("+");
        assert(modifiers@.take(i + 1).drop_last() == modifiers@.take(i as int));
        i = i + 1;
    }
    assert(modifiers@.take(i as int) == modifiers@);
    label.append(text::strip_prefix(key, "KEY_"));
    label
}

impl Config {
    pub fn hotkey_label(&self) -> (label: String)
        ensures
            label@ == hotkey_text(self@.modifiers, self@.key),
    {
        format_hotkey(self.modifiers.as_slice(), self.key.as_str())
    }

    pub fn history_hotkey_label(&self) -> (label: Option<String>)
        ensures
            optional_text(label) == match self@.history_key {
                Some(key) => Some(hotkey_text(self@.history_modifiers, key)),
                None => None::<Seq<char>>,
            },
    {
        match &self.history_key {
            Some(key) => Some(format_hotkey(self.history_modifiers.as_slice(), key.as_str())),
            None => None,
        }
    }

    /// The hotkey that opens the recordings: its modifiers and the name of its key; none if
    /// that is switched off.
    pub fn history_hotkey(&self) -> (hotkey: Option<(Vec<Modifier>, String)>)
        ensures
            hotkey is None <==> self@.history_key is None,
            hotkey matches Some((modifiers, key)) ==> modifiers@ == self@.history_modifiers && Some(
                key@,
            ) == self@.history_key,
    {
        match &self.history_key {
            Some(key) => Some(
                (copy_modifiers(self.history_modifiers.as_slice()), key.clone()),
            ),
            None => None,
        }
    }
}

// ---------------------------------------------------------------------------
// The stored settings
// ---------------------------------------------------------------------------

/// What a settings file holds: each field may be missing.
#[derive(Debug, PartialEq)]
pub struct StoredConfig {
    pub key: Option<String>,
    pub modifiers: Option<Vec<Modifier>>,
    pub mode: Option<Mode>,
    pub latency_msec: Option<u32>,
    pub output: Option<Output>,
    pub max_record_secs: Option<u32>,
    pub history_key: Option<Option<String>>,
    pub history_modifiers: Option<Vec<Modifier>>,
}

pub open spec fn or_default<T>(field: Option<T>, default: T) -> T {
    match field {
        Some(value) => value,
        None => default,
    }
}

pub open spec fn optional_modifiers(field: Option<Vec<Modifier>>) -> Option<Seq<Modifier>> {
    match field {
        Some(modifiers) => Some(modifiers@),
        None => None,
    }
}

pub open spec fn optional_setting(field: Option<Option<String>>) -> Option<Option<Seq<char>>> {
    match field {
        Some(value) => Some(optional_text(value)),
        None => None,
    }
}

impl StoredConfig {
    /// The settings that a file stands for: what it leaves out has its default.
    pub open spec fn settings(self) -> Settings {
        let default = default_settings();
        Settings {
            key: or_default(optional_text(self.key), default.key),
            modifiers: or_default(optional_modifiers(self.modifiers), default.modifiers),
            mode: or_default(self.mode, default.mode),
            latency_msec: or_default(self.latency_msec, default.latency_msec),
            output: or_default(self.output, default.output),
            max_record_secs: or_default(self.max_record_secs, default.max_record_secs),
            history_key: or_default(optional_setting(self.history_key), default.history_key),
            history_modifiers: or_default(
                optional_modifiers(self.history_modifiers),
                default.history_modifiers,
            ),
        }
    }

    /// Nothing is left out.
    pub open spec fn complete(self) -> bool {
        &&& self.key is Some
        &&& self.modifiers is Some
        &&& self.mode is Some
        &&& self.latency_msec is Some
        &&& self.output is Some
        &&& self.max_record_secs is Some
        &&& self.history_key is Some
        &&& self.history_modifiers is Some
    }
}

/// The settings that a file read as `stored` gives; a file that is missing or unreadable
/// (`None`) gives the defaults.
pub open spec fn loaded(stored: Option<StoredConfig>) -> Settings {
    match stored {
        Some(stored) => stored.settings(),
        None => default_settings(),
    }
}

/// The settings that the file read as `stored` gives.
pub fn load(stored: Option<StoredConfig>) -> (cfg: Config)
    ensures
        cfg@ == loaded(stored),
        stored matches Some(stored) ==> {
            &&& stored.key matches Some(key) ==> cfg.key@ == key@
            &&& stored.modifiers matches Some(modifiers) ==> cfg.modifiers@ == modifiers@
            &&& stored.mode matches Some(mode) ==> cfg.mode == mode
            &&& stored.latency_msec matches Some(msec) ==> cfg.latency_msec == msec
            &&& stored.output matches Some(output) ==> cfg.output == output
            &&& stored.max_record_secs matches Some(secs) ==> cfg.max_record_secs == secs
            &&& stored.history_key matches Some(key) ==> cfg.history_key == key
            &&& stored.history_modifiers matches Some(modifiers) ==> cfg.history_modifiers@
                == modifiers@
        },
{
    let default = Config::default();
    match stored {
        Some(stored) => Config {
            key: match stored.key {
                Some(key) => key,
                None => default.key,
            },
            modifiers: match stored.modifiers {
                Some(modifiers) => modifiers,
                None => default.modifiers,
            },
            mode: match stored.mode {
                Some(mode) => mode,
                None => default.mode,
            },
            latency_msec: match stored.latency_msec {
                Some(latency_msec) => latency_msec,
                None => default.latency_msec,
            },
            output: match stored.output {
                Some(output) => output,
                None => default.output,
            },
            max_record_secs: match stored.max_record_secs {
                Some(max_record_secs) => max_record_secs,
                None => default.max_record_secs,
            },
            history_key: match stored.history_key {
                Some(history_key) => history_key,
                None => default.history_key,
            },
            history_modifiers: match stored.history_modifiers {
                Some(history_modifiers) => history_modifiers,
                None => default.history_modifiers,
            },
        },
        None => default,
    }
}

/// A copy of `modifiers`.
pub fn copy_modifiers(modifiers: &[Modifier]) -> (copy: Vec<Modifier>)
    ensures
        copy@ == modifiers@,
{
    let mut copy: Vec<Modifier> = Vec::new();
    let mut i: usize = 0;
    while i < modifiers.len()
        invariant
            i <= modifiers.len(),
            copy@ == modifiers@.take(i as int),
        decreases modifiers.len() - i,
    {
        copy.push(modifiers[i]);
        i = i + 1;
    }
    copy
}

/// What a settings file is to hold for `cfg`: every field of it, so that loading the
/// file gives the same settings again.
pub fn save(cfg: &Config) -> (stored: StoredConfig)
    ensures
        stored.complete(),
        loaded(Some(stored)) == cfg@,
        stored.key matches Some(key) && key@ == cfg.key@,
        stored.modifiers matches Some(modifiers) && modifiers@ == cfg.modifiers@,
        stored.mode == Some(cfg.mode),
        stored.latency_msec == Some(cfg.latency_msec),
        stored.output == Some(cfg.output),
        stored.max_record_secs == Some(cfg.max_record_secs),
        stored.history_key matches Some(key) && optional_text(key) == cfg@.history_key,
        stored.history_modifiers matches Some(modifiers) && modifiers@ == cfg.history_modifiers@,
{
    StoredConfig {
        key: Some(cfg.key.clone()),
        modifiers: Some(copy_modifiers(cfg.modifiers.as_slice())),
        mode: Some(cfg.mode),
        latency_msec: Some(cfg.latency_msec),
        output: Some(cfg.output),
        max_record_secs: Some(cfg.max_record_secs),
        history_key: Some(cfg.history_key.clone()),
        history_modifiers: Some(copy_modifiers(cfg.history_modifiers.as_slice())),
    }
}

/// The text of a settings file whose JSON is `json`: one line end behind it.
pub fn file_text(json: String) -> (contents: String)
    ensures
        contents@ == json@ + "\n"@,
{
    json.concat("\n")
}

// ---------------------------------------------------------------------------
// Where the settings are
// ---------------------------------------------------------------------------

/// The home directory. Without one there is nothing to fall back on.
pub fn home_dir(home: Option<&[u8]>) -> (dir: Vec<u8>)
    requires
        home is Some,
    ensures
        dir@ == home->0@,
{
    path::copy(home.unwrap())
}

/// The path of the settings file for the values of `XDG_CONFIG_HOME` and `HOME`.
pub open spec fn config_file(config_home: Option<&[u8]>, home: Option<&[u8]>) -> Seq<u8> {
    let base = path::directory_or(
        config_home,
        path::joined(home->0@, ".config".spec_bytes()),
    );
    path::joined(path::joined(base, "micloop".spec_bytes()), "config.json".spec_bytes())
}

/// Where the settings are kept, for the values of `XDG_CONFIG_HOME` and `HOME`.
pub fn config_path(config_home: Option<&[u8]>, home: Option<&[u8]>) -> (file: Vec<u8>)
    requires
        config_home is Some || home is Some,
    ensures
        file@ == config_file(config_home, home),
{
    let base = match config_home {
        Some(dir) => path::copy(dir),
        None => path::join(home_dir(home).as_slice(), ".config"),
    };
    let dir = path::join(base.as_slice(), "micloop");
    path::join(dir.as_slice(), "config.json")
}

// ---------------------------------------------------------------------------
// What always holds
// ---------------------------------------------------------------------------

/// The settings hold what the fields hold, each on its own.
pub proof fn law_settings_are_the_fields(cfg: Config)
    ensures
        cfg@.key == cfg.key@,
        cfg@.modifiers == cfg.modifiers@,
        cfg@.mode == cfg.mode,
        cfg@.latency_msec == cfg.latency_msec,
        cfg@.output == cfg.output,
        cfg@.max_record_secs == cfg.max_record_secs,
        cfg.history_key matches Some(key) ==> cfg@.history_key == Some(key@),
        cfg.history_key is None ==> cfg@.history_key is None,
        cfg@.history_modifiers == cfg.history_modifiers@,
{
}

/// Every field of a file counts on its own: where the file holds it, the settings have
/// that value, whichever other fields are missing; where it does not, they have the
/// default of that field.
pub proof fn law_each_stored_field_counts(stored: StoredConfig)
    ensures
        ({
            let cfg = loaded(Some(stored));
            &&& stored.key matches Some(key) ==> cfg.key == key@
            &&& stored.key is None ==> cfg.key == "KEY_SCROLLLOCK"@
            &&& stored.modifiers matches Some(modifiers) ==> cfg.modifiers == modifiers@
            &&& stored.modifiers is None ==> cfg.modifiers == seq![Modifier::Ctrl]
            &&& stored.mode matches Some(mode) ==> cfg.mode == mode
            &&& stored.mode is None ==> cfg.mode == Mode::Toggle
            &&& stored.latency_msec matches Some(msec) ==> cfg.latency_msec == msec
            &&& stored.latency_msec is None ==> cfg.latency_msec == 20
            &&& stored.output matches Some(output) ==> cfg.output == output
            &&& stored.output is None ==> cfg.output == Output::Realtime
            &&& stored.max_record_secs matches Some(secs) ==> cfg.max_record_secs == secs
            &&& stored.max_record_secs is None ==> cfg.max_record_secs == 600
            &&& stored.history_key matches Some(Some(key)) ==> cfg.history_key == Some(key@)
            &&& stored.history_key matches Some(None) ==> cfg.history_key is None
            &&& stored.history_key is None ==> cfg.history_key is None
            &&& stored.history_modifiers matches Some(modifiers) ==> cfg.history_modifiers
                == modifiers@
            &&& stored.history_modifiers is None ==> cfg.history_modifiers.len() == 0
        }),
{
}

/// Without a file every setting has its default, as with a file that holds nothing.
pub proof fn law_missing_file_is_an_empty_one(nothing: StoredConfig)
    requires
        nothing.key is None,
        nothing.modifiers is None,
        nothing.mode is None,
        nothing.latency_msec is None,
        nothing.output is None,
        nothing.max_record_secs is None,
        nothing.history_key is None,
        nothing.history_modifiers is None,
    ensures
        loaded(None) == loaded(Some(nothing)),
        loaded(None) == default_settings(),
{
}

/// Two files that agree in a field give settings that agree in it, whatever else they
/// hold.
pub proof fn law_stored_fields_are_independent(a: StoredConfig, b: StoredConfig)
    ensures
        a.key == b.key ==> loaded(Some(a)).key == loaded(Some(b)).key,
        a.modifiers == b.modifiers ==> loaded(Some(a)).modifiers == loaded(Some(b)).modifiers,
        a.mode == b.mode ==> loaded(Some(a)).mode == loaded(Some(b)).mode,
        a.latency_msec == b.latency_msec ==> loaded(Some(a)).latency_msec == loaded(
            Some(b),
        ).latency_msec,
        a.output == b.output ==> loaded(Some(a)).output == loaded(Some(b)).output,
        a.max_record_secs == b.max_record_secs ==> loaded(Some(a)).max_record_secs == loaded(
            Some(b),
        ).max_record_secs,
        a.history_key == b.history_key ==> loaded(Some(a)).history_key == loaded(
            Some(b),
        ).history_key,
        a.history_modifiers == b.history_modifiers ==> loaded(Some(a)).history_modifiers == loaded(
            Some(b),
        ).history_modifiers,
{
}

/// The names by which the modes and the modifiers are shown. No two of a kind share one.
pub proof fn law_names_tell_apart(m: Mode, n: Mode, a: Modifier, b: Modifier)
    ensures
        m == Mode::Toggle ==> m.spec_name() == "toggle"@,
        m == Mode::Hold ==> m.spec_name() == "hold"@,
        a == Modifier::Ctrl ==> a.spec_name() == "Ctrl"@,
        a == Modifier::Shift ==> a.spec_name() == "Shift"@,
        a == Modifier::Alt ==> a.spec_name() == "Alt"@,
        a == Modifier::Super ==> a.spec_name() == "Super"@,
        m.spec_name() == n.spec_name() ==> m == n,
        a.spec_name() == b.spec_name() ==> a == b,
{
    reveal_strlit("toggle");
    reveal_strlit("hold");
    reveal_strlit("Ctrl");
    reveal_strlit("Shift");
    reveal_strlit("Alt");
    reveal_strlit("Super");
    assert("toggle"@[0] == 't' && "hold"@[0] == 'h');
    assert("Ctrl"@[0] == 'C' && "Shift"@[1] == 'h' && "Alt"@[0] == 'A' && "Super"@[1] == 'u');
    assert("Shift"@[0] == 'S' && "Super"@[0] == 'S');
}

/// A hotkey is shown modifier by modifier, in the order in which they stand, each with a
/// plus sign behind it, and then its key. Of the key's name only a `KEY_` in front is left
/// out.
pub proof fn law_hotkey_is_shown_in_order(m: Modifier, modifiers: Seq<Modifier>, key: Seq<char>)
    ensures
        hotkey_text(seq![m] + modifiers, key) == m.spec_name() + "+"@ + hotkey_text(
            modifiers,
            key,
        ),
        hotkey_text(Seq::empty(), "KEY_"@ + key) == key,
        !(exists|rest: Seq<char>| key == #[trigger] ("KEY_"@ + rest)) ==> hotkey_text(
            Seq::empty(),
            key,
        ) == key,
{
    lemma_modifiers_label(m, modifiers);
    text::law_prefixes("KEY_"@, key, key);
    assert(hotkey_text(seq![m] + modifiers, key) =~= m.spec_name() + "+"@ + hotkey_text(
        modifiers,
        key,
    ));
    assert(modifiers_label(Seq::empty()) + text::without_prefix("KEY_"@ + key, "KEY_"@) =~= key);
    assert(modifiers_label(Seq::empty()) + text::without_prefix(key, "KEY_"@)
        =~= text::without_prefix(key, "KEY_"@));
}

proof fn lemma_modifiers_label(m: Modifier, modifiers: Seq<Modifier>)
    ensures
        modifiers_label(seq![m] + modifiers) == m.spec_name() + "+"@ + modifiers_label(modifiers),
    decreases modifiers.len(),
{
    let all = seq![m] + modifiers;
    if modifiers.len() == 0 {
        assert(all.drop_last() =~= Seq::empty());
        assert(modifiers_label(all.drop_last()) =~= Seq::empty());
        assert(modifiers_label(all) =~= m.spec_name() + "+"@ + modifiers_label(modifiers));
    } else {
        lemma_modifiers_label(m, modifiers.drop_last());
        assert(all.drop_last() =~= seq![m] + modifiers.drop_last());
        assert(all.last() == modifiers.last());
        assert(modifiers_label(all) =~= m.spec_name() + "+"@ + modifiers_label(modifiers));
    }
}

/// The settings file stands in a directory of its own: `micloop/config.json` in the
/// directory that `XDG_CONFIG_HOME` names, whatever `HOME` is, and in `.config` below
/// `HOME` where it is not set.
pub proof fn law_config_file(dir: &[u8], home: Option<&[u8]>, own: &[u8])
    requires
        dir@.len() > 0,
        dir@.last() != 47,
        own@.len() > 0,
        own@.last() != 47,
    ensures
        config_file(Some(dir), home) == dir@ + seq![47u8] + "micloop".spec_bytes() + seq![47u8]
            + "config.json".spec_bytes(),
        config_file(None, Some(own)) == own@ + seq![47u8] + ".config".spec_bytes() + seq![47u8]
            + "micloop".spec_bytes() + seq![47u8] + "config.json".spec_bytes(),
        forall|any: &[u8], other: Option<&[u8]>| #[trigger]
            config_file(Some(any), other) == path::joined(
                path::joined(any@, "micloop".spec_bytes()),
                "config.json".spec_bytes(),
            ),
{
    path::lemma_literal_parts();
    assert(config_file(Some(dir), home) =~= dir@ + seq![47u8] + "micloop".spec_bytes()
        + seq![47u8] + "config.json".spec_bytes());
    assert(config_file(None, Some(own)) =~= own@ + seq![47u8] + ".config".spec_bytes()
        + seq![47u8] + "micloop".spec_bytes() + seq![47u8] + "config.json".spec_bytes());
}

} // verus!
