//! Global hotkeys, from the events of the input devices.
//!
//! Key events are read from the devices themselves, so that they arrive whichever
//! window has the focus.

use std::collections::HashSet;

use vstd::prelude::*;

use crate::config::{Modifier, ALL_MODIFIERS};
use crate::text;

verus! {

broadcast use vstd::std_specs::hash::group_hash_axioms;

// ---------------------------------------------------------------------------
// Keys
// ---------------------------------------------------------------------------

/// Key names are looked up among the codes below this one.
pub const KEY_CODES: u16 = 0x2ff;

pub const KEY_ESC: u16 = 1;

pub const KEY_LEFTCTRL: u16 = 29;

pub const KEY_RIGHTCTRL: u16 = 97;

pub const KEY_LEFTSHIFT: u16 = 42;

pub const KEY_RIGHTSHIFT: u16 = 54;

pub const KEY_LEFTALT: u16 = 56;

pub const KEY_RIGHTALT: u16 = 100;

pub const KEY_LEFTMETA: u16 = 125;

pub const KEY_RIGHTMETA: u16 = 126;

pub const ALL_MODIFIER_KEYS: [u16; 8] = [
    KEY_LEFTCTRL,
    KEY_RIGHTCTRL,
    KEY_LEFTSHIFT,
    KEY_RIGHTSHIFT,
    KEY_LEFTALT,
    KEY_RIGHTALT,
    KEY_LEFTMETA,
    KEY_RIGHTMETA,
];

/// A key, as `evdev` has it: a code.
#[verifier::external_type_specification]
#[verifier::external_body]
pub struct ExKey(evdev::Key);

/// A set of keys or of other attributes, as `evdev` reads it from a device.
#[verifier::external_type_specification]
#[verifier::external_body]
#[verifier::reject_recursive_types(T)]
pub struct ExAttributeSetRef<T>(evdev::AttributeSetRef<T>);

/// The codes of the keys in a set of keys.
pub uninterp spec fn key_set(keys: &evdev::AttributeSetRef<evdev::Key>) -> Set<u16>;

/// `evdev::AttributeSetRef::contains`, for the key with this code: whether it is in the
/// set.
#[verifier::external_body]
fn key_set_contains(keys: &evdev::AttributeSetRef<evdev::Key>, code: u16) -> (b: bool)
    ensures
        b == key_set(keys).contains(code),
{
    keys.contains(evdev::Key::new(code))
}

/// The name of the key with this code: what `evdev::Key` prints for itself.
pub uninterp spec fn key_name_of(code: u16) -> Seq<char>;

/// The `Debug` of `evdev::Key`: the name of the key with this code (`KEY_A`, `BTN_LEFT`,
/// or `unknown key:` and the code). No two codes share a name, and the names that start
/// with `KEY_` all belong to codes below `KEY_CODES`.
#[verifier::external_body]
fn key_name(code: u16) -> (name: String)
    ensures
        name@ == key_name_of(code),
        forall|other: u16| #[trigger] key_name_of(other) == name@ ==> other == code,
        text::has_prefix(name@, "KEY_"@) ==> code < KEY_CODES,
{
    format!("{:?}", evdev::Key::new(code))
}

/// The first key from `from` on that has this name.
pub open spec fn key_called_from(name: Seq<char>, from: nat) -> Option<u16>
    decreases KEY_CODES - from,
{
    if from >= KEY_CODES {
        None
    } else if key_name_of(from as u16) == name {
        Some(from as u16)
    } else {
        key_called_from(name, from + 1)
    }
}

/// The key that has this name.
pub open spec fn key_called(name: Seq<char>) -> Option<u16> {
    key_called_from(name, 0)
}

proof fn lemma_key_called_from(name: Seq<char>, from: nat)
    ensures
        match key_called_from(name, from) {
            Some(code) => {
                &&& from <= code < KEY_CODES
                &&& key_name_of(code) == name
                &&& forall|c: u16| from <= c < code ==> key_name_of(c) != name
            },
            None => forall|c: u16| from <= c < KEY_CODES ==> key_name_of(c) != name,
        },
    decreases KEY_CODES - from,
{
    if from < KEY_CODES {
        lemma_key_called_from(name, from + 1);
    }
}

/// A name is that of some key exactly if a key below `KEY_CODES` has it; the key it
/// stands for is then the first of them.
pub proof fn law_key_called(name: Seq<char>)
    ensures
        match key_called(name) {
            Some(code) => {
                &&& code < KEY_CODES
                &&& key_name_of(code) == name
                &&& forall|c: u16| c < code ==> key_name_of(c) != name
            },
            None => forall|c: u16| c < KEY_CODES ==> key_name_of(c) != name,
        },
{
    lemma_key_called_from(name, 0);
}

/// The place at which `name` first stands among `names`.
pub fn find_name(names: &[String], name: &str) -> (place: Option<usize>)
    ensures
        match place {
            Some(i) => {
                &&& i < names@.len()
                &&& names@[i as int]@ == name@
                &&& forall|j: int| 0 <= j < i ==> (#[trigger] names@[j])@ != name@
            },
            None => forall|j: int| 0 <= j < names@.len() ==> (#[trigger] names@[j])@ != name@,
        },
{
    let wanted = name.to_string();
    let mut i: usize = 0;
    while i < names.len()
        invariant
            i <= names.len(),
            wanted@ == name@,
            forall|j: int| 0 <= j < i ==> (#[trigger] names@[j])@ != name@,
        decreases names.len() - i,
    {
        if names[i] == wanted {
            return Some(i);
        }
        i = i + 1;
    }
    None
}

/// The names of all the keys that are looked up, by their codes; no two are the same.
fn key_names() -> (names: Vec<String>)
    ensures
        names@.len() == KEY_CODES,
        forall|c: int| 0 <= c < KEY_CODES ==> (#[trigger] names@[c])@ == key_name_of(c as u16),
        forall|c: u16, d: u16|
            c < KEY_CODES && #[trigger] key_name_of(c) == #[trigger] key_name_of(d) ==> c == d,
{
    let mut names: Vec<String> = Vec::new();
    let mut code: u16 = 0;
    while code < KEY_CODES
        invariant
            code <= KEY_CODES,
            names@.len() == code,
            forall|c: int| 0 <= c < code ==> (#[trigger] names@[c])@ == key_name_of(c as u16),
            forall|c: u16, d: u16|
                c < code && #[trigger] key_name_of(c) == #[trigger] key_name_of(d) ==> c == d,
        decreases KEY_CODES - code,
    {
        names.push(key_name(code));
        code = code + 1;
    }
    names
}

/// Turns a key's name, such as `KEY_F9`, into its code. The name of each key below
/// `KEY_CODES` gives that very key.
pub fn parse_key(name: &str) -> (key: Option<u16>)
    ensures
        key == key_called(name@),
        forall|c: u16| c < KEY_CODES && #[trigger] key_name_of(c) == name@ ==> key == Some(c),
        key matches Some(c) ==> c < KEY_CODES && key_name_of(c) == name@,
        key is None <==> forall|c: u16| c < KEY_CODES ==> #[trigger] key_name_of(c) != name@,
{
    let names = key_names();
    proof {
        law_key_called(name@);
    }
    match find_name(names.as_slice(), name) {
        Some(code) => {
            assert(key_name_of(code as u16) == name@);
            assert forall|c: u16| c < code implies key_name_of(c) != name@ by {
                assert(names@[c as int]@ == key_name_of(c));
            }
            Some(code as u16)
        },
        None => {
            assert forall|c: u16| c < KEY_CODES implies key_name_of(c) != name@ by {
                assert(names@[c as int]@ == key_name_of(c));
            }
            None
        },
    }
}

// ---------------------------------------------------------------------------
// Modifiers
// ---------------------------------------------------------------------------

pub open spec fn left_key(m: Modifier) -> u16 {
    match m {
        Modifier::Ctrl => KEY_LEFTCTRL,
        Modifier::Shift => KEY_LEFTSHIFT,
        Modifier::Alt => KEY_LEFTALT,
        Modifier::Super => KEY_LEFTMETA,
    }
}

pub open spec fn right_key(m: Modifier) -> u16 {
    match m {
        Modifier::Ctrl => KEY_RIGHTCTRL,
        Modifier::Shift => KEY_RIGHTSHIFT,
        Modifier::Alt => KEY_RIGHTALT,
        Modifier::Super => KEY_RIGHTMETA,
    }
}

/// Either key of the modifier is among `keys`.
pub open spec fn has_modifier(keys: Set<u16>, m: Modifier) -> bool {
    keys.contains(left_key(m)) || keys.contains(right_key(m))
}

/// Each of the required modifiers is held.
pub open spec fn satisfied(required: Seq<Modifier>, pressed: Set<u16>) -> bool {
    forall|i: int| 0 <= i < required.len() ==> has_modifier(pressed, #[trigger] required[i])
}

/// The key is the left or the right one of some modifier.
pub open spec fn is_modifier_key(code: u16) -> bool {
    ALL_MODIFIER_KEYS@.contains(code)
}

/// The modifiers that are held, in the order in which they are shown.
pub open spec fn held_modifiers(pressed: Set<u16>) -> Seq<Modifier> {
    ALL_MODIFIERS@.filter(|m: Modifier| has_modifier(pressed, m))
}

/// The left and the right key of a modifier.
pub fn modifier_keys(m: Modifier) -> (keys: [u16; 2])
    ensures
        keys@ == seq![left_key(m), right_key(m)],
{
    match m {
        Modifier::Ctrl => [KEY_LEFTCTRL, KEY_RIGHTCTRL],
        Modifier::Shift => [KEY_LEFTSHIFT, KEY_RIGHTSHIFT],
        Modifier::Alt => [KEY_LEFTALT, KEY_RIGHTALT],
        Modifier::Super => [KEY_LEFTMETA, KEY_RIGHTMETA],
    }
}

fn modifier_held(m: Modifier, pressed: &HashSet<u16>) -> (b: bool)
    ensures
        b == has_modifier(pressed@, m),
{
    let keys = modifier_keys(m);
    assert(keys@[0] == left_key(m) && keys@[1] == right_key(m));
    pressed.contains(&keys[0]) || pressed.contains(&keys[1])
}

/// Whether all the required modifiers are held, on either side.
pub fn mods_satisfied(required: &[Modifier], pressed: &HashSet<u16>) -> (b: bool)
    ensures
        b == satisfied(required@, pressed@),
        b <==> forall|i: int|
            0 <= i < required@.len() ==> match #[trigger] required@[i] {
                Modifier::Ctrl => pressed@.contains(29) || pressed@.contains(97),
                Modifier::Shift => pressed@.contains(42) || pressed@.contains(54),
                Modifier::Alt => pressed@.contains(56) || pressed@.contains(100),
                Modifier::Super => pressed@.contains(125) || pressed@.contains(126),
            },
{
    let mut i: usize = 0;
    while i < required.len()
        invariant
            i <= required.len(),
            forall|j: int| 0 <= j < i ==> has_modifier(pressed@, #[trigger] required@[j]),
        decreases required.len() - i,
    {
        if !modifier_held(required[i], pressed) {
            return false;
        }
        i = i + 1;
    }
    true
}

fn modifier_key(code: u16) -> (b: bool)
    ensures
        b == is_modifier_key(code),
{
    let mut i: usize = 0;
    while i < 8
        invariant
            i <= 8,
            forall|j: int| 0 <= j < i ==> ALL_MODIFIER_KEYS@[j] != code,
        decreases 8 - i,
    {
        if ALL_MODIFIER_KEYS[i] == code {
            return true;
        }
        i = i + 1;
    }
    false
}

/// The modifiers that are held, in the order in which they are shown.
fn modifiers_held(pressed: &HashSet<u16>) -> (held: Vec<Modifier>)
    ensures
        held@ == held_modifiers(pressed@),
{
    let mut held: Vec<Modifier> = Vec::new();
    let mut i: usize = 0;
    let ghost holds = |m: Modifier| has_modifier(pressed@, m);
    proof {
        assert(ALL_MODIFIERS@.take(0) == Seq::<Modifier>::empty());
        reveal(Seq::filter);
    }
    while i < 4
        invariant
            i <= 4,
            holds == (|m: Modifier| has_modifier(pressed@, m)),
            held@ == ALL_MODIFIERS@.take(i as int).filter(holds),
        decreases 4 - i,
    {
        proof {
            reveal(Seq::filter);
            assert(ALL_MODIFIERS@.take(i + 1).drop_last() == ALL_MODIFIERS@.take(i as int));
            assert(ALL_MODIFIERS@.take(i + 1).last() == ALL_MODIFIERS@[i as int]);
        }
        if modifier_held(ALL_MODIFIERS[i], pressed) {
            held.push(ALL_MODIFIERS[i]);
        }
        i = i + 1;
    }
    assert(ALL_MODIFIERS@.take(4) == ALL_MODIFIERS@);
    held
}

/// Holding more keys never makes a hotkey's modifiers incomplete.
pub proof fn law_more_keys_still_satisfy(
    required: Seq<Modifier>,
    pressed: Set<u16>,
    more: Set<u16>,
)
    requires
        satisfied(required, pressed),
        pressed.subset_of(more),
    ensures
        satisfied(required, more),
{
}

/// A hotkey without modifiers has them all, whatever is held.
pub proof fn law_no_requirement_is_satisfied(pressed: Set<u16>)
    ensures
        satisfied(Seq::empty(), pressed),
{
}

/// The modifier keys are the left and right keys of the modifiers, and no others.
pub proof fn law_modifier_keys_are_complete(code: u16)
    ensures
        is_modifier_key(code) <==> exists|m: Modifier|
            code == #[trigger] left_key(m) || code == right_key(m),
{
    let keys = ALL_MODIFIER_KEYS@;
    assert(keys[0] == left_key(Modifier::Ctrl) && keys[1] == right_key(Modifier::Ctrl));
    assert(keys[2] == left_key(Modifier::Shift) && keys[3] == right_key(Modifier::Shift));
    assert(keys[4] == left_key(Modifier::Alt) && keys[5] == right_key(Modifier::Alt));
    assert(keys[6] == left_key(Modifier::Super) && keys[7] == right_key(Modifier::Super));
}

/// Picking from a row without repeats leaves a row without repeats.
proof fn lemma_filter_keeps_distinct(s: Seq<Modifier>, p: spec_fn(Modifier) -> bool)
    requires
        s.no_duplicates(),
    ensures
        s.filter(p).no_duplicates(),
    decreases s.len(),
{
    broadcast use Seq::lemma_filter_contains_rev;

    reveal(Seq::filter);
    if s.len() > 0 {
        let front = s.drop_last();
        lemma_filter_keeps_distinct(front, p);
        if p(s.last()) {
            assert(!front.filter(p).contains(s.last())) by {
                if front.filter(p).contains(s.last()) {
                    assert(front.contains(s.last()));
                }
            }
        }
    }
}

/// The modifiers that a hotkey is recorded with are those that are held, each once.
pub proof fn law_held_modifiers(pressed: Set<u16>)
    ensures
        forall|m: Modifier| #[trigger]
            held_modifiers(pressed).contains(m) <==> has_modifier(pressed, m),
        held_modifiers(pressed).no_duplicates(),
        satisfied(held_modifiers(pressed), pressed),
{
    broadcast use {vstd::seq_lib::group_filter_ensures, Seq::lemma_filter_contains_rev};

    let holds = |m: Modifier| has_modifier(pressed, m);
    let all = ALL_MODIFIERS@;
    let held = held_modifiers(pressed);
    assert(held == all.filter(holds));
    assert forall|m: Modifier| #[trigger] held.contains(m) <==> has_modifier(pressed, m) by {
        assert(all[0] == Modifier::Ctrl && all[1] == Modifier::Shift);
        assert(all[2] == Modifier::Alt && all[3] == Modifier::Super);
        let i: int = match m {
            Modifier::Ctrl => 0,
            Modifier::Shift => 1,
            Modifier::Alt => 2,
            Modifier::Super => 3,
        };
        assert(all[i] == m);
        if has_modifier(pressed, m) {
            assert(holds(all[i]));
            all.lemma_filter_contains(holds, i);
        } else if held.contains(m) {
            let k = held.index_of(m);
            all.lemma_filter_pred(holds, k);
        }
    }
    assert forall|i: int| 0 <= i < held.len() implies has_modifier(
        pressed,
        #[trigger] held[i],
    ) by {
        assert(held.contains(held[i]));
    }
    lemma_filter_keeps_distinct(all, holds);
}

// ---------------------------------------------------------------------------
// Events
// ---------------------------------------------------------------------------

/// The kind of event that tells of a key.
pub const EV_KEY: u16 = 1;

/// An event of an input device.
#[derive(Clone, Copy, Debug, PartialEq, Eq, Structural)]
pub struct InputEvent {
    pub kind: u16,
    pub code: u16,
    /// For a key: 1 when it goes down, 0 when it comes up, 2 while it repeats.
    pub value: i32,
}

/// The keys that are down after `code` was reported with `value`.
pub open spec fn keys_after(pressed: Set<u16>, code: u16, value: i32) -> Set<u16> {
    if value == 1 {
        pressed.insert(code)
    } else if value == 0 {
        pressed.remove(code)
    } else {
        pressed
    }
}

fn update_keys(pressed: &mut HashSet<u16>, code: u16, value: i32)
    ensures
        final(pressed)@ == keys_after(old(pressed)@, code, value),
{
    if value == 1 {
        pressed.insert(code);
    } else if value == 0 {
        pressed.remove(&code);
    }
}

/// What a listener goes by: the key, the modifiers it wants held with it, and the
/// modifier keys that are down.
#[verifier::ext_equal]
pub struct Watch {
    /// The key's name, as the user gave it.
    pub name: Seq<char>,
    pub key: u16,
    pub required: Seq<Modifier>,
    pub pressed: Set<u16>,
}

impl Watch {
    /// What is told of an event: `Some(true)` that the hotkey went down, `Some(false)`
    /// that its key came up.
    pub open spec fn notice(self, event: InputEvent) -> Option<bool> {
        if event.kind != EV_KEY || event.code != self.key {
            None
        } else if event.value == 1 && satisfied(self.required, self.pressed) {
            Some(true)
        } else if event.value == 0 {
            Some(false)
        } else {
            None
        }
    }

    /// A device with these keys is to be watched.
    pub open spec fn wants(self, keys: Set<u16>) -> bool {
        ||| keys.contains(self.key)
        ||| exists|i: int|
            0 <= i < self.required.len() && has_modifier(keys, #[trigger] self.required[i])
    }

    /// The event tells of a modifier key that the listener keeps track of.
    pub open spec fn tracks(self, event: InputEvent) -> bool {
        event.kind == EV_KEY && event.code != self.key && is_modifier_key(event.code)
    }

    pub open spec fn after(self, event: InputEvent) -> Watch {
        if self.tracks(event) {
            Watch { pressed: keys_after(self.pressed, event.code, event.value), ..self }
        } else {
            self
        }
    }

    pub open spec fn after_all(self, events: Seq<InputEvent>) -> Watch
        decreases events.len(),
    {
        if events.len() == 0 {
            self
        } else {
            self.after_all(events.drop_last()).after(events.last())
        }
    }

    /// What is told of a row of events.
    pub open spec fn notices(self, events: Seq<InputEvent>) -> Seq<bool>
        decreases events.len(),
    {
        if events.len() == 0 {
            Seq::empty()
        } else {
            let before = self.notices(events.drop_last());
            match self.after_all(events.drop_last()).notice(events.last()) {
                Some(down) => before.push(down),
                None => before,
            }
        }
    }

    /// Only modifier keys are kept track of, and never the hotkey's own key.
    pub open spec fn well_formed(self) -> bool {
        forall|code: u16| #[trigger]
            self.pressed.contains(code) ==> is_modifier_key(code) && code != self.key
    }
}

/// Watches for a hotkey: a key together with modifiers.
///
/// A press is told of only while the modifiers are held. A release is always told of,
/// so that in hold mode the modifiers may be let go first. Key repeats are passed over.
#[derive(Debug)]
pub struct Listener {
    key_name: String,
    key: u16,
    modifiers: Vec<Modifier>,
    pressed: HashSet<u16>,
}

impl View for Listener {
    type V = Watch;

    closed spec fn view(&self) -> Watch {
        Watch {
            name: self.key_name@,
            key: self.key,
            required: self.modifiers@,
            pressed: self.pressed@,
        }
    }
}

impl Listener {
    /// Sets up the watch for a hotkey; fails on a name that no key has.
    pub fn spawn(key_name: &str, modifiers: Vec<Modifier>) -> (listener: Result<Self, String>)
        ensures
            match listener {
                Ok(listener) => {
                    &&& key_called(key_name@) == Some(listener@.key)
                    &&& listener@.required == modifiers@
                    &&& listener@.pressed == Set::<u16>::empty()
                    &&& listener@.well_formed()
                    &&& listener@.name == key_name@
                },
                Err(message) => {
                    &&& key_called(key_name@) is None
                    &&& message@ == "不明なキー名: "@ + key_name@
                },
            },
            listener is Ok <==> exists|code: u16|
                code < 0x2ff && #[trigger] key_name_of(code) == key_name@,
            listener matches Ok(listener) ==> key_name_of(listener@.key) == key_name@,
    {
        match parse_key(key_name) {
            Some(key) => Ok(
                Listener {
                    key_name: key_name.to_string(),
                    key,
                    modifiers,
                    pressed: HashSet::new(),
                },
            ),
            None => Err("不明なキー名: ".to_string().concat(key_name)),
        }
    }

    /// Whether a device with these keys is to be watched: it has the key, or a key of one
    /// of the modifiers (the two may be on different devices).
    pub fn accepts(&self, keys: Option<&evdev::AttributeSetRef<evdev::Key>>) -> (b: bool)
        ensures
            b == match keys {
                Some(keys) => {
                    ||| key_set(keys).contains(self@.key)
                    ||| exists|i: int|
                        0 <= i < self@.required.len() && has_modifier(
                            key_set(keys),
                            #[trigger] self@.required[i],
                        )
                },
                None => false,
            },
            keys matches Some(keys) ==> b == self@.wants(key_set(keys)),
    {
        match keys {
            Some(set) => {
                if key_set_contains(set, self.key) {
                    return true;
                }
                let mut i: usize = 0;
                while i < self.modifiers.len()
                    invariant
                        keys == Some(set),
                        i <= self.modifiers.len(),
                        forall|j: int|
                            0 <= j < i ==> !has_modifier(
                                key_set(set),
                                #[trigger] self.modifiers@[j],
                            ),
                    decreases self.modifiers.len() - i,
                {
                    let both = modifier_keys(self.modifiers[i]);
                    assert(both@[0] == left_key(self.modifiers@[i as int]));
                    assert(both@[1] == right_key(self.modifiers@[i as int]));
                    if key_set_contains(set, both[0]) || key_set_contains(set, both[1]) {
                        assert(has_modifier(key_set(set), self@.required[i as int]));
                        return true;
                    }
                    i = i + 1;
                }
                false
            },
            None => false,
        }
    }

    /// Fails where no device is left to watch.
    pub fn require_devices(&self, found: usize) -> (r: Result<(), String>)
        ensures
            match r {
                Ok(()) => found > 0,
                Err(message) => {
                    &&& found == 0
                    &&& message@ == self@.name
                        + " を持つ入力デバイスが見つかりません (inputグループに所属していますか?)"@
                },
            },
            r is Err <==> found == 0,
    {
        if found == 0 {
            Err(
                self.key_name.clone().concat(
                    " を持つ入力デバイスが見つかりません (inputグループに所属していますか?)",
                ),
            )
        } else {
            Ok(())
        }
    }

    /// Takes in one event; says what is to be told of it.
    pub fn handle(&mut self, event: &InputEvent) -> (notice: Option<bool>)
        ensures
            notice == old(self)@.notice(*event),
            final(self)@ == old(self)@.after(*event),
            old(self)@.well_formed() ==> final(self)@.well_formed(),
    {
        if event.kind != EV_KEY {
            return None;
        }
        if event.code == self.key {
            if event.value == 1 {
                if mods_satisfied(self.modifiers.as_slice(), &self.pressed) {
                    Some(true)
                } else {
                    None
                }
            } else if event.value == 0 {
                Some(false)
            } else {
                None
            }
        } else {
            if modifier_key(event.code) {
                update_keys(&mut self.pressed, event.code, event.value);
            }
            None
        }
    }

    /// Takes in a row of events; says in order what is to be told of them.
    pub fn watch(&mut self, events: &[InputEvent]) -> (notices: Vec<bool>)
        ensures
            notices@ == old(self)@.notices(events@),
            final(self)@ == old(self)@.after_all(events@),
            old(self)@.well_formed() ==> final(self)@.well_formed(),
    {
        let ghost start = self@;
        let mut notices: Vec<bool> = Vec::new();
        let mut i: usize = 0;
        assert(events@.take(0) == Seq::<InputEvent>::empty());
        while i < events.len()
            invariant
                i <= events.len(),
                self@ == start.after_all(events@.take(i as int)),
                notices@ == start.notices(events@.take(i as int)),
            decreases events.len() - i,
        {
            assert(events@.take(i + 1).drop_last() == events@.take(i as int));
            assert(events@.take(i + 1).last() == events@[i as int]);
            if let Some(down) = self.handle(&events[i]) {
                notices.push(down);
            }
            i = i + 1;
        }
        assert(events@.take(i as int) == events@);
        proof {
            if start.well_formed() {
                law_watch_stays_well_formed(start, events@);
            }
        }
        notices
    }
}

/// A release of the hotkey's key is always told of, whatever modifiers are held.
pub proof fn law_release_is_always_told(watch: Watch, event: InputEvent)
    requires
        event.kind == EV_KEY,
        event.code == watch.key,
        event.value == 0,
    ensures
        watch.notice(event) == Some(false),
{
}

/// A press of the hotkey's key is told of exactly while its modifiers are held.
pub proof fn law_press_needs_modifiers(watch: Watch, event: InputEvent)
    requires
        event.kind == EV_KEY,
        event.code == watch.key,
        event.value == 1,
    ensures
        satisfied(watch.required, watch.pressed) ==> watch.notice(event) == Some(true),
        !satisfied(watch.required, watch.pressed) ==> watch.notice(event) == None::<bool>,
{
}

/// Key repeats, other keys and events of other kinds are never told of.
pub proof fn law_nothing_else_is_told(watch: Watch, event: InputEvent)
    requires
        event.kind != EV_KEY || event.code != watch.key || (event.value != 0 && event.value
            != 1),
    ensures
        watch.notice(event) == None::<bool>,
{
}

/// Whatever events come in, a listener keeps its key and its modifiers, and keeps track
/// of modifier keys only.
pub proof fn law_watch_stays_well_formed(watch: Watch, events: Seq<InputEvent>)
    requires
        watch.well_formed(),
    ensures
        watch.after_all(events).well_formed(),
        watch.after_all(events).key == watch.key,
        watch.after_all(events).required == watch.required,
    decreases events.len(),
{
    if events.len() > 0 {
        law_watch_stays_well_formed(watch, events.drop_last());
    }
}

/// A modifier key counts as held exactly if the last that was heard of it is that it went
/// down.
pub proof fn law_last_event_decides(watch: Watch, events: Seq<InputEvent>, i: int)
    requires
        0 <= i < events.len(),
        watch.tracks(events[i]),
        events[i].value == 0 || events[i].value == 1,
        forall|j: int|
            i < j < events.len() && #[trigger] watch.tracks(events[j]) && events[j].code
                == events[i].code ==> events[j].value != 0 && events[j].value != 1,
    ensures
        watch.after_all(events).pressed.contains(events[i].code) <==> events[i].value == 1,
    decreases events.len(),
{
    let front = events.drop_last();
    lemma_watch_key_stays(watch, front);
    if i < front.len() {
        assert forall|j: int|
            i < j < front.len() && #[trigger] watch.tracks(front[j]) && front[j].code
                == front[i].code implies front[j].value != 0 && front[j].value != 1 by {
            assert(front[j] == events[j]);
        }
        law_last_event_decides(watch, front, i);
        assert(watch.tracks(events.last()) == watch.after_all(front).tracks(events.last()));
        assert(events.last() == events[events.len() - 1]);
    }
}

proof fn lemma_watch_key_stays(watch: Watch, events: Seq<InputEvent>)
    ensures
        watch.after_all(events).key == watch.key,
        watch.after_all(events).required == watch.required,
    decreases events.len(),
{
    if events.len() > 0 {
        lemma_watch_key_stays(watch, events.drop_last());
    }
}

/// It makes no difference how the events are split up into rows.
pub proof fn law_rows_of_events_add_up(
    watch: Watch,
    first: Seq<InputEvent>,
    second: Seq<InputEvent>,
)
    ensures
        watch.after_all(first + second) == watch.after_all(first).after_all(second),
        watch.notices(first + second) == watch.notices(first) + watch.after_all(first).notices(
            second,
        ),
    decreases second.len(),
{
    if second.len() == 0 {
        assert(first + second == first);
    } else {
        law_rows_of_events_add_up(watch, first, second.drop_last());
        assert((first + second).drop_last() == first + second.drop_last());
        assert((first + second).last() == second.last());
    }
}

// ---------------------------------------------------------------------------
// Recording a hotkey
// ---------------------------------------------------------------------------

/// How far the recording of a hotkey has come.
#[derive(Debug, PartialEq)]
pub enum Capture {
    /// Nothing yet.
    Pending,
    /// Escape was pressed.
    Cancelled,
    /// The modifiers that were held, and the name of the key.
    Combo(Vec<Modifier>, String),
}

#[verifier::ext_equal]
pub enum Captured {
    Pending,
    Cancelled,
    Combo(Seq<Modifier>, Seq<char>),
}

impl View for Capture {
    type V = Captured;

    open spec fn view(&self) -> Captured {
        match self {
            Capture::Pending => Captured::Pending,
            Capture::Cancelled => Captured::Cancelled,
            Capture::Combo(modifiers, name) => Captured::Combo(modifiers@, name@),
        }
    }
}

/// What a key of this name is recorded as. Mouse buttons (`BTN_...`) are left out.
pub open spec fn recorded_key(pressed: Set<u16>, name: Seq<char>) -> Captured {
    if text::has_prefix(name, "KEY_"@) {
        Captured::Combo(held_modifiers(pressed), name)
    } else {
        Captured::Pending
    }
}

/// The modifier keys that are down after an event, while a hotkey is recorded.
pub open spec fn held_after(pressed: Set<u16>, event: InputEvent) -> Set<u16> {
    if event.kind == EV_KEY && is_modifier_key(event.code) {
        keys_after(pressed, event.code, event.value)
    } else {
        pressed
    }
}

/// What one event adds to the recording of a hotkey.
pub open spec fn recorded(pressed: Set<u16>, event: InputEvent) -> Captured {
    if event.kind != EV_KEY || is_modifier_key(event.code) || event.value != 1 {
        Captured::Pending
    } else if event.code == KEY_ESC {
        Captured::Cancelled
    } else {
        recorded_key(pressed, key_name_of(event.code))
    }
}

/// The outcome of a row of events: that of the first event that decides.
pub open spec fn recorded_all(pressed: Set<u16>, events: Seq<InputEvent>) -> Captured
    decreases events.len(),
{
    if events.len() == 0 {
        Captured::Pending
    } else if recorded(pressed, events[0]) != Captured::Pending {
        recorded(pressed, events[0])
    } else {
        recorded_all(held_after(pressed, events[0]), events.drop_first())
    }
}

/// The modifier keys that are down when the row of events is decided, or at its end.
pub open spec fn held_after_all(pressed: Set<u16>, events: Seq<InputEvent>) -> Set<u16>
    decreases events.len(),
{
    if events.len() == 0 || recorded(pressed, events[0]) != Captured::Pending {
        pressed
    } else {
        held_after_all(held_after(pressed, events[0]), events.drop_first())
    }
}

/// Records the key of this name, with the modifiers that are held.
pub fn capture_key(pressed: &HashSet<u16>, name: String) -> (capture: Capture)
    ensures
        capture@ == recorded_key(pressed@, name@),
{
    if text::starts_with(name.as_str(), "KEY_") {
        Capture::Combo(modifiers_held(pressed), name)
    } else {
        Capture::Pending
    }
}

/// Takes in one event while a hotkey is recorded. The name that is recorded is one that
/// `parse_key` turns into the key that was pressed.
pub fn capture_event(pressed: &mut HashSet<u16>, event: &InputEvent) -> (capture: Capture)
    ensures
        capture@ == recorded(old(pressed)@, *event),
        final(pressed)@ == held_after(old(pressed)@, *event),
        event.value != 0 && event.value != 1 ==> final(pressed)@ == old(pressed)@,
        capture@ matches Captured::Combo(_, name) ==> key_called(name) == Some(event.code),
{
    if event.kind != EV_KEY {
        return Capture::Pending;
    }
    if modifier_key(event.code) {
        update_keys(pressed, event.code, event.value);
        return Capture::Pending;
    }
    if event.value != 1 {
        return Capture::Pending;
    }
    if event.code == KEY_ESC {
        return Capture::Cancelled;
    }
    let name = key_name(event.code);
    proof {
        law_key_called(name@);
    }
    capture_key(pressed, name)
}

/// Takes in a row of events while a hotkey is recorded, up to the first that decides.
pub fn capture_hotkey(pressed: &mut HashSet<u16>, events: &[InputEvent]) -> (capture: Capture)
    ensures
        capture@ == recorded_all(old(pressed)@, events@),
        final(pressed)@ == held_after_all(old(pressed)@, events@),
        capture@ matches Captured::Combo(_, name) ==> exists|i: int|
            0 <= i < events@.len() && (#[trigger] events@[i]).value == 1 && name == key_name_of(
                events@[i].code,
            ) && key_called(name) == Some(events@[i].code),
{
    let ghost start = pressed@;
    let mut i: usize = 0;
    assert(events@.skip(0) == events@);
    while i < events.len()
        invariant
            i <= events.len(),
            start == old(pressed)@,
            recorded_all(start, events@) == recorded_all(pressed@, events@.skip(i as int)),
            held_after_all(start, events@) == held_after_all(pressed@, events@.skip(i as int)),
        decreases events.len() - i,
    {
        assert(events@.skip(i as int).drop_first() == events@.skip(i + 1));
        assert(events@.skip(i as int)[0] == events@[i as int]);
        let capture = capture_event(pressed, &events[i]);
        match capture {
            Capture::Pending => {},
            _ => {
                return capture;
            },
        }
        i = i + 1;
    }
    Capture::Pending
}

/// Escape is never recorded: pressed, it calls the recording off.
pub proof fn law_escape_cancels(pressed: Set<u16>, event: InputEvent)
    requires
        event.kind == EV_KEY,
        event.code == KEY_ESC,
        event.value == 1,
    ensures
        recorded(pressed, event) == Captured::Cancelled,
{
    let keys = ALL_MODIFIER_KEYS@;
    assert(forall|i: int| 0 <= i < 8 ==> keys[i] != KEY_ESC);
}

/// Pressing or releasing a modifier key alone records nothing.
pub proof fn law_modifiers_alone_record_nothing(pressed: Set<u16>, event: InputEvent)
    requires
        is_modifier_key(event.code),
    ensures
        recorded(pressed, event) == Captured::Pending,
{
}

/// It makes no difference how the events are split up into rows: what one row leaves
/// open, the next one goes on with.
pub proof fn law_recording_goes_on_over_rows(
    pressed: Set<u16>,
    first: Seq<InputEvent>,
    second: Seq<InputEvent>,
)
    ensures
        recorded_all(pressed, first) != Captured::Pending ==> recorded_all(pressed, first + second)
            == recorded_all(pressed, first),
        recorded_all(pressed, first) == Captured::Pending ==> recorded_all(pressed, first + second)
            == recorded_all(held_after_all(pressed, first), second),
    decreases first.len(),
{
    if first.len() == 0 {
        assert(first + second == second);
    } else {
        assert((first + second)[0] == first[0]);
        assert((first + second).drop_first() == first.drop_first() + second);
        if recorded(pressed, first[0]) == Captured::Pending {
            law_recording_goes_on_over_rows(
                held_after(pressed, first[0]),
                first.drop_first(),
                second,
            );
        }
    }
}

/// What was recorded is a hotkey that fires: a listener for the recorded key and
/// modifiers, which sees the same modifier keys held, tells of the very press that was
/// recorded.
pub proof fn law_recorded_hotkey_fires(watch: Watch, event: InputEvent, name: Seq<char>)
    requires
        recorded(watch.pressed, event) == Captured::Combo(watch.required, name),
        watch.key == event.code,
    ensures
        watch.notice(event) == Some(true),
{
    law_held_modifiers(watch.pressed);
}

// ---------------------------------------------------------------------------
// What holds of keys and codes
// ---------------------------------------------------------------------------

/// A modifier is among the keys exactly if its left or its right key is.
pub proof fn law_either_side_counts(keys: Set<u16>)
    ensures
        has_modifier(keys, Modifier::Ctrl) <==> keys.contains(29) || keys.contains(97),
        has_modifier(keys, Modifier::Shift) <==> keys.contains(42) || keys.contains(54),
        has_modifier(keys, Modifier::Alt) <==> keys.contains(56) || keys.contains(100),
        has_modifier(keys, Modifier::Super) <==> keys.contains(125) || keys.contains(126),
{
}

/// The keys that are modifier keys, by their codes.
pub proof fn law_modifier_key_codes(code: u16)
    ensures
        is_modifier_key(code) <==> {
            ||| code == 29 || code == 97
            ||| code == 42 || code == 54
            ||| code == 56 || code == 100
            ||| code == 125 || code == 126
        },
{
    let keys = ALL_MODIFIER_KEYS@;
    assert(keys[0] == 29 && keys[1] == 97 && keys[2] == 42 && keys[3] == 54);
    assert(keys[4] == 56 && keys[5] == 100 && keys[6] == 125 && keys[7] == 126);
}

/// Where a hotkey's modifiers are complete, none of them is missing, at whatever place it
/// stands: its left or its right key is down. A single one of which neither key is down
/// makes them incomplete.
pub proof fn law_every_modifier_is_needed(required: Seq<Modifier>, pressed: Set<u16>, i: int)
    requires
        0 <= i < required.len(),
    ensures
        satisfied(required, pressed) ==> match required[i] {
            Modifier::Ctrl => pressed.contains(29) || pressed.contains(97),
            Modifier::Shift => pressed.contains(42) || pressed.contains(54),
            Modifier::Alt => pressed.contains(56) || pressed.contains(100),
            Modifier::Super => pressed.contains(125) || pressed.contains(126),
        },
        satisfied(required, pressed) <==> satisfied(seq![required[i]], pressed) && satisfied(
            required.remove(i),
            pressed,
        ),
{
    let rest = required.remove(i);
    if satisfied(required, pressed) {
        assert forall|j: int| 0 <= j < rest.len() implies has_modifier(
            pressed,
            #[trigger] rest[j],
        ) by {
            assert(rest[j] == if j < i {
                required[j]
            } else {
                required[j + 1]
            });
        }
    }
    if satisfied(seq![required[i]], pressed) && satisfied(rest, pressed) {
        assert(has_modifier(pressed, seq![required[i]][0]));
        assert forall|j: int| 0 <= j < required.len() implies has_modifier(
            pressed,
            #[trigger] required[j],
        ) by {
            if j < i {
                assert(rest[j] == required[j]);
            } else if j > i {
                assert(rest[j - 1] == required[j]);
            }
        }
    }
}

/// Nothing but the required modifiers counts: where all their keys are down on one side or
/// the other, the modifiers are complete, and where they are not, one of them is missing.
pub proof fn law_nothing_but_modifiers_is_needed(required: Seq<Modifier>, pressed: Set<u16>)
    ensures
        !satisfied(required, pressed) ==> exists|i: int|
            0 <= i < required.len() && match #[trigger] required[i] {
                Modifier::Ctrl => !pressed.contains(29) && !pressed.contains(97),
                Modifier::Shift => !pressed.contains(42) && !pressed.contains(54),
                Modifier::Alt => !pressed.contains(56) && !pressed.contains(100),
                Modifier::Super => !pressed.contains(125) && !pressed.contains(126),
            },
{
}

// ---------------------------------------------------------------------------
// What holds of a listener
// ---------------------------------------------------------------------------

/// When a press of the hotkey is told of, it is its key that went down, and each of its
/// modifiers is held, on either side; and whenever that is so, it is told of.
pub proof fn law_told_press(watch: Watch, event: InputEvent)
    ensures
        watch.notice(event) == Some(true) <==> {
            &&& event.kind == 1
            &&& event.code == watch.key
            &&& event.value == 1
            &&& forall|i: int|
                0 <= i < watch.required.len() ==> match #[trigger] watch.required[i] {
                    Modifier::Ctrl => watch.pressed.contains(29) || watch.pressed.contains(97),
                    Modifier::Shift => watch.pressed.contains(42) || watch.pressed.contains(54),
                    Modifier::Alt => watch.pressed.contains(56) || watch.pressed.contains(100),
                    Modifier::Super => watch.pressed.contains(125) || watch.pressed.contains(126),
                }
        },
{
    let required = watch.required;
    if satisfied(required, watch.pressed) {
        assert forall|i: int| 0 <= i < required.len() implies match #[trigger] required[i] {
            Modifier::Ctrl => watch.pressed.contains(29) || watch.pressed.contains(97),
            Modifier::Shift => watch.pressed.contains(42) || watch.pressed.contains(54),
            Modifier::Alt => watch.pressed.contains(56) || watch.pressed.contains(100),
            Modifier::Super => watch.pressed.contains(125) || watch.pressed.contains(126),
        } by {
            law_every_modifier_is_needed(required, watch.pressed, i);
        }
    } else {
        law_nothing_but_modifiers_is_needed(required, watch.pressed);
    }
}

/// A release is told of exactly when the hotkey's key comes up, whatever else is held.
pub proof fn law_told_release(watch: Watch, event: InputEvent, held: Set<u16>)
    ensures
        watch.notice(event) == Some(false) <==> event.kind == 1 && event.code == watch.key
            && event.value == 0,
        watch.notice(event) == Some(false) <==> (Watch { pressed: held, ..watch }).notice(event)
            == Some(false),
{
}

/// An event changes at most what is known of its own key, and only if that is a modifier
/// key that is not the hotkey's own: it is down after a value of one, up after a value of
/// zero, and as before after any other value. All else stays.
pub proof fn law_listener_follows_modifier_keys(watch: Watch, event: InputEvent, code: u16)
    ensures
        ({
            let after = watch.after(event);
            let told = {
                &&& event.kind == 1
                &&& event.code == code
                &&& code != watch.key
                &&& {
                    ||| code == 29 || code == 97 || code == 42 || code == 54
                    ||| code == 56 || code == 100 || code == 125 || code == 126
                }
            };
            &&& told && event.value == 1 ==> after.pressed.contains(code)
            &&& told && event.value == 0 ==> !after.pressed.contains(code)
            &&& !told || (event.value != 0 && event.value != 1) ==> (after.pressed.contains(code)
                <==> watch.pressed.contains(code))
            &&& after.name == watch.name
            &&& after.key == watch.key
            &&& after.required == watch.required
        }),
{
    law_modifier_key_codes(event.code);
}

/// Events are taken in one after the other: what is told of a row, and what is known after
/// it, is that of the row before its last event, and of that event then.
pub proof fn law_events_are_taken_in_order(watch: Watch, events: Seq<InputEvent>, event: InputEvent)
    ensures
        watch.after_all(Seq::empty()) == watch,
        watch.notices(Seq::empty()).len() == 0,
        watch.after_all(events.push(event)) == watch.after_all(events).after(event),
        watch.after_all(events).notice(event) is None ==> watch.notices(events.push(event))
            == watch.notices(events),
        watch.after_all(events).notice(event) matches Some(down) ==> watch.notices(
            events.push(event),
        ) == watch.notices(events).push(down),
{
    assert(events.push(event).drop_last() =~= events);
}

/// Over a whole row of events: a modifier key is held exactly if the last event of value
/// zero or one that told of it was a one. Key repeats make no difference.
pub proof fn law_last_word_on_a_modifier_key(watch: Watch, events: Seq<InputEvent>, i: int)
    requires
        0 <= i < events.len(),
        events[i].kind == 1,
        events[i].value == 0 || events[i].value == 1,
        events[i].code != watch.key,
        ({
            let code = events[i].code;
            ||| code == 29 || code == 97 || code == 42 || code == 54
            ||| code == 56 || code == 100 || code == 125 || code == 126
        }),
        forall|j: int|
            i < j < events.len() && (#[trigger] events[j]).kind == 1 && events[j].code
                == events[i].code ==> events[j].value != 0 && events[j].value != 1,
    ensures
        watch.after_all(events).pressed.contains(events[i].code) <==> events[i].value == 1,
{
    law_modifier_key_codes(events[i].code);
    law_last_event_decides(watch, events, i);
}

/// What a row of events does not tell of stays as it was.
pub proof fn law_untold_keys_stay(watch: Watch, events: Seq<InputEvent>, code: u16)
    requires
        forall|j: int|
            0 <= j < events.len() && (#[trigger] events[j]).kind == 1 && events[j].code == code
                ==> events[j].value != 0 && events[j].value != 1,
    ensures
        watch.after_all(events).pressed.contains(code) <==> watch.pressed.contains(code),
    decreases events.len(),
{
    if events.len() > 0 {
        let front = events.drop_last();
        assert forall|j: int|
            0 <= j < front.len() && (#[trigger] front[j]).kind == 1 && front[j].code
                == code implies front[j].value != 0 && front[j].value != 1 by {
            assert(front[j] == events[j]);
        }
        law_untold_keys_stay(watch, front, code);
        assert(events.last() == events[events.len() - 1]);
        law_listener_follows_modifier_keys(watch.after_all(front), events.last(), code);
    }
}

/// A device is to be watched exactly if it has the hotkey's key, or either key of one of
/// its modifiers. A device with more keys is not watched any less.
pub proof fn law_wanted_devices(watch: Watch, keys: Set<u16>, more: Set<u16>)
    ensures
        keys.contains(watch.key) ==> watch.wants(keys),
        forall|i: int|
            0 <= i < watch.required.len() && (match #[trigger] watch.required[i] {
                Modifier::Ctrl => keys.contains(29) || keys.contains(97),
                Modifier::Shift => keys.contains(42) || keys.contains(54),
                Modifier::Alt => keys.contains(56) || keys.contains(100),
                Modifier::Super => keys.contains(125) || keys.contains(126),
            }) ==> watch.wants(keys),
        watch.wants(keys) && !keys.contains(watch.key) ==> exists|i: int|
            0 <= i < watch.required.len() && match #[trigger] watch.required[i] {
                Modifier::Ctrl => keys.contains(29) || keys.contains(97),
                Modifier::Shift => keys.contains(42) || keys.contains(54),
                Modifier::Alt => keys.contains(56) || keys.contains(100),
                Modifier::Super => keys.contains(125) || keys.contains(126),
            },
        keys.subset_of(more) && watch.wants(keys) ==> watch.wants(more),
{
    law_either_side_counts(keys);
    assert forall|i: int|
        0 <= i < watch.required.len() && (match #[trigger] watch.required[i] {
            Modifier::Ctrl => keys.contains(29) || keys.contains(97),
            Modifier::Shift => keys.contains(42) || keys.contains(54),
            Modifier::Alt => keys.contains(56) || keys.contains(100),
            Modifier::Super => keys.contains(125) || keys.contains(126),
        }) implies watch.wants(keys) by {
        assert(has_modifier(keys, watch.required[i]));
    }
    if watch.wants(keys) && !keys.contains(watch.key) {
        let i = choose|i: int|
            0 <= i < watch.required.len() && has_modifier(keys, #[trigger] watch.required[i]);
        assert(has_modifier(keys, watch.required[i]));
        assert(has_modifier(more, watch.required[i]) || !keys.subset_of(more));
    }
}

// ---------------------------------------------------------------------------
// What holds of recording
// ---------------------------------------------------------------------------

/// While a hotkey is recorded, an event changes at most what is known of its own key, and
/// only if that is a modifier key: it is down after a value of one, up after a value of
/// zero, and as before after any other value.
pub proof fn law_recording_follows_modifier_keys(pressed: Set<u16>, event: InputEvent, code: u16)
    ensures
        ({
            let after = held_after(pressed, event);
            let told = {
                &&& event.kind == 1
                &&& event.code == code
                &&& {
                    ||| code == 29 || code == 97 || code == 42 || code == 54
                    ||| code == 56 || code == 100 || code == 125 || code == 126
                }
            };
            &&& told && event.value == 1 ==> after.contains(code)
            &&& told && event.value == 0 ==> !after.contains(code)
            &&& !told || (event.value != 0 && event.value != 1) ==> (after.contains(code)
                <==> pressed.contains(code))
        }),
{
    law_modifier_key_codes(event.code);
}

/// Key repeats leave the held modifier keys as they are, however many of them come in.
pub proof fn law_repeats_change_nothing(pressed: Set<u16>, events: Seq<InputEvent>)
    requires
        forall|j: int|
            0 <= j < events.len() ==> (#[trigger] events[j]).value != 0 && events[j].value != 1,
    ensures
        recorded_all(pressed, events) == Captured::Pending,
        held_after_all(pressed, events) == pressed,
    decreases events.len(),
{
    if events.len() > 0 {
        let rest = events.drop_first();
        assert forall|j: int| 0 <= j < rest.len() implies (#[trigger] rest[j]).value != 0
            && rest[j].value != 1 by {
            assert(rest[j] == events[j + 1]);
        }
        assert(events[0].value != 1);
        assert(held_after(pressed, events[0]) =~= pressed);
        law_repeats_change_nothing(pressed, rest);
    }
}

/// What one event records: Escape calls the recording off; any other key that is not a
/// modifier key and whose name starts with `KEY_` is recorded when it goes down, by its
/// name; nothing else records anything.
pub proof fn law_recorded_event(pressed: Set<u16>, event: InputEvent)
    ensures
        ({
            let code = event.code;
            let down = event.kind == 1 && event.value == 1;
            let modifier = {
                ||| code == 29 || code == 97 || code == 42 || code == 54
                ||| code == 56 || code == 100 || code == 125 || code == 126
            };
            let named = exists|rest: Seq<char>| key_name_of(code) == #[trigger] ("KEY_"@ + rest);
            &&& recorded(pressed, event) is Cancelled <==> down && code == 1
            &&& recorded(pressed, event) is Combo <==> down && code != 1 && !modifier && named
            &&& recorded(pressed, event) matches Captured::Combo(modifiers, name) ==> {
                &&& name == key_name_of(code)
                &&& forall|m: Modifier| #[trigger]
                    modifiers.contains(m) <==> match m {
                        Modifier::Ctrl => pressed.contains(29) || pressed.contains(97),
                        Modifier::Shift => pressed.contains(42) || pressed.contains(54),
                        Modifier::Alt => pressed.contains(56) || pressed.contains(100),
                        Modifier::Super => pressed.contains(125) || pressed.contains(126),
                    }
                &&& modifiers.no_duplicates()
            }
        }),
{
    law_modifier_key_codes(event.code);
    law_held_modifiers(pressed);
    law_either_side_counts(pressed);
    text::law_prefixes("KEY_"@, Seq::empty(), key_name_of(event.code));
}

/// The place of a modifier where several are shown: Ctrl, Shift, Alt, Super.
pub open spec fn rank(m: Modifier) -> int {
    match m {
        Modifier::Ctrl => 0,
        Modifier::Shift => 1,
        Modifier::Alt => 2,
        Modifier::Super => 3,
    }
}

/// Recorded modifiers stand in the order Ctrl, Shift, Alt, Super, in whatever order their
/// keys were pressed.
pub proof fn law_recorded_modifiers_are_in_order(pressed: Set<u16>, i: int, j: int)
    requires
        0 <= i < j < held_modifiers(pressed).len(),
    ensures
        rank(held_modifiers(pressed)[i]) < rank(held_modifiers(pressed)[j]),
{
    let all = ALL_MODIFIERS@;
    assert(all[0] == Modifier::Ctrl && all[1] == Modifier::Shift);
    assert(all[2] == Modifier::Alt && all[3] == Modifier::Super);
    lemma_filter_keeps_order(all, |m: Modifier| has_modifier(pressed, m), i, j);
}

proof fn lemma_filter_keeps_order(
    s: Seq<Modifier>,
    p: spec_fn(Modifier) -> bool,
    i: int,
    j: int,
)
    requires
        forall|a: int, b: int| 0 <= a < b < s.len() ==> rank(#[trigger] s[a]) < rank(#[trigger] s[b]),
        0 <= i < j < s.filter(p).len(),
    ensures
        rank(s.filter(p)[i]) < rank(s.filter(p)[j]),
    decreases s.len(),
{
    broadcast use Seq::lemma_filter_contains_rev;

    reveal(Seq::filter);
    if s.len() > 0 {
        let front = s.drop_last();
        assert forall|a: int, b: int| 0 <= a < b < front.len() implies rank(#[trigger] front[a])
            < rank(#[trigger] front[b]) by {
            assert(front[a] == s[a] && front[b] == s[b]);
        }
        if j < front.filter(p).len() {
            lemma_filter_keeps_order(front, p, i, j);
        } else {
            let m = front.filter(p)[i];
            assert(front.filter(p).contains(m));
            assert(front.contains(m));
            let a = front.index_of(m);
            assert(s[a] == m);
            assert(s[s.len() - 1] == s.last());
        }
    }
}

/// The first event that decides is the one that counts: as long as none does, the next one
/// is taken with the modifier keys that are held by then.
pub proof fn law_first_deciding_event_counts(
    pressed: Set<u16>,
    events: Seq<InputEvent>,
    event: InputEvent,
)
    ensures
        recorded_all(pressed, Seq::empty()) == Captured::Pending,
        held_after_all(pressed, Seq::empty()) == pressed,
        recorded_all(pressed, events) is Pending ==> {
            &&& recorded_all(pressed, events.push(event)) == recorded(
                held_after_all(pressed, events),
                event,
            )
            &&& held_after_all(pressed, events.push(event)) == held_after(
                held_after_all(pressed, events),
                event,
            )
        },
        !(recorded_all(pressed, events) is Pending) ==> {
            &&& recorded_all(pressed, events.push(event)) == recorded_all(pressed, events)
            &&& held_after_all(pressed, events.push(event)) == held_after_all(pressed, events)
        },
    decreases events.len(),
{
    let all = events.push(event);
    if events.len() == 0 {
        assert(all[0] == event);
        assert(all.drop_first() =~= Seq::empty());
        assert(recorded_all(held_after(pressed, event), all.drop_first()) == Captured::Pending);
        assert(held_after_all(held_after(pressed, event), all.drop_first()) == held_after(
            pressed,
            event,
        ));
        if recorded(pressed, event) != Captured::Pending {
            assert(held_after(pressed, event) == pressed);
        }
    } else {
        assert(all[0] == events[0]);
        assert(all.drop_first() =~= events.drop_first().push(event));
        if recorded(pressed, events[0]) == Captured::Pending {
            law_first_deciding_event_counts(
                held_after(pressed, events[0]),
                events.drop_first(),
                event,
            );
        }
    }
}

/// Over a whole row of events that decides nothing: a modifier key is held exactly if the
/// last event of value zero or one that told of it was a one. Key repeats make no
/// difference.
pub proof fn law_last_word_while_recording(pressed: Set<u16>, events: Seq<InputEvent>, i: int)
    requires
        recorded_all(pressed, events) is Pending,
        0 <= i < events.len(),
        events[i].kind == 1,
        events[i].value == 0 || events[i].value == 1,
        ({
            let code = events[i].code;
            ||| code == 29 || code == 97 || code == 42 || code == 54
            ||| code == 56 || code == 100 || code == 125 || code == 126
        }),
        forall|j: int|
            i < j < events.len() && (#[trigger] events[j]).kind == 1 && events[j].code
                == events[i].code ==> events[j].value != 0 && events[j].value != 1,
    ensures
        held_after_all(pressed, events).contains(events[i].code) <==> events[i].value == 1,
    decreases events.len(),
{
    let front = events.drop_last();
    let code = events[i].code;
    assert(events =~= front.push(events.last()));
    law_first_deciding_event_counts(pressed, front, events.last());
    let before = held_after_all(pressed, front);
    law_recording_follows_modifier_keys(before, events.last(), code);
    if i < front.len() {
        assert forall|j: int|
            i < j < front.len() && (#[trigger] front[j]).kind == 1 && front[j].code
                == front[i].code implies front[j].value != 0 && front[j].value != 1 by {
            assert(front[j] == events[j]);
        }
        law_last_word_while_recording(pressed, front, i);
        assert(events.last() == events[events.len() - 1]);
    }
}

/// While nothing is decided, keys that a row of events does not tell of stay as they were.
pub proof fn law_untold_keys_stay_while_recording(
    pressed: Set<u16>,
    events: Seq<InputEvent>,
    code: u16,
)
    requires
        forall|j: int|
            0 <= j < events.len() && (#[trigger] events[j]).kind == 1 && events[j].code == code
                ==> events[j].value != 0 && events[j].value != 1,
    ensures
        held_after_all(pressed, events).contains(code) <==> pressed.contains(code),
    decreases events.len(),
{
    if events.len() > 0 {
        let front = events.drop_last();
        assert forall|j: int|
            0 <= j < front.len() && (#[trigger] front[j]).kind == 1 && front[j].code
                == code implies front[j].value != 0 && front[j].value != 1 by {
            assert(front[j] == events[j]);
        }
        law_untold_keys_stay_while_recording(pressed, front, code);
        assert(events =~= front.push(events.last()));
        assert(events.last() == events[events.len() - 1]);
        law_first_deciding_event_counts(pressed, front, events.last());
        law_recording_follows_modifier_keys(
            held_after_all(pressed, front),
            events.last(),
            code,
        );
    }
}

/// A recorded hotkey is that of some press in the row, before which nothing was decided,
/// with exactly the modifiers that were held when it came.
pub proof fn law_recorded_hotkey(
    pressed: Set<u16>,
    events: Seq<InputEvent>,
    modifiers: Seq<Modifier>,
    name: Seq<char>,
) -> (i: int)
    requires
        recorded_all(pressed, events) == Captured::Combo(modifiers, name),
    ensures
        0 <= i < events.len(),
        events[i].kind == 1,
        events[i].value == 1,
        events[i].code != 1,
        name == key_name_of(events[i].code),
        recorded_all(pressed, events.take(i)) is Pending,
        ({
            let held = held_after_all(pressed, events.take(i));
            forall|m: Modifier| #[trigger]
                modifiers.contains(m) <==> match m {
                    Modifier::Ctrl => held.contains(29) || held.contains(97),
                    Modifier::Shift => held.contains(42) || held.contains(54),
                    Modifier::Alt => held.contains(56) || held.contains(100),
                    Modifier::Super => held.contains(125) || held.contains(126),
                }
        }),
        modifiers.no_duplicates(),
    decreases events.len(),
{
    if events.len() == 0 {
        0
    } else {
        let front = events.drop_last();
        assert(events =~= front.push(events.last()));
        law_first_deciding_event_counts(pressed, front, events.last());
        if recorded_all(pressed, front) is Pending {
            law_recorded_event(held_after_all(pressed, front), events.last());
            assert(events.take(events.len() - 1) =~= front);
            events.len() - 1
        } else {
            let i = law_recorded_hotkey(pressed, front, modifiers, name);
            assert(events.take(i) =~= front.take(i));
            i
        }
    }
}

} // verus!
