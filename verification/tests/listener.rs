use std::collections::HashSet;

use evdev::{AttributeSet, Key};
use micloop::config::Modifier;
use micloop::listener::{
    capture_event, capture_hotkey, capture_key, find_name, modifier_keys, mods_satisfied,
    parse_key, Capture, InputEvent, Listener, ALL_MODIFIER_KEYS, EV_KEY, KEY_ESC,
};

fn key_event(key: Key, value: i32) -> InputEvent {
    InputEvent {
        kind: EV_KEY,
        code: key.code(),
        value,
    }
}

#[test]
fn parse_key_resolves_known_names() {
    assert_eq!(parse_key("KEY_A"), Some(Key::KEY_A.code()));
    assert_eq!(parse_key("KEY_SCROLLLOCK"), Some(Key::KEY_SCROLLLOCK.code()));
    assert_eq!(parse_key("KEY_BOGUS"), None);
}

#[test]
fn parse_key_takes_every_shown_name_back() {
    for code in 0..0x2ff {
        let shown = format!("{:?}", Key::new(code));
        assert_eq!(parse_key(&shown), Some(code));
    }
    assert_eq!(parse_key(&format!("{:?}", Key::new(0x2ff))), None);
    for code in 0x2ff..=u16::MAX {
        assert!(!format!("{:?}", Key::new(code)).starts_with("KEY_"));
    }
    assert_eq!(parse_key(""), None);
    assert_eq!(parse_key("key_a"), None);
}

#[test]
fn no_two_keys_share_a_name() {
    let names: HashSet<String> = (0..=u16::MAX).map(|c| format!("{:?}", Key::new(c))).collect();
    assert_eq!(names.len(), 0x10000);
}

#[test]
fn find_name_takes_the_first() {
    let names: Vec<String> = ["a", "b", "a", "c"].iter().map(|s| s.to_string()).collect();
    assert_eq!(find_name(&names, "a"), Some(0));
    assert_eq!(find_name(&names, "c"), Some(3));
    assert_eq!(find_name(&names, "d"), None);
    assert_eq!(find_name(&[], "a"), None);
}

#[test]
fn key_codes_are_those_of_the_devices() {
    assert_eq!(KEY_ESC, Key::KEY_ESC.code());
    assert_eq!(EV_KEY, evdev::EventType::KEY.0);
    let keys = [
        Key::KEY_LEFTCTRL,
        Key::KEY_RIGHTCTRL,
        Key::KEY_LEFTSHIFT,
        Key::KEY_RIGHTSHIFT,
        Key::KEY_LEFTALT,
        Key::KEY_RIGHTALT,
        Key::KEY_LEFTMETA,
        Key::KEY_RIGHTMETA,
    ];
    assert_eq!(ALL_MODIFIER_KEYS, keys.map(|k| k.code()));
    assert_eq!(
        modifier_keys(Modifier::Super),
        [Key::KEY_LEFTMETA.code(), Key::KEY_RIGHTMETA.code()]
    );
    assert_eq!(
        modifier_keys(Modifier::Shift),
        [Key::KEY_LEFTSHIFT.code(), Key::KEY_RIGHTSHIFT.code()]
    );
}

#[test]
fn mods_satisfied_accepts_either_side() {
    let required = vec![Modifier::Ctrl, Modifier::Super];
    let pressed: HashSet<u16> = [Key::KEY_RIGHTCTRL.code(), Key::KEY_LEFTMETA.code()].into();
    assert!(mods_satisfied(&required, &pressed));
}

#[test]
fn mods_satisfied_rejects_missing_modifier() {
    let required = vec![Modifier::Ctrl, Modifier::Alt];
    let pressed: HashSet<u16> = [Key::KEY_LEFTCTRL.code()].into();
    assert!(!mods_satisfied(&required, &pressed));
}

#[test]
fn empty_requirement_is_always_satisfied() {
    assert!(mods_satisfied(&[], &HashSet::new()));
}

#[test]
fn more_keys_still_satisfy() {
    let pressed: HashSet<u16> = [Key::KEY_LEFTCTRL.code(), Key::KEY_LEFTALT.code()].into();
    assert!(mods_satisfied(&[Modifier::Ctrl], &pressed));
    assert!(mods_satisfied(&[Modifier::Ctrl, Modifier::Alt], &pressed));
}

/// Alt+K, and then K alone: one press and two releases are told of.
#[test]
fn end_to_end_alt_k() {
    let mut listener = Listener::spawn("KEY_K", vec![Modifier::Alt]).unwrap();
    let notices = listener.watch(&[
        key_event(Key::KEY_LEFTALT, 1),
        key_event(Key::KEY_K, 1),
        key_event(Key::KEY_K, 0),
        key_event(Key::KEY_LEFTALT, 0),
        key_event(Key::KEY_K, 1),
        key_event(Key::KEY_K, 0),
    ]);
    assert_eq!(notices.iter().filter(|down| **down).count(), 1, "Alt+K press");
    assert_eq!(notices.iter().filter(|down| !**down).count(), 2, "K releases");
    assert_eq!(notices, vec![true, false, false]);
}

#[test]
fn release_is_told_after_the_modifiers_are_let_go() {
    let mut listener = Listener::spawn("KEY_K", vec![Modifier::Ctrl]).unwrap();
    assert_eq!(listener.handle(&key_event(Key::KEY_RIGHTCTRL, 1)), None);
    assert_eq!(listener.handle(&key_event(Key::KEY_K, 1)), Some(true));
    assert_eq!(listener.handle(&key_event(Key::KEY_RIGHTCTRL, 0)), None);
    assert_eq!(listener.handle(&key_event(Key::KEY_K, 0)), Some(false));
}

#[test]
fn repeats_and_other_events_are_passed_over() {
    let mut listener = Listener::spawn("KEY_K", vec![Modifier::Ctrl]).unwrap();
    let events = [
        key_event(Key::KEY_LEFTCTRL, 1),
        key_event(Key::KEY_LEFTCTRL, 2),
        key_event(Key::KEY_K, 2),
        key_event(Key::KEY_J, 1),
        InputEvent {
            kind: 2,
            code: Key::KEY_K.code(),
            value: 1,
        },
        InputEvent {
            kind: 0,
            code: Key::KEY_LEFTCTRL.code(),
            value: 0,
        },
    ];
    assert!(listener.watch(&events).is_empty());
    assert_eq!(listener.handle(&key_event(Key::KEY_K, 1)), Some(true));
}

#[test]
fn rows_of_events_add_up() {
    let events = [
        key_event(Key::KEY_LEFTCTRL, 1),
        key_event(Key::KEY_K, 1),
        key_event(Key::KEY_K, 0),
    ];
    let mut whole = Listener::spawn("KEY_K", vec![Modifier::Ctrl]).unwrap();
    let mut split = Listener::spawn("KEY_K", vec![Modifier::Ctrl]).unwrap();
    let mut notices = split.watch(&events[..1]);
    notices.extend(split.watch(&events[1..]));
    assert_eq!(whole.watch(&events), notices);
}

#[test]
fn last_event_of_a_modifier_decides() {
    let mut listener = Listener::spawn("KEY_K", vec![Modifier::Ctrl]).unwrap();
    listener.watch(&[
        key_event(Key::KEY_LEFTCTRL, 1),
        key_event(Key::KEY_RIGHTCTRL, 1),
        key_event(Key::KEY_LEFTCTRL, 0),
    ]);
    assert_eq!(listener.handle(&key_event(Key::KEY_K, 1)), Some(true));
    listener.watch(&[key_event(Key::KEY_RIGHTCTRL, 0)]);
    assert_eq!(listener.handle(&key_event(Key::KEY_K, 1)), None);
}

#[test]
fn a_modifier_key_may_be_the_hotkey() {
    let mut listener = Listener::spawn("KEY_LEFTCTRL", vec![]).unwrap();
    assert_eq!(listener.handle(&key_event(Key::KEY_LEFTCTRL, 1)), Some(true));
    assert_eq!(listener.handle(&key_event(Key::KEY_LEFTCTRL, 0)), Some(false));
    let mut never = Listener::spawn("KEY_LEFTCTRL", vec![Modifier::Ctrl]).unwrap();
    assert_eq!(never.handle(&key_event(Key::KEY_LEFTCTRL, 1)), None);
}

#[test]
fn unknown_key_names_are_refused() {
    let err = Listener::spawn("KEY_BOGUS", vec![]).unwrap_err();
    assert_eq!(err, "不明なキー名: KEY_BOGUS");
}

#[test]
fn devices_with_the_key_or_a_modifier_are_watched() {
    let listener = Listener::spawn("KEY_K", vec![Modifier::Alt]).unwrap();
    let mut pad = AttributeSet::<Key>::new();
    assert!(!listener.accepts(Some(&pad)));
    pad.insert(Key::KEY_K);
    assert!(listener.accepts(Some(&pad)));
    let mut board = AttributeSet::<Key>::new();
    board.insert(Key::KEY_LEFTCTRL);
    assert!(!listener.accepts(Some(&board)));
    board.insert(Key::KEY_RIGHTALT);
    assert!(listener.accepts(Some(&board)));
    assert!(!listener.accepts(None));
}

#[test]
fn without_devices_there_is_nothing_to_watch() {
    let listener = Listener::spawn("KEY_K", vec![]).unwrap();
    assert_eq!(listener.require_devices(1), Ok(()));
    assert_eq!(
        listener.require_devices(0),
        Err("KEY_K を持つ入力デバイスが見つかりません (inputグループに所属していますか?)"
            .to_string())
    );
}

#[test]
fn recording_takes_the_held_modifiers_in_order() {
    let mut pressed = HashSet::new();
    let capture = capture_hotkey(
        &mut pressed,
        &[
            key_event(Key::KEY_RIGHTMETA, 1),
            key_event(Key::KEY_LEFTSHIFT, 1),
            key_event(Key::KEY_LEFTSHIFT, 0),
            key_event(Key::KEY_LEFTCTRL, 1),
            key_event(Key::KEY_RIGHTCTRL, 1),
            key_event(Key::KEY_M, 0),
            key_event(Key::KEY_M, 2),
            key_event(Key::BTN_LEFT, 1),
            key_event(Key::KEY_M, 1),
            key_event(Key::KEY_ESC, 1),
        ],
    );
    assert_eq!(
        capture,
        Capture::Combo(vec![Modifier::Ctrl, Modifier::Super], "KEY_M".to_string())
    );
}

#[test]
fn what_is_recorded_can_be_watched_for() {
    let mut pressed = HashSet::new();
    let events = [key_event(Key::KEY_RIGHTALT, 1), key_event(Key::KEY_F9, 1)];
    let Capture::Combo(modifiers, name) = capture_hotkey(&mut pressed, &events) else {
        panic!("nothing recorded");
    };
    assert_eq!(parse_key(&name), Some(Key::KEY_F9.code()));
    let mut listener = Listener::spawn(&name, modifiers).unwrap();
    assert_eq!(listener.watch(&events), vec![true]);
}

#[test]
fn escape_cancels_recording() {
    let mut pressed = HashSet::new();
    assert_eq!(
        capture_event(&mut pressed, &key_event(Key::KEY_ESC, 0)),
        Capture::Pending
    );
    assert_eq!(
        capture_event(&mut pressed, &key_event(Key::KEY_ESC, 1)),
        Capture::Cancelled
    );
    assert_eq!(
        capture_hotkey(
            &mut pressed,
            &[
                key_event(Key::KEY_LEFTCTRL, 1),
                key_event(Key::KEY_ESC, 1),
                key_event(Key::KEY_A, 1)
            ]
        ),
        Capture::Cancelled
    );
}

#[test]
fn recording_goes_on_over_rows_of_events() {
    let mut pressed = HashSet::new();
    assert_eq!(
        capture_hotkey(&mut pressed, &[key_event(Key::KEY_LEFTSHIFT, 1)]),
        Capture::Pending
    );
    assert_eq!(
        capture_hotkey(
            &mut pressed,
            &[
                InputEvent {
                    kind: 4,
                    code: Key::KEY_B.code(),
                    value: 1
                },
                key_event(Key::KEY_A, 1)
            ]
        ),
        Capture::Combo(vec![Modifier::Shift], "KEY_A".to_string())
    );
}

#[test]
fn only_keys_are_recorded() {
    let pressed: HashSet<u16> = [Key::KEY_LEFTALT.code()].into();
    assert_eq!(
        capture_key(&pressed, "KEY_X".to_string()),
        Capture::Combo(vec![Modifier::Alt], "KEY_X".to_string())
    );
    assert_eq!(capture_key(&pressed, "BTN_LEFT".to_string()), Capture::Pending);
    assert_eq!(capture_key(&pressed, "unknown key: 84".to_string()), Capture::Pending);
}
