use screen_locker::capture::{capture, Capture, InputEvent, KeyEvent, KeyModifiers};
use screen_locker::hotkey::{
    hotkey_is_down, parse_hotkey, Hotkey, ModifierKeys, MOD_ALT, MOD_CONTROL, MOD_SHIFT, MOD_WIN,
};
use screen_locker::keys::Key;

const UP: ModifierKeys = ModifierKeys {
    ctrl: false,
    alt: false,
    shift: false,
    left_win: false,
    right_win: false,
};

const PLAIN: KeyModifiers = KeyModifiers {
    alt: false,
    ctrl: false,
    shift: false,
    mac_cmd: false,
    command: false,
};

fn press(key: Key, modifiers: KeyModifiers) -> InputEvent {
    InputEvent::Key(KeyEvent {
        key,
        pressed: true,
        repeat: false,
        modifiers,
    })
}

#[test]
fn no_key_records_nothing() {
    assert_eq!(capture(&[], UP), Capture::Nothing);
    assert_eq!(capture(&[InputEvent::Other], UP), Capture::Nothing);
    let released = InputEvent::Key(KeyEvent {
        key: Key::A,
        pressed: false,
        repeat: false,
        modifiers: PLAIN,
    });
    let repeated = InputEvent::Key(KeyEvent {
        key: Key::A,
        pressed: true,
        repeat: true,
        modifiers: PLAIN,
    });
    assert_eq!(
        capture(&[released, repeated, press(Key::ShiftLeft, PLAIN)], UP),
        Capture::Nothing
    );
}

#[test]
fn escape_alone_cancels() {
    assert_eq!(capture(&[press(Key::Escape, PLAIN)], UP), Capture::Cancel);
    let held = ModifierKeys { ctrl: true, ..UP };
    assert_eq!(capture(&[press(Key::Escape, PLAIN)], held), Capture::Cancel);
}

#[test]
fn escape_with_any_modifier_is_a_bind() {
    for (modifiers, bits) in [
        (KeyModifiers { alt: true, ..PLAIN }, MOD_ALT),
        (KeyModifiers { ctrl: true, ..PLAIN }, MOD_CONTROL),
        (KeyModifiers { shift: true, ..PLAIN }, MOD_SHIFT),
        (KeyModifiers { mac_cmd: true, ..PLAIN }, 0),
        (KeyModifiers { command: true, ..PLAIN }, MOD_CONTROL),
    ] {
        assert_eq!(
            capture(&[press(Key::Escape, modifiers)], UP),
            Capture::Bind(Hotkey::new(bits, 0x1b))
        );
    }
}

#[test]
fn keys_without_a_code_are_refused() {
    assert_eq!(
        capture(&[press(Key::Other, PLAIN), press(Key::A, PLAIN)], UP),
        Capture::Unsupported
    );
}

#[test]
fn the_first_key_that_counts_decides() {
    assert_eq!(
        capture(
            &[
                InputEvent::Other,
                press(Key::ControlLeft, PLAIN),
                press(Key::B, PLAIN),
                press(Key::Escape, PLAIN),
            ],
            UP
        ),
        Capture::Bind(Hotkey::new(0, 0x42))
    );
}

#[test]
fn held_and_reported_modifiers_are_combined() {
    let live = ModifierKeys {
        right_win: true,
        alt: true,
        ..UP
    };
    let reported = KeyModifiers {
        ctrl: true,
        shift: true,
        ..PLAIN
    };
    assert_eq!(
        capture(&[press(Key::F5, reported)], live),
        Capture::Bind(Hotkey::new(
            MOD_CONTROL | MOD_ALT | MOD_SHIFT | MOD_WIN,
            0x74
        ))
    );
}

#[test]
fn shift_is_no_part_of_a_bind_on_a_letter() {
    let live = ModifierKeys {
        shift: true,
        ctrl: true,
        ..UP
    };
    let reported = KeyModifiers {
        shift: true,
        ..PLAIN
    };
    assert_eq!(
        capture(&[press(Key::F, reported)], live),
        Capture::Bind(Hotkey::new(MOD_CONTROL, 0x46))
    );
    assert_eq!(
        capture(&[press(Key::Num1, reported)], UP),
        Capture::Bind(Hotkey::new(MOD_SHIFT, 0x31))
    );
}

#[test]
fn recorded_binds_read_back_and_are_held_by_their_keys() {
    let live = ModifierKeys {
        ctrl: true,
        shift: true,
        left_win: true,
        ..UP
    };
    for key in [
        Key::A,
        Key::Num7,
        Key::F13,
        Key::Plus,
        Key::Backslash,
        Key::Pipe,
        Key::ArrowUp,
        Key::Space,
    ] {
        match capture(&[press(key, PLAIN)], live) {
            Capture::Bind(hotkey) => {
                assert_eq!(parse_hotkey(&hotkey.display()), Some(hotkey));
                assert!(hotkey_is_down(hotkey, true, live));
            }
            other => panic!("{:?}", other),
        }
    }
}
