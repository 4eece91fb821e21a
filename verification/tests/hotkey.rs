use screen_locker::hotkey::{
    hotkey_is_down, key_state_down, normalize_modifiers, parse_hotkey, pressed_modifiers,
    pressed_modifiers_async, Action, Hotkey, ModifierKeys, MOD_ALT, MOD_CONTROL, MOD_NOREPEAT,
    MOD_SHIFT, MOD_WIN,
};

const NONE: ModifierKeys = ModifierKeys {
    ctrl: false,
    alt: false,
    shift: false,
    left_win: false,
    right_win: false,
};

#[test]
fn actions_have_labels() {
    assert_eq!(Action::Toggle.label(), "Toggle Lock/Unlock");
    assert_eq!(Action::Unlock.label(), "Unlock");
}

#[test]
fn binds_are_written_in_a_fixed_order() {
    assert_eq!(Hotkey::new(0, 0x46).display(), "F");
    assert_eq!(
        Hotkey::new(MOD_CONTROL | MOD_ALT, 0x1b).display(),
        "Ctrl+Alt+Esc"
    );
    assert_eq!(
        Hotkey::new(MOD_WIN | MOD_SHIFT | MOD_ALT | MOD_CONTROL, 0x74).display(),
        "Ctrl+Alt+Shift+Win+F5"
    );
    assert_eq!(Hotkey::new(MOD_NOREPEAT, 0xff).display(), "VK255");
}

#[test]
fn binds_are_read_whatever_their_case_order_and_spacing() {
    assert_eq!(
        parse_hotkey(" shift + CONTROL+f5 "),
        Some(Hotkey::new(MOD_CONTROL | MOD_SHIFT, 0x74))
    );
    assert_eq!(
        parse_hotkey("windows+A"),
        Some(Hotkey::new(MOD_WIN, 0x41))
    );
    assert_eq!(parse_hotkey("a+ctrl"), Some(Hotkey::new(MOD_CONTROL, 0x41)));
    assert_eq!(
        parse_hotkey("Ctrl+Ctrl+Plus"),
        Some(Hotkey::new(MOD_CONTROL, 0xbb))
    );
}

#[test]
fn the_last_key_counts_even_where_it_names_none() {
    assert_eq!(parse_hotkey("A+B"), Some(Hotkey::new(0, 0x42)));
    assert_eq!(parse_hotkey("A+nonsense"), None);
    assert_eq!(parse_hotkey("A++Ctrl"), None);
}

#[test]
fn a_bind_needs_a_key() {
    assert_eq!(parse_hotkey(""), None);
    assert_eq!(parse_hotkey("Ctrl"), None);
    assert_eq!(parse_hotkey("Ctrl+"), None);
    assert_eq!(parse_hotkey("Ctrl+VK255"), None);
}

#[test]
fn written_binds_read_back() {
    for modifiers in 0..16u32 {
        for vk in 0..=0xffu32 {
            let hotkey = Hotkey::new(modifiers, vk);
            let text = hotkey.display();
            if text.contains("VK") {
                assert_eq!(parse_hotkey(&text), None);
            } else {
                assert_eq!(parse_hotkey(&text), Some(hotkey));
                assert_eq!(parse_hotkey(&text.to_uppercase()), Some(hotkey));
            }
        }
    }
    assert_eq!(
        parse_hotkey(&Hotkey::new(MOD_NOREPEAT | MOD_ALT, 0x41).display()),
        Some(Hotkey::new(MOD_ALT, 0x41))
    );
}

#[test]
fn only_the_four_modifiers_are_kept() {
    assert_eq!(normalize_modifiers(0xffff_ffff), 0xf);
    assert_eq!(normalize_modifiers(MOD_NOREPEAT | MOD_WIN), MOD_WIN);
    assert_eq!(normalize_modifiers(0), 0);
}

#[test]
fn held_modifier_keys_become_bits() {
    assert_eq!(pressed_modifiers(NONE), 0);
    let all = ModifierKeys {
        ctrl: true,
        alt: true,
        shift: true,
        left_win: true,
        right_win: true,
    };
    assert_eq!(pressed_modifiers(all), 0xf);
    assert_eq!(pressed_modifiers_async(all), 0xf);
    let right = ModifierKeys {
        right_win: true,
        ..NONE
    };
    assert_eq!(pressed_modifiers_async(right), MOD_WIN);
    let left = ModifierKeys {
        left_win: true,
        ..NONE
    };
    assert_eq!(pressed_modifiers(left), MOD_WIN);
    let ctrl = ModifierKeys { ctrl: true, ..NONE };
    assert_eq!(pressed_modifiers_async(ctrl), MOD_CONTROL);
    let alt = ModifierKeys { alt: true, ..NONE };
    assert_eq!(pressed_modifiers_async(alt), MOD_ALT);
    let shift = ModifierKeys { shift: true, ..NONE };
    assert_eq!(pressed_modifiers_async(shift), MOD_SHIFT);
}

#[test]
fn a_bind_is_held_with_its_key_and_modifiers() {
    let bind = Hotkey::new(MOD_CONTROL | MOD_SHIFT, 0x74);
    let both = ModifierKeys {
        ctrl: true,
        shift: true,
        ..NONE
    };
    assert!(hotkey_is_down(bind, true, both));
    assert!(!hotkey_is_down(bind, false, both));
    assert!(!hotkey_is_down(bind, true, ModifierKeys { ctrl: true, ..NONE }));
    assert!(!hotkey_is_down(bind, true, ModifierKeys { shift: true, ..NONE }));
    assert!(hotkey_is_down(bind, true, ModifierKeys { alt: true, ..both }));
    let win = Hotkey::new(MOD_WIN, 0x74);
    assert!(hotkey_is_down(win, true, ModifierKeys { right_win: true, ..NONE }));
    assert!(!hotkey_is_down(win, true, NONE));
}

#[test]
fn shift_is_ignored_on_letters() {
    let bind = Hotkey::new(MOD_SHIFT, 0x41);
    assert!(hotkey_is_down(bind, true, NONE));
    assert!(hotkey_is_down(bind, true, ModifierKeys { shift: true, ..NONE }));
    assert!(!hotkey_is_down(Hotkey::new(MOD_SHIFT, 0x70), true, NONE));
}

#[test]
fn a_single_key_bind_needs_its_key_only() {
    for bind in [Hotkey::new(0, 0x74), Hotkey::new(MOD_NOREPEAT, 0x74)] {
        assert!(hotkey_is_down(bind, true, NONE));
        assert!(hotkey_is_down(bind, true, ModifierKeys { ctrl: true, ..NONE }));
        assert!(!hotkey_is_down(bind, false, NONE));
    }
}

#[test]
fn the_sign_of_a_key_state_says_down() {
    assert!(key_state_down(-32768));
    assert!(key_state_down(-1));
    assert!(!key_state_down(0));
    assert!(!key_state_down(1));
}
