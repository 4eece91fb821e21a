use screen_locker::hotkey::{Action, MOD_ALT, MOD_CONTROL, MOD_NOREPEAT};
use screen_locker::registration::{
    handle_message, HotkeyRegistration, MessageStep, EMERGENCY_MODIFIERS, HOTKEY_EMERGENCY_UNLOCK,
    WM_HOTKEY,
};

#[test]
fn a_listening_thread_reports_the_bind() {
    let r = HotkeyRegistration::started(true);
    assert!(r.failures.is_empty());
    assert_eq!(r.registered_actions, vec![Action::Toggle]);
    assert!(r.emergency_unlock_registered);
}

#[test]
fn a_refused_hotkey_is_a_failure() {
    let r = HotkeyRegistration::started(false);
    assert_eq!(r.failures, vec!["Emergency unlock (Ctrl+Alt+Esc)".to_string()]);
    assert_eq!(r.registered_actions, vec![Action::Toggle]);
    assert!(!r.emergency_unlock_registered);
}

#[test]
fn a_lost_thread_is_a_failure() {
    let r = HotkeyRegistration::lost();
    assert_eq!(r.failures, vec!["Hotkey thread".to_string()]);
    assert!(r.registered_actions.is_empty());
    assert!(!r.emergency_unlock_registered);
}

#[test]
fn only_the_reserved_hotkey_unlocks() {
    let id = HOTKEY_EMERGENCY_UNLOCK as usize;
    assert_eq!(
        handle_message(1, WM_HOTKEY, id),
        MessageStep::Forward(Action::Unlock)
    );
    assert_eq!(handle_message(1, WM_HOTKEY, id + 1), MessageStep::Wait);
    assert_eq!(handle_message(1, 0x100, id), MessageStep::Wait);
}

#[test]
fn the_identifier_is_in_the_low_half() {
    let id = HOTKEY_EMERGENCY_UNLOCK as u64;
    let wide = ((7u64 << 32) | id) as usize;
    let expected = if wide as i32 == HOTKEY_EMERGENCY_UNLOCK {
        MessageStep::Forward(Action::Unlock)
    } else {
        MessageStep::Wait
    };
    assert_eq!(handle_message(1, WM_HOTKEY, wide), expected);
}

#[test]
fn a_result_of_zero_or_less_ends_the_loop() {
    let id = HOTKEY_EMERGENCY_UNLOCK as usize;
    assert_eq!(handle_message(0, WM_HOTKEY, id), MessageStep::Stop);
    assert_eq!(handle_message(-1, WM_HOTKEY, id), MessageStep::Stop);
}

#[test]
fn the_reserved_hotkey_does_not_repeat() {
    assert_eq!(EMERGENCY_MODIFIERS, MOD_CONTROL | MOD_ALT | MOD_NOREPEAT);
}
