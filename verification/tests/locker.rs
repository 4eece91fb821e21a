use screen_locker::capture::{InputEvent, KeyEvent, KeyModifiers};
use screen_locker::geometry::RECT;
use screen_locker::hotkey::{Action, Hotkey, ModifierKeys, MOD_CONTROL};
use screen_locker::keys::Key;
use screen_locker::locker::{
    Command, LockPurpose, Reply, RestartPurpose, ScreenLockerApp, Step,
};
use screen_locker::monitor::Monitor;
use screen_locker::registration::HotkeyRegistration;
use screen_locker::settings::Settings;

const UP: ModifierKeys = ModifierKeys {
    ctrl: false,
    alt: false,
    shift: false,
    left_win: false,
    right_win: false,
};

const FIRST: RECT = RECT {
    left: 0,
    top: 0,
    right: 1920,
    bottom: 1080,
};

const SECOND: RECT = RECT {
    left: 1920,
    top: 0,
    right: 3200,
    bottom: 1024,
};

fn monitor(rect: RECT, primary: bool) -> Monitor {
    Monitor {
        rect,
        work_rect: rect,
        device: "D".to_string(),
        primary,
    }
}

fn both() -> Vec<Monitor> {
    vec![monitor(FIRST, true), monitor(SECOND, false)]
}

fn settings(selected_monitor: usize, bind: Option<Hotkey>) -> Settings {
    Settings {
        selected_monitor,
        toggle_hotkey: bind,
        load_warnings: Vec::new(),
    }
}

fn app() -> ScreenLockerApp {
    ScreenLockerApp::new(
        settings(0, Some(Hotkey::new(0, 0x74))),
        both(),
        HotkeyRegistration::started(true),
    )
}

fn locked_app() -> ScreenLockerApp {
    let mut a = app();
    let step = a.apply_action(Action::Toggle);
    assert_eq!(step.reply, Reply::Lock(LockPurpose::Engage));
    a.finish_lock(LockPurpose::Engage, Ok(()));
    a
}

fn quiet(step: &Step) -> bool {
    step.commands.is_empty() && step.reply == Reply::Nothing
}

fn press(key: Key) -> InputEvent {
    InputEvent::Key(KeyEvent {
        key,
        pressed: true,
        repeat: false,
        modifiers: KeyModifiers {
            alt: false,
            ctrl: false,
            shift: false,
            mac_cmd: false,
            command: false,
        },
    })
}

#[test]
fn a_start_without_trouble_is_ready() {
    let a = app();
    assert_eq!(a.status, "Ready");
    assert!(!a.locked);
    assert_eq!(a.capturing, None);
    assert_eq!(a.worker, None);
    assert!(a.hotkeys_running && !a.toggle_bind_down && !a.settings_dirty);
    assert_eq!(a.monitor_count_label(), "2 monitors found");
    assert_eq!(a.selected_monitor_label(), "Monitor 1 - Primary");
    assert_eq!(a.lock_label(), "Not locked");
}

#[test]
fn a_start_tells_what_failed() {
    let a = ScreenLockerApp::new(
        Settings::load(Some("toggle_hotkey=\ntoggle_hotkey=x y\n")),
        both(),
        HotkeyRegistration::started(true),
    );
    assert_eq!(
        a.status,
        "Ignored invalid settings: toggle_hotkey, toggle_hotkey"
    );
    let a = ScreenLockerApp::new(
        Settings::load(Some("toggle_hotkey=\n")),
        both(),
        HotkeyRegistration::started(false),
    );
    assert_eq!(
        a.status,
        "Could not register: Emergency unlock (Ctrl+Alt+Esc)"
    );
}

#[test]
fn a_start_selects_a_monitor_that_is_there() {
    let a = ScreenLockerApp::new(settings(7, None), both(), HotkeyRegistration::started(true));
    assert_eq!(a.settings.selected_monitor, 0);
    assert!(!a.settings_dirty);
    let a = ScreenLockerApp::new(settings(1, None), both(), HotkeyRegistration::started(true));
    assert_eq!(a.selected_monitor_label(), "Monitor 2");
    let a = ScreenLockerApp::new(settings(1, None), vec![], HotkeyRegistration::started(true));
    assert_eq!(a.selected_monitor_label(), "No monitor");
    assert_eq!(a.monitor_count_label(), "0 monitors found");
    assert_eq!(a.lock_target(), None);
    let a = ScreenLockerApp::new(
        settings(0, None),
        vec![monitor(FIRST, true)],
        HotkeyRegistration::started(true),
    );
    assert_eq!(a.monitor_count_label(), "1 monitor found");
}

#[test]
fn toggling_locks_the_selected_monitor() {
    let mut a = app();
    let step = a.apply_action(Action::Toggle);
    assert!(step.commands.is_empty());
    assert_eq!(step.reply, Reply::Lock(LockPurpose::Engage));
    assert!(!a.locked);
    assert_eq!(a.lock_target(), Some(FIRST));
    assert!(a.is_target_measurable());
    let commands = a.finish_lock(LockPurpose::Engage, Ok(()));
    assert_eq!(commands, vec![Command::StartWorker(FIRST)]);
    assert!(a.locked);
    assert_eq!(a.worker, Some(FIRST));
    assert_eq!(a.status, "Locked to Monitor 1 - Primary (1920x1080)");
    assert_eq!(a.lock_label(), "Locked Monitor 1");
}

#[test]
fn toggling_twice_unlocks() {
    let mut a = locked_app();
    let step = a.apply_action(Action::Toggle);
    assert_eq!(
        step.commands,
        vec![Command::StopWorker, Command::ReleaseCursor]
    );
    assert_eq!(step.reply, Reply::Nothing);
    assert!(!a.locked);
    assert_eq!(a.worker, None);
    assert_eq!(a.status, "Cursor unlocked");
}

#[test]
fn the_emergency_unlock_works_in_every_state() {
    let mut a = locked_app();
    let step = a.apply_action(Action::Unlock);
    assert_eq!(
        step.commands,
        vec![Command::StopWorker, Command::ReleaseCursor]
    );
    assert!(!a.locked);
    let step = a.apply_action(Action::Unlock);
    assert_eq!(step.commands, vec![Command::ReleaseCursor]);
    assert!(!a.locked);
}

#[test]
fn there_is_no_lock_without_a_way_out() {
    let mut a = ScreenLockerApp::new(
        settings(0, None),
        both(),
        HotkeyRegistration::started(false),
    );
    assert!(!a.has_unlock_path());
    let step = a.apply_action(Action::Toggle);
    assert!(quiet(&step));
    assert!(!a.locked);
    assert_eq!(
        a.status,
        "Cannot lock: set a lock/unlock key or free Ctrl+Alt+Esc."
    );
}

#[test]
fn ways_out_are_the_reserved_hotkey_or_a_bind() {
    let bind = Some(Hotkey::new(0, 0x41));
    for (bind, registration, expected) in [
        (None, HotkeyRegistration::started(true), true),
        (bind, HotkeyRegistration::started(false), true),
        (bind, HotkeyRegistration::lost(), false),
        (None, HotkeyRegistration::lost(), false),
    ] {
        let a = ScreenLockerApp::new(settings(0, bind), both(), registration);
        assert_eq!(a.has_unlock_path(), expected);
    }
    let mut registration = HotkeyRegistration::lost();
    registration.registered_actions.push(Action::Unlock);
    let a = ScreenLockerApp::new(settings(0, None), both(), registration);
    assert!(a.has_unlock_path());
}

#[test]
fn a_lock_that_fails_leaves_the_cursor_unlocked() {
    let mut a = app();
    a.apply_action(Action::Toggle);
    let commands = a.finish_lock(LockPurpose::Engage, Err(5));
    assert!(commands.is_empty());
    assert!(!a.locked);
    assert_eq!(a.status, "Could not lock cursor - no monitor is available");
    let mut a = ScreenLockerApp::new(settings(0, None), vec![], HotkeyRegistration::started(true));
    a.apply_action(Action::Toggle);
    assert!(a.finish_lock(LockPurpose::Engage, Ok(())).is_empty());
    assert!(!a.locked);
    assert_eq!(a.status, "Could not lock cursor - no monitor is available");
}

#[test]
fn a_refused_clip_is_told_with_its_error() {
    let mut a = locked_app();
    let (holds, commands) = a.lock_selected_monitor(Err(1234));
    assert!(!holds);
    assert_eq!(commands, vec![Command::StopWorker]);
    assert_eq!(a.status, "ClipCursor failed - Win32 error 1234");
    assert_eq!(a.worker, None);
    assert!(a.locked);
}

#[test]
fn selecting_moves_a_lock() {
    let mut a = locked_app();
    let step = a.set_selected_monitor(1);
    assert!(step.commands.is_empty());
    assert_eq!(step.reply, Reply::Lock(LockPurpose::Refresh));
    assert!(a.settings_dirty);
    let commands = a.finish_lock(LockPurpose::Refresh, Ok(()));
    assert_eq!(
        commands,
        vec![Command::StopWorker, Command::StartWorker(SECOND)]
    );
    assert_eq!(a.worker, Some(SECOND));
    assert!(a.locked);
    assert_eq!(a.status, "Locked to Monitor 2 (1280x1024)");
    assert_eq!(a.lock_label(), "Locked Monitor 2");
}

#[test]
fn selecting_without_a_lock_is_told() {
    let mut a = app();
    assert!(quiet(&a.set_selected_monitor(1)));
    assert_eq!(a.settings.selected_monitor, 1);
    assert_eq!(a.status, "Selected Monitor 2");
    assert!(a.settings_dirty);
}

#[test]
fn a_monitor_that_is_not_there_is_not_selected() {
    let mut a = app();
    assert!(quiet(&a.set_selected_monitor(2)));
    assert_eq!(a.settings.selected_monitor, 0);
    assert_eq!(a.status, "Ready");
    assert!(!a.settings_dirty);
}

#[test]
fn displays_are_looked_at_during_a_lock() {
    assert!(!app().display_check_due(9999));
    assert!(!locked_app().display_check_due(1999));
    assert!(locked_app().display_check_due(2000));
}

#[test]
fn equal_displays_change_nothing() {
    let mut a = locked_app();
    let status = a.status.clone();
    assert!(quiet(&a.check_display_changes(both())));
    assert_eq!(a.status, status);
    assert_eq!(a.worker, Some(FIRST));
}

#[test]
fn a_changed_target_refreshes_the_lock() {
    let mut a = locked_app();
    let moved = RECT {
        right: 2560,
        bottom: 1440,
        ..FIRST
    };
    let step = a.check_display_changes(vec![monitor(moved, true)]);
    assert_eq!(step.reply, Reply::Lock(LockPurpose::Refresh));
    assert_eq!(a.status, "Display changed - lock target refreshed");
    let commands = a.finish_lock(LockPurpose::Refresh, Ok(()));
    assert_eq!(
        commands,
        vec![Command::StopWorker, Command::StartWorker(moved)]
    );
    assert_eq!(a.status, "Locked to Monitor 1 - Primary (2560x1440)");
    assert!(!a.settings_dirty);
}

#[test]
fn a_selection_that_vanishes_moves_to_the_first() {
    let mut a = locked_app();
    a.set_selected_monitor(1);
    a.finish_lock(LockPurpose::Refresh, Ok(()));
    a.settings_dirty = false;
    let step = a.check_display_changes(vec![monitor(FIRST, true)]);
    assert_eq!(step.reply, Reply::Lock(LockPurpose::Refresh));
    assert_eq!(a.settings.selected_monitor, 0);
    assert!(a.settings_dirty);
    a.finish_lock(LockPurpose::Refresh, Ok(()));
    assert_eq!(a.worker, Some(FIRST));
}

#[test]
fn a_changed_work_area_leaves_the_lock() {
    let mut a = locked_app();
    let mut fresh = both();
    fresh[0].work_rect.bottom = 1040;
    assert!(quiet(&a.check_display_changes(fresh)));
    assert_eq!(a.status, "Display work area changed - lock target unchanged");
    assert_eq!(a.worker, Some(FIRST));
    assert!(a.locked);
}

#[test]
fn no_display_means_no_lock() {
    let mut a = locked_app();
    let step = a.check_display_changes(vec![]);
    assert_eq!(
        step.commands,
        vec![Command::StopWorker, Command::ReleaseCursor]
    );
    assert!(!a.locked);
    assert_eq!(a.worker, None);
    assert_eq!(
        a.status,
        "Display changed - no monitors detected, cursor unlocked"
    );
}

#[test]
fn changed_displays_are_counted_without_a_lock() {
    let mut a = app();
    assert!(quiet(&a.check_display_changes(vec![monitor(FIRST, true)])));
    assert_eq!(a.status, "Display changed - 1 monitor found");
}

#[test]
fn recording_stops_listening() {
    let mut a = app();
    assert_eq!(a.bind_label(Action::Toggle), "F5");
    let step = a.click_bind(Action::Toggle);
    assert_eq!(step.commands, vec![Command::StopHotkeys]);
    assert_eq!(step.reply, Reply::Nothing);
    assert_eq!(a.capturing, Some(Action::Toggle));
    assert!(!a.hotkeys_running && !a.emergency_unlock_registered);
    assert!(a.registered_actions.is_empty());
    assert_eq!(a.status, "Recording Toggle Lock/Unlock bind");
    assert_eq!(a.bind_label(Action::Toggle), "Recording");
    assert!(a.is_recording(Action::Toggle) && !a.is_recording(Action::Unlock));
    assert_eq!(a.bind_label(Action::Unlock), "Ctrl+Alt+Esc");
}

#[test]
fn a_bind_that_is_not_set_says_so() {
    let a = ScreenLockerApp::new(settings(0, None), both(), HotkeyRegistration::started(true));
    assert_eq!(a.bind_label(Action::Toggle), "Set key");
}

#[test]
fn a_second_click_cancels() {
    let mut a = app();
    a.click_bind(Action::Toggle);
    let step = a.click_bind(Action::Toggle);
    assert!(step.commands.is_empty());
    assert_eq!(step.reply, Reply::Restart(RestartPurpose::Canceled));
    a.finish_restart(
        RestartPurpose::Canceled,
        false,
        UP,
        HotkeyRegistration::started(false),
    );
    assert_eq!(a.capturing, None);
    assert_eq!(a.status, "Bind recording canceled");
    assert!(a.hotkeys_running && !a.emergency_unlock_registered);
    assert_eq!(a.registered_actions, vec![Action::Toggle]);
    assert_eq!(a.settings.toggle_hotkey, Some(Hotkey::new(0, 0x74)));
    assert!(!a.settings_dirty);
}

#[test]
fn escape_cancels_a_recording() {
    let mut a = app();
    a.start_capture(Action::Toggle);
    let step = a.try_capture_bind(&[press(Key::Escape)], UP);
    assert_eq!(step.reply, Reply::Restart(RestartPurpose::Canceled));
    assert_eq!(a.capturing, None);
}

#[test]
fn a_recorded_bind_is_set_and_waits_for_its_release() {
    let mut a = app();
    a.start_capture(Action::Toggle);
    let keys = ModifierKeys { ctrl: true, ..UP };
    let step = a.try_capture_bind(&[press(Key::G)], keys);
    let bind = Hotkey::new(MOD_CONTROL, 0x47);
    let purpose = RestartPurpose::Bound(Action::Toggle, bind);
    assert!(step.commands.is_empty());
    assert_eq!(step.reply, Reply::Restart(purpose));
    assert_eq!(a.settings.toggle_hotkey, Some(bind));
    assert!(a.settings_dirty);
    a.finish_restart(purpose, true, keys, HotkeyRegistration::started(true));
    assert_eq!(a.status, "Toggle Lock/Unlock bind set to Ctrl+G");
    assert!(a.toggle_bind_down);
    assert!(quiet(&a.poll_toggle_bind(true, keys)));
    assert!(quiet(&a.poll_toggle_bind(false, UP)));
    let step = a.poll_toggle_bind(true, keys);
    assert_eq!(step.reply, Reply::Lock(LockPurpose::Engage));
}

#[test]
fn a_recorded_bind_is_there_next_time() {
    let mut a = app();
    a.start_capture(Action::Toggle);
    a.try_capture_bind(&[press(Key::Backtick)], UP);
    let closing = a.close();
    let s = Settings::load(Some(&closing.save.unwrap()));
    assert_eq!(s.toggle_hotkey, Some(Hotkey::new(0, 0xc0)));
    assert_eq!(s.selected_monitor, 0);
    assert!(s.load_warnings.is_empty());
}

#[test]
fn a_key_that_cannot_be_bound_keeps_recording() {
    let mut a = app();
    a.start_capture(Action::Toggle);
    assert!(quiet(&a.try_capture_bind(&[press(Key::Other)], UP)));
    assert_eq!(a.status, "Unsupported key for bind");
    assert_eq!(a.capturing, Some(Action::Toggle));
}

#[test]
fn events_do_not_matter_without_a_recording() {
    let mut a = app();
    assert!(quiet(&a.try_capture_bind(&[press(Key::Escape)], UP)));
    assert!(quiet(&a.try_capture_bind(&[press(Key::A)], UP)));
    assert_eq!(a.status, "Ready");
    assert_eq!(a.settings.toggle_hotkey, Some(Hotkey::new(0, 0x74)));
}

#[test]
fn starting_to_listen_again_tells_what_failed() {
    let mut a = app();
    assert_eq!(a.stop_hotkeys(), vec![Command::StopHotkeys]);
    assert!(a.stop_hotkeys().is_empty());
    a.restart_hotkeys(HotkeyRegistration::lost());
    assert_eq!(a.status, "Could not register: Hotkey thread");
    assert!(a.hotkeys_running && a.registered_actions.is_empty());
    a.status = "kept".to_string();
    a.restart_hotkeys(HotkeyRegistration::started(true));
    assert_eq!(a.status, "kept");
    assert!(a.emergency_unlock_registered);
}

#[test]
fn a_held_bind_acts_once() {
    let mut a = app();
    assert_eq!(
        a.poll_toggle_bind(true, UP).reply,
        Reply::Lock(LockPurpose::Engage)
    );
    a.finish_lock(LockPurpose::Engage, Ok(()));
    assert!(a.toggle_bind_down);
    assert!(quiet(&a.poll_toggle_bind(true, UP)));
    assert!(a.locked);
    assert!(quiet(&a.poll_toggle_bind(false, UP)));
    assert!(!a.toggle_bind_down);
    assert_eq!(
        a.poll_toggle_bind(true, UP).commands,
        vec![Command::StopWorker, Command::ReleaseCursor]
    );
    assert!(!a.locked);
}

#[test]
fn recording_does_not_toggle() {
    let mut a = app();
    a.start_capture(Action::Toggle);
    a.toggle_bind_down = true;
    assert!(quiet(&a.poll_toggle_bind(true, UP)));
    assert!(!a.toggle_bind_down);
    assert!(!a.locked);
}

#[test]
fn without_a_bind_nothing_toggles() {
    let mut a = ScreenLockerApp::new(settings(0, None), both(), HotkeyRegistration::started(true));
    assert!(quiet(&a.poll_toggle_bind(true, UP)));
    assert!(!a.toggle_bind_down);
}

#[test]
fn closing_frees_the_cursor_and_saves_what_changed() {
    let mut a = locked_app();
    let closing = a.close();
    assert_eq!(
        closing.commands,
        vec![
            Command::StopWorker,
            Command::ReleaseCursor,
            Command::StopHotkeys
        ]
    );
    assert_eq!(closing.save, None);
    let mut a = app();
    a.set_selected_monitor(1);
    let closing = a.close();
    assert_eq!(
        closing.commands,
        vec![Command::ReleaseCursor, Command::StopHotkeys]
    );
    assert_eq!(
        closing.save,
        Some("# screen_locker settings\nselected_monitor=1\ntoggle_hotkey=F5\n".to_string())
    );
}

#[test]
fn a_target_without_a_size_is_not_measurable() {
    let huge = RECT {
        left: i32::MIN,
        ..FIRST
    };
    let a = ScreenLockerApp::new(
        settings(0, None),
        vec![monitor(huge, true)],
        HotkeyRegistration::started(true),
    );
    assert!(!a.is_target_measurable());
}

#[test]
fn a_bind_held_with_other_keys_still_acts_once() {
    let mut a = app();
    assert_eq!(
        a.poll_toggle_bind(true, UP).reply,
        Reply::Lock(LockPurpose::Engage)
    );
    a.finish_lock(LockPurpose::Engage, Ok(()));
    let more = ModifierKeys { alt: true, ..UP };
    for keys in [more, UP, ModifierKeys { shift: true, ..more }] {
        assert!(quiet(&a.poll_toggle_bind(true, keys)));
        assert!(a.locked && a.toggle_bind_down);
    }
}

#[test]
fn a_new_bind_held_with_other_keys_waits_for_its_release() {
    let mut a = app();
    a.start_capture(Action::Toggle);
    a.try_capture_bind(&[press(Key::G)], UP);
    let purpose = RestartPurpose::Bound(Action::Toggle, Hotkey::new(0, 0x47));
    a.finish_restart(purpose, true, UP, HotkeyRegistration::started(true));
    let ctrl = ModifierKeys { ctrl: true, ..UP };
    assert!(quiet(&a.poll_toggle_bind(true, ctrl)));
    assert!(quiet(&a.poll_toggle_bind(false, ctrl)));
    assert_eq!(
        a.poll_toggle_bind(true, ctrl).reply,
        Reply::Lock(LockPurpose::Engage)
    );
}

#[test]
fn the_end_of_a_recording_toggles_nothing() {
    for down in [true, false] {
        let mut a = app();
        a.start_capture(Action::Toggle);
        a.try_capture_bind(&[press(Key::G)], UP);
        let purpose = RestartPurpose::Bound(Action::Toggle, Hotkey::new(0, 0x47));
        a.finish_restart(purpose, down, UP, HotkeyRegistration::started(true));
        assert_eq!(a.toggle_bind_down, down);
        assert!(quiet(&a.poll_toggle_bind(down, UP)));
        assert!(!a.locked);
    }
}
