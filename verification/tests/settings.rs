use screen_locker::hotkey::{Action, Hotkey, MOD_ALT, MOD_CONTROL, MOD_NOREPEAT};
use screen_locker::settings::{clamp_selected_monitor, config_path, save_path, ConfigBase, Settings};

fn load(text: &str) -> Settings {
    Settings::load(Some(text))
}

fn settings(selected_monitor: usize, toggle_hotkey: Option<Hotkey>) -> Settings {
    Settings {
        selected_monitor,
        toggle_hotkey,
        load_warnings: Vec::new(),
    }
}

#[test]
fn an_unreadable_file_leaves_the_defaults() {
    let s = Settings::load(None);
    assert_eq!(s.selected_monitor, 0);
    assert_eq!(s.toggle_hotkey, None);
    assert!(s.load_warnings.is_empty());
    let d = Settings::default();
    assert_eq!((d.selected_monitor, d.toggle_hotkey), (0, None));
    assert!(d.load_warnings.is_empty());
}

#[test]
fn entries_are_read_with_comments_spaces_and_line_ends() {
    let s = load("\u{feff}x\r\n# selected_monitor=9\r\n\r\n  selected_monitor = 3 \r\ntoggle_hotkey= ctrl + f5\r\nother=1\r\nnothing");
    assert_eq!(s.selected_monitor, 3);
    assert_eq!(s.toggle_hotkey, Some(Hotkey::new(MOD_CONTROL, 0x74)));
    assert!(s.load_warnings.is_empty());
}

#[test]
fn the_last_entry_that_can_be_read_counts() {
    let s = load("selected_monitor=1\nselected_monitor=2\nselected_monitor=x\nselected_monitor=-1\n");
    assert_eq!(s.selected_monitor, 2);
    assert!(s.load_warnings.is_empty());
    let s = load("toggle_hotkey=A\ntoggle_hotkey=nonsense\n");
    assert_eq!(s.toggle_hotkey, Some(Hotkey::new(0, 0x41)));
    assert_eq!(s.load_warnings, vec!["toggle_hotkey".to_string()]);
}

#[test]
fn every_bind_that_cannot_be_read_warns() {
    let s = load("toggle_hotkey=\ntoggle_hotkey=Ctrl\n");
    assert_eq!(s.toggle_hotkey, None);
    assert_eq!(
        s.load_warnings,
        vec!["toggle_hotkey".to_string(), "toggle_hotkey".to_string()]
    );
}

#[test]
fn names_of_entries_have_case() {
    let s = load("Selected_Monitor=4\nTOGGLE_HOTKEY=x\n=5\n");
    assert_eq!(s.selected_monitor, 0);
    assert_eq!(s.toggle_hotkey, None);
    assert!(s.load_warnings.is_empty());
}

#[test]
fn only_the_first_equals_sign_splits() {
    let s = load("toggle_hotkey=A=B\nselected_monitor=1=2\n");
    assert_eq!(s.toggle_hotkey, None);
    assert_eq!(s.selected_monitor, 0);
    assert_eq!(s.load_warnings.len(), 1);
}

#[test]
fn the_saved_text_is_fixed() {
    assert_eq!(
        settings(2, Some(Hotkey::new(MOD_CONTROL | MOD_ALT, 0x50))).save(),
        "# screen_locker settings\nselected_monitor=2\ntoggle_hotkey=Ctrl+Alt+P\n"
    );
    assert_eq!(
        settings(0, None).save(),
        "# screen_locker settings\nselected_monitor=0\ntoggle_hotkey=\n"
    );
}

#[test]
fn saved_settings_read_back() {
    for selected in [0, 1, 10, usize::MAX] {
        for vk in [0x41, 0x39, 0x70, 0x87, 0x1b, 0xbb, 0xde] {
            for modifiers in 0..16 {
                let bind = Hotkey::new(modifiers, vk);
                let s = load(&settings(selected, Some(bind)).save());
                assert_eq!(s.selected_monitor, selected);
                assert_eq!(s.toggle_hotkey, Some(bind));
                assert!(s.load_warnings.is_empty());
            }
        }
    }
}

#[test]
fn what_cannot_be_read_back_warns() {
    let s = load(&settings(1, None).save());
    assert_eq!((s.selected_monitor, s.toggle_hotkey), (1, None));
    assert_eq!(s.load_warnings, vec!["toggle_hotkey".to_string()]);
    let s = load(&settings(1, Some(Hotkey::new(MOD_ALT, 0xff))).save());
    assert_eq!(s.toggle_hotkey, None);
    assert_eq!(s.load_warnings, vec!["toggle_hotkey".to_string()]);
    let s = load(&settings(1, Some(Hotkey::new(MOD_NOREPEAT, 0x41))).save());
    assert_eq!(s.toggle_hotkey, Some(Hotkey::new(0, 0x41)));
}

#[test]
fn the_emergency_bind_is_fixed() {
    let mut s = settings(0, None);
    let emergency = s.hotkey(Action::Unlock).unwrap();
    assert_eq!(emergency.display(), "Ctrl+Alt+Esc");
    s.set_hotkey(Action::Unlock, Hotkey::new(0, 0x41));
    assert_eq!(s.hotkey(Action::Unlock), Some(emergency));
    assert_eq!(s.hotkey(Action::Toggle), None);
    s.set_hotkey(Action::Toggle, Hotkey::new(0, 0x41));
    assert_eq!(s.hotkey(Action::Toggle), Some(Hotkey::new(0, 0x41)));
}

#[test]
fn a_selection_that_is_gone_goes_back_to_the_first() {
    for (selected, count, expected) in [(0, 0, 0), (5, 0, 0), (1, 2, 1), (2, 2, 0), (0, 1, 0)] {
        let mut s = settings(selected, None);
        clamp_selected_monitor(&mut s, count);
        assert_eq!(s.selected_monitor, expected);
    }
}

#[test]
fn the_settings_file_is_below_local_app_data() {
    for known in [true, false] {
        let p = config_path(true, known).unwrap();
        assert_eq!(p.base, ConfigBase::LocalAppData);
        assert_eq!(p.names, vec!["screen_locker", "settings.ini"]);
    }
    let p = config_path(false, true).unwrap();
    assert_eq!(p.base, ConfigBase::WorkingDirectory);
    assert_eq!(p.names, vec!["screen_locker.ini"]);
    assert!(config_path(false, false).is_none());
}

#[test]
fn the_settings_are_written_where_they_are_read_or_by_name_alone() {
    for (local, known) in [(true, true), (true, false), (false, true)] {
        let read = config_path(local, known).unwrap();
        let written = save_path(local, known);
        assert_eq!(written.base, read.base);
        assert_eq!(written.names, read.names);
    }
    let written = save_path(false, false);
    assert_eq!(written.base, ConfigBase::WorkingDirectory);
    assert_eq!(written.names, vec!["screen_locker.ini"]);
}
