//! What holds of the utility as a whole.

use crate::capture::{captured, reaction, Capture, InputEvent, KeyEvent};
use crate::geometry::RECT;
use crate::hotkey::{
    has_bit, held, law_a_bind_is_not_held_without_its_keys, mask, normalized, Action, Hotkey,
    ModifierKeys, MOD_ALT, MOD_CONTROL, MOD_SHIFT, MOD_WIN,
};
use crate::keys::{law_bindable_keys_are_nameable, letter_vk};
use crate::locker::{
    ending, initial, AppView, Command, LockPurpose, Outcome, Reply, RestartPurpose,
    ScreenLockerApp, Step, DISPLAY_CHECK_INTERVAL,
};
use crate::monitor::{monitor_views, same_targets, MonitorView};
use crate::registration::{listening, not_listening, RegistrationView};
use crate::settings::{law_settings_read_back, loaded, surviving, SettingsView};
use crate::text::{decimal, joined, signed_decimal};
use vstd::prelude::*;

verus! {

/// What can happen to the utility.
pub enum Event {
    Selected(usize),
    Acted(Action),
    Displays(Seq<MonitorView>),
    BindClicked(Action),
    Input(Seq<InputEvent>, ModifierKeys),
    Polled(bool, ModifierKeys),
}

/// What the world answers where an operation asks for an answer: whether the cursor could
/// be put on the selected monitor, which keys are down, and what came of starting to
/// listen.
pub struct Answer {
    pub enforced: Result<(), u32>,
    pub key_down: bool,
    pub keys: ModifierKeys,
    pub registration: RegistrationView,
}

/// What an event does.
pub open spec fn happens(s: AppView, event: Event) -> Outcome {
    match event {
        Event::Selected(index) => s.set_selected_monitor(index),
        Event::Acted(action) => s.apply_action(action),
        Event::Displays(fresh) => s.check_display_changes(fresh),
        Event::BindClicked(action) => s.click_bind(action),
        Event::Input(events, live) => s.try_capture_bind(events, live),
        Event::Polled(key_down, keys) => s.poll_toggle_bind(key_down, keys),
    }
}

/// The state once the answer that was asked for has come.
pub open spec fn settled(o: Outcome, answer: Answer) -> AppView {
    match o.reply {
        Reply::Nothing => o.state,
        Reply::Lock(purpose) => o.state.finish_lock(purpose, answer.enforced),
        Reply::Restart(purpose) => o.state.finish_restart(
            purpose,
            answer.key_down,
            answer.keys,
            answer.registration,
        ),
    }
}

/// The state after an event and the answer to it.
pub open spec fn after(s: AppView, event: Event, answer: Answer) -> AppView {
    settled(happens(s, event), answer)
}

/// The state after a history of events and answers.
pub open spec fn after_all(s: AppView, history: Seq<(Event, Answer)>) -> AppView
    decreases history.len(),
{
    if history.len() == 0 {
        s
    } else {
        after(after_all(s, history.drop_last()), history.last().0, history.last().1)
    }
}

/// The cursor is held only while the lock is on, and only on the selected monitor, which is
/// one of those that are there. Something listens except while a bind is being recorded, and
/// no lock can start then.
pub open spec fn sound(s: AppView) -> bool {
    &&& s.selection_valid()
    &&& s.hotkeys_running == (s.capturing is None)
    &&& s.capturing is Some ==> !s.has_unlock_path()
    &&& s.worker matches Some(rect) ==> s.locked && s.target() is Some && s.target()->0.rect
        == rect
}

/// An event and its answer keep the state sound.
pub proof fn law_events_keep_the_state_sound(s: AppView, event: Event, answer: Answer)
    requires
        sound(s),
    ensures
        sound(after(s, event, answer)),
{
    if let Event::Displays(fresh) = event {
        if s.locked && same_targets(s.monitors, fresh) && s.worker is Some {
            assert(s.monitors[s.settings.selected_monitor as int].same_target(
                fresh[s.settings.selected_monitor as int],
            ));
        }
    }
}

/// Whatever happens from the start on, the state is sound.
pub proof fn law_every_state_is_sound(
    settings: SettingsView,
    monitors: Seq<MonitorView>,
    registration: RegistrationView,
    history: Seq<(Event, Answer)>,
)
    ensures
        sound(after_all(initial(settings, monitors, registration), history)),
    decreases history.len(),
{
    if history.len() > 0 {
        law_every_state_is_sound(settings, monitors, registration, history.drop_last());
        law_events_keep_the_state_sound(
            after_all(initial(settings, monitors, registration), history.drop_last()),
            history.last().0,
            history.last().1,
        );
    }
}

/// The lock comes on only where there is a way to unlock, a monitor to hold the cursor on,
/// and the cursor could be put there.
pub proof fn law_no_lock_without_a_way_out(s: AppView, event: Event, answer: Answer)
    requires
        !s.locked,
        after(s, event, answer).locked,
    ensures
        s.has_unlock_path(),
        s.target() is Some,
        answer.enforced is Ok,
        after(s, event, answer).worker == Some(s.target()->0.rect),
{
}

/// The emergency unlock frees the cursor in every state, and waits for no answer.
pub proof fn law_unlock_always_frees_the_cursor(s: AppView)
    ensures
        ({
            let o = s.apply_action(Action::Unlock);
            &&& !o.state.locked
            &&& o.state.worker is None
            &&& o.commands == ending(s.worker).push(Command::ReleaseCursor)
            &&& o.reply == Reply::Nothing
        }),
{
}

/// Toggling a lock frees the cursor just as the emergency unlock does.
pub proof fn law_toggle_unlocks_a_lock(s: AppView)
    requires
        s.locked,
    ensures
        s.apply_action(Action::Toggle) == s.apply_action(Action::Unlock),
{
}

/// Toggling an unlocked cursor locks it on the selected monitor, where there is a way to
/// unlock, such a monitor, and the cursor can be put there.
pub proof fn law_toggle_locks_the_selected_monitor(s: AppView, answer: Answer)
    requires
        !s.locked,
        s.has_unlock_path(),
        s.target() is Some,
        answer.enforced is Ok,
    ensures
        ({
            let t = after(s, Event::Acted(Action::Toggle), answer);
            &&& t.locked
            &&& t.worker == Some(s.target()->0.rect)
            &&& t.settings == s.settings
            &&& t.monitors == s.monitors
        }),
{
}

/// A lock without a way to unlock is refused: the status says so, and nothing else changes
/// or is to be done.
pub proof fn law_refused_lock_changes_the_status_only(s: AppView)
    requires
        !s.locked,
        !s.has_unlock_path(),
    ensures
        happens(s, Event::Acted(Action::Toggle)) == (AppView {
            status: "Cannot lock: set a lock/unlock key or free Ctrl+Alt+Esc."@,
            ..s
        }).unchanged(),
{
}

/// A lock that cannot be engaged leaves the cursor unlocked, with no worker, and says so.
pub proof fn law_failed_lock_leaves_the_cursor_unlocked(s: AppView, answer: Answer)
    requires
        !s.locked,
        s.has_unlock_path(),
        s.target() is None || answer.enforced is Err,
    ensures
        after(s, Event::Acted(Action::Toggle), answer) == (AppView {
            worker: None,
            status: "Could not lock cursor - no monitor is available"@,
            ..s
        }),
{
}

/// Toggling twice leaves the cursor as free as before.
pub proof fn law_toggling_twice_unlocks(s: AppView, first: Answer, second: Answer)
    requires
        !s.locked,
        after(s, Event::Acted(Action::Toggle), first).locked,
    ensures
        ({
            let t = after_all(
                s,
                seq![(Event::Acted(Action::Toggle), first), (Event::Acted(Action::Toggle), second)],
            );
            !t.locked && t.worker is None
        }),
{
    let history = seq![
        (Event::Acted(Action::Toggle), first),
        (Event::Acted(Action::Toggle), second),
    ];
    let front = history.drop_last();
    assert(front.last() == (Event::Acted(Action::Toggle), first));
    assert(front.drop_last() =~= Seq::<(Event, Answer)>::empty());
    assert(after_all(s, front.drop_last()) == s);
    assert(after_all(s, front) == after(s, Event::Acted(Action::Toggle), first));
}

/// The worker that runs once the commands were carried out, where `worker` ran before.
pub open spec fn worker_after(worker: Option<RECT>, commands: Seq<Command>) -> Option<RECT>
    decreases commands.len(),
{
    if commands.len() == 0 {
        worker
    } else {
        match commands.last() {
            Command::StopWorker => None,
            Command::StartWorker(rect) => Some(rect),
            _ => worker_after(worker, commands.drop_last()),
        }
    }
}

/// Whether no command starts a worker while another runs, and none ends one that is not
/// there.
pub open spec fn orderly(worker: Option<RECT>, commands: Seq<Command>) -> bool
    decreases commands.len(),
{
    commands.len() == 0 || {
        let before = worker_after(worker, commands.drop_last());
        &&& orderly(worker, commands.drop_last())
        &&& commands.last() is StartWorker ==> before is None
        &&& commands.last() is StopWorker ==> before is Some
    }
}

proof fn lemma_ending(worker: Option<RECT>)
    ensures
        worker_after(worker, ending(worker)) is None,
        orderly(worker, ending(worker)),
        forall|c: Command| #[trigger]
            ending(worker).push(c).drop_last() == ending(worker) && ending(worker).push(c).last()
                == c,
{
    assert(ending(worker).len() > 0 ==> ending(worker).drop_last() =~= Seq::<Command>::empty());
    assert(orderly(worker, Seq::<Command>::empty()));
    assert(worker_after(worker, Seq::<Command>::empty()) == worker);
    assert forall|c: Command| #[trigger]
        ending(worker).push(c).drop_last() == ending(worker) && ending(worker).push(c).last()
            == c by {
        assert(ending(worker).push(c).drop_last() =~= ending(worker));
    }
}

/// The state always knows which worker runs: it is the one that the commands leave
/// running. There is never more than one.
pub proof fn law_commands_keep_track_of_the_worker(s: AppView, event: Event, answer: Answer)
    ensures
        ({
            let o = happens(s, event);
            &&& worker_after(s.worker, o.commands) == o.state.worker
            &&& orderly(s.worker, o.commands)
        }),
        worker_after(s.worker, s.lock_commands(answer.enforced)) == s.lock_selected_monitor(
            answer.enforced,
        ).worker,
        orderly(s.worker, s.lock_commands(answer.enforced)),
{
    lemma_ending(s.worker);
    assert(s.silencing().len() > 0 ==> s.silencing().drop_last() =~= Seq::<Command>::empty());
    assert(orderly(s.worker, Seq::<Command>::empty()));
    assert(worker_after(s.worker, Seq::<Command>::empty()) == s.worker);
}

/// A thread that listens is stopped exactly where the state says that none listens any more,
/// and another is started only once none does.
pub proof fn law_commands_keep_track_of_listening(s: AppView, event: Event)
    ensures
        ({
            let o = happens(s, event);
            &&& o.commands.contains(Command::StopHotkeys) == (s.hotkeys_running
                && !o.state.hotkeys_running)
            &&& !s.hotkeys_running ==> !o.state.hotkeys_running
            &&& o.reply is Restart ==> !o.state.hotkeys_running
        }),
{
    if s.hotkeys_running {
        assert(s.silencing()[0] == Command::StopHotkeys);
    }
}

/// At the end no worker runs, the cursor is free and nothing listens.
pub proof fn law_closing_frees_the_cursor(s: AppView)
    ensures
        worker_after(s.worker, s.closing_commands()) is None,
        s.closing_commands().contains(Command::ReleaseCursor),
        s.hotkeys_running ==> s.closing_commands().contains(Command::StopHotkeys),
{
    let free = ending(s.worker).push(Command::ReleaseCursor);
    let all = s.closing_commands();
    lemma_ending(s.worker);
    assert(worker_after(s.worker, free) is None);
    assert(all[free.len() - 1] == Command::ReleaseCursor);
    if s.hotkeys_running {
        assert(all.last() == Command::StopHotkeys);
        assert(all.drop_last() =~= free);
        assert(all[all.len() - 1] == Command::StopHotkeys);
    } else {
        assert(all =~= free);
    }
}

/// A bind that stays held acts once: after the look that found it held, a look that finds it
/// held still changes nothing, and one that finds it released only takes note of that.
pub proof fn law_a_held_bind_acts_once(
    s: AppView,
    key_down: bool,
    keys: ModifierKeys,
    answer: Answer,
    later_key_down: bool,
    later_keys: ModifierKeys,
)
    requires
        s.bind_held(key_down, keys),
    ensures
        ({
            let t = after(s, Event::Polled(key_down, keys), answer);
            let o = happens(t, Event::Polled(later_key_down, later_keys));
            &&& t.bind_held(later_key_down, later_keys) ==> o == t.unchanged()
            &&& !t.bind_held(later_key_down, later_keys) ==> o == (AppView {
                toggle_bind_down: false,
                ..t
            }).unchanged()
        }),
{
}

/// Whether each of the events is a look that finds the bind of `s` held.
pub open spec fn all_held(s: AppView, history: Seq<(Event, Answer)>) -> bool {
    forall|i: int|
        0 <= i < history.len() ==> ((#[trigger] history[i]).0 matches Event::Polled(key_down, keys)
            && s.bind_held(key_down, keys))
}

/// However often a bind that stays held is looked at after it acted, nothing changes.
pub proof fn law_a_bind_acts_once_however_long_it_is_held(
    s: AppView,
    key_down: bool,
    keys: ModifierKeys,
    answer: Answer,
    later: Seq<(Event, Answer)>,
)
    requires
        s.bind_held(key_down, keys),
        all_held(s, later),
    ensures
        after_all(after(s, Event::Polled(key_down, keys), answer), later) == after(
            s,
            Event::Polled(key_down, keys),
            answer,
        ),
    decreases later.len(),
{
    if later.len() > 0 {
        let front = later.drop_last();
        assert forall|i: int| 0 <= i < front.len() implies ((#[trigger] front[i]).0 matches
            Event::Polled(d, k) && s.bind_held(d, k)) by {
            assert(front[i] == later[i]);
        }
        law_a_bind_acts_once_however_long_it_is_held(s, key_down, keys, answer, front);
        assert(later.last() == later[later.len() - 1]);
        if let Event::Polled(d, k) = later.last().0 {
            law_a_held_bind_acts_once(s, key_down, keys, answer, d, k);
        }
    }
}

/// A bind that was found released acts when it is found held, outside of a recording.
pub proof fn law_a_released_bind_acts_again(
    s: AppView,
    key_down: bool,
    keys: ModifierKeys,
    later_key_down: bool,
    later_keys: ModifierKeys,
)
    requires
        s.capturing is None,
        !s.bind_held(key_down, keys),
        s.bind_held(later_key_down, later_keys),
    ensures
        ({
            let o = happens(s, Event::Polled(key_down, keys));
            let again = happens(o.state, Event::Polled(later_key_down, later_keys));
            let toggled = o.state.apply_action(Action::Toggle);
            &&& o == (AppView { toggle_bind_down: false, ..s }).unchanged()
            &&& again.state == (AppView { toggle_bind_down: true, ..toggled.state })
            &&& again.commands == toggled.commands
            &&& again.reply == toggled.reply
        }),
{
}

/// A bind that was just recorded and is held at the end of the recording does not act before
/// it is released: a look that finds it held still changes nothing, and one that finds it
/// released only takes note of that.
pub proof fn law_a_new_bind_waits_for_its_release(
    s: AppView,
    hotkey: Hotkey,
    answer: Answer,
    later_key_down: bool,
    later_keys: ModifierKeys,
)
    requires
        s.capturing is Some,
        s.complete_capture(s.capturing->0, hotkey).state.bind_held(answer.key_down, answer.keys),
    ensures
        ({
            let t = settled(s.complete_capture(s.capturing->0, hotkey), answer);
            let o = happens(t, Event::Polled(later_key_down, later_keys));
            &&& t.bind_held(later_key_down, later_keys) ==> o == t.unchanged()
            &&& !t.bind_held(later_key_down, later_keys) ==> o == (AppView {
                toggle_bind_down: false,
                ..t
            }).unchanged()
        }),
{
}

/// The end of a recording toggles nothing by itself: a look at the bind with the same keys
/// changes nothing, held or not.
pub proof fn law_the_end_of_a_recording_toggles_nothing(s: AppView, hotkey: Hotkey, answer: Answer)
    requires
        s.capturing is Some,
    ensures
        ({
            let t = settled(s.complete_capture(s.capturing->0, hotkey), answer);
            happens(t, Event::Polled(answer.key_down, answer.keys)) == t.unchanged()
        }),
{
}

/// While a bind is being recorded no key locks or unlocks.
pub proof fn law_recording_does_not_toggle(s: AppView, key_down: bool, keys: ModifierKeys)
    requires
        s.capturing is Some,
    ensures
        ({
            let o = happens(s, Event::Polled(key_down, keys));
            &&& o.state == (AppView { toggle_bind_down: false, ..s })
            &&& o.commands == Seq::<Command>::empty()
            &&& o.reply == Reply::Nothing
        }),
{
}

/// A change of the settings is saved at the end, and so is every earlier one.
pub proof fn law_changed_settings_are_saved(s: AppView, event: Event, answer: Answer)
    ensures
        ({
            let t = after(s, event, answer);
            &&& s.settings_dirty ==> t.settings_dirty
            &&& t.settings.file_text() != s.settings.file_text() ==> t.settings_dirty
        }),
{
}

/// A thread that listens leaves a way to unlock exactly where it got the reserved hotkey or
/// a bind is set. Where no thread listens there is none.
pub proof fn law_ways_to_unlock(s: AppView, registered: bool)
    ensures
        s.restart_hotkeys(listening(registered)).has_unlock_path() == (registered
            || s.settings.toggle_hotkey is Some),
        !s.restart_hotkeys(not_listening()).has_unlock_path(),
        !s.deaf().has_unlock_path(),
{
    let t = s.restart_hotkeys(listening(registered));
    assert(t.registered_actions[0] == Action::Toggle);
}

/// A change of the work areas alone leaves a lock as it is.
pub proof fn law_work_areas_do_not_move_a_lock(s: AppView, fresh: Seq<MonitorView>)
    requires
        sound(s),
        s.locked,
        s.monitors.len() > 0,
        same_targets(s.monitors, fresh),
    ensures
        ({
            let o = s.check_display_changes(fresh);
            &&& o.commands == Seq::<Command>::empty()
            &&& o.reply == Reply::Nothing
            &&& o.state.locked
            &&& o.state.worker == s.worker
            &&& o.state.settings == s.settings
        }),
{
}

proof fn lemma_mask_normalized(c: bool, a: bool, s: bool, w: bool)
    ensures
        normalized(mask(c, a, s, w)) == mask(c, a, s, w),
{
    assert(normalized(mask(c, a, s, w)) == mask(c, a, s, w)) by (bit_vector);
}

/// A bind that was recorded can be written and read back.
pub proof fn law_recorded_binds_survive(events: Seq<InputEvent>, live: ModifierKeys)
    ensures
        captured(events, live) matches Capture::Bind(h) ==> surviving(Some(h)) == Some(h),
    decreases events.len(),
{
    if events.len() > 0 {
        match events.first() {
            InputEvent::Key(e) => {
                law_bindable_keys_are_nameable(e.key);
                if let Some(Capture::Bind(h)) = reaction(events.first(), live) {
                    let m = e.modifiers;
                    lemma_mask_normalized(
                        live.ctrl || m.ctrl || m.command,
                        live.alt || m.alt,
                        (live.shift || m.shift) && !letter_vk(h.vk),
                        live.left_win || live.right_win,
                    );
                }
            },
            InputEvent::Other => {},
        }
        if reaction(events.first(), live) is None {
            law_recorded_binds_survive(events.drop_first(), live);
        }
    }
}

/// A bind for locking that was recorded is there, without a warning, once the settings were
/// saved and loaded.
pub proof fn law_recorded_bind_is_there_next_time(
    s: AppView,
    events: Seq<InputEvent>,
    live: ModifierKeys,
)
    requires
        s.capturing == Some(Action::Toggle),
        captured(events, live) is Bind,
    ensures
        ({
            let t = s.try_capture_bind(events, live).state;
            let next = loaded(t.settings.file_text());
            &&& next.toggle_hotkey == Some(captured(events, live)->Bind_0)
            &&& next.selected_monitor == s.settings.selected_monitor
            &&& next.load_warnings.len() == 0
        }),
{
    law_recorded_binds_survive(events, live);
    law_settings_read_back(s.try_capture_bind(events, live).state.settings);
}

/// A bind that was recorded while its modifiers were down is held by just those keys.
pub proof fn law_recorded_bind_is_held_by_its_keys(e: KeyEvent, live: ModifierKeys)
    requires
        e.modifiers.ctrl || e.modifiers.command ==> live.ctrl,
        e.modifiers.alt ==> live.alt,
        e.modifiers.shift ==> live.shift,
    ensures
        reaction(InputEvent::Key(e), live) matches Some(Capture::Bind(h)) ==> held(h, true, live),
{
    let (c, a, w) = (live.ctrl, live.alt, live.left_win || live.right_win);
    if let Some(Capture::Bind(h)) = reaction(InputEvent::Key(e), live) {
        let s = live.shift && !letter_vk(h.vk);
        assert({
            &&& has_bit(mask(c, a, s, w), MOD_CONTROL) == c
            &&& has_bit(mask(c, a, s, w), MOD_ALT) == a
            &&& has_bit(mask(c, a, s, w), MOD_SHIFT) == s
            &&& has_bit(mask(c, a, s, w), MOD_WIN) == w
        }) by (bit_vector);
    }
}

/// The selected monitor is the one whose number is selected. A selection is valid where that
/// monitor is there, or is the first of none, and can be measured where its size can.
pub proof fn law_the_selection_is_a_number(s: AppView)
    ensures
        ({
            let i = s.settings.selected_monitor as int;
            &&& i < s.monitors.len() ==> s.target() == Some(s.monitors[i])
            &&& i >= s.monitors.len() ==> s.target() is None
            &&& s.selection_valid() == (i < s.monitors.len() || (i == 0 && s.monitors.len() == 0))
            &&& i < s.monitors.len() ==> s.target_measurable() == s.monitors[i].measurable()
            &&& i >= s.monitors.len() ==> s.target_measurable()
        }),
{
}

/// At the start the cursor is free and nothing is recorded, held or to be saved. The monitors
/// and the settings are those that were found, but for a selection that is none of them.
pub proof fn law_at_the_start(
    settings: SettingsView,
    monitors: Seq<MonitorView>,
    registration: RegistrationView,
)
    ensures
        ({
            let t = initial(settings, monitors, registration);
            &&& !t.locked && t.worker is None && t.capturing is None
            &&& !t.toggle_bind_down && !t.settings_dirty && t.hotkeys_running
            &&& t.monitors == monitors
            &&& t.settings.toggle_hotkey == settings.toggle_hotkey
            &&& t.settings.load_warnings == settings.load_warnings
            &&& settings.selected_monitor < monitors.len() ==> t.settings.selected_monitor
                == settings.selected_monitor
            &&& settings.selected_monitor >= monitors.len() ==> t.settings.selected_monitor == 0
            &&& t.registered_actions == registration.registered_actions
            &&& t.emergency_unlock_registered == registration.emergency_unlock_registered
        }),
{
}

/// The first status tells what could not be listened for, else what could not be read, else
/// that all is well.
pub proof fn law_the_first_status(
    settings: SettingsView,
    monitors: Seq<MonitorView>,
    registration: RegistrationView,
)
    ensures
        ({
            let status = initial(settings, monitors, registration).status;
            &&& registration.failures.len() > 0 ==> status == "Could not register: "@ + joined(
                registration.failures,
                ", "@,
            )
            &&& registration.failures.len() == 0 && settings.load_warnings.len() > 0 ==> status
                == "Ignored invalid settings: "@ + joined(settings.load_warnings, ", "@)
            &&& registration.failures.len() == 0 && settings.load_warnings.len() == 0 ==> status
                == "Ready"@
        }),
{
}

/// What the user reads: how many monitors there are, the selected one, the lock with its number
/// counted from one, and the bind, unless it is being recorded or there is none.
pub proof fn law_what_the_user_reads(s: AppView, action: Action)
    ensures
        ({
            let i = s.settings.selected_monitor as int;
            &&& s.monitors.len() == 1 ==> s.count_text() == "1 monitor found"@
            &&& s.monitors.len() != 1 ==> s.count_text() == decimal(s.monitors.len())
                + " monitors found"@
            &&& i < s.monitors.len() ==> s.target_text() == s.monitors[i].label(i as nat)
            &&& i >= s.monitors.len() ==> s.target_text() == "No monitor"@
            &&& s.locked ==> s.lock_text() == "Locked Monitor "@ + decimal((i + 1) as nat)
            &&& !s.locked ==> s.lock_text() == "Not locked"@
        }),
        s.capturing == Some(action) ==> s.bind_text(action) == "Recording"@,
        s.capturing != Some(action) && s.settings.bind(action) is Some ==> s.bind_text(action)
            == s.settings.bind(action)->0.text(),
        s.capturing != Some(action) && s.settings.bind(action) is None ==> s.bind_text(action)
            == "Set key"@,
{
}

/// The user can unlock by the reserved hotkey, and by a bind that is set and works, and by
/// nothing else.
pub proof fn law_how_the_user_can_unlock(s: AppView)
    ensures
        s.emergency_unlock_registered ==> s.has_unlock_path(),
        s.registered_actions.contains(Action::Unlock) ==> s.has_unlock_path(),
        s.registered_actions.contains(Action::Toggle) && s.settings.toggle_hotkey is Some
            ==> s.has_unlock_path(),
        !s.emergency_unlock_registered && !s.registered_actions.contains(Action::Unlock) && (
        !s.registered_actions.contains(Action::Toggle) || s.settings.toggle_hotkey is None)
            ==> !s.has_unlock_path(),
{
}

/// To unlock ends the worker, where there is one, and frees the cursor; nothing but the lock and
/// the status changes.
pub proof fn law_unlocking_changes_the_lock_only(s: AppView)
    ensures
        ({
            let o = s.set_locked(false);
            &&& o.state == (AppView { locked: false, worker: None, status: "Cursor unlocked"@, ..s })
            &&& s.worker is Some ==> o.commands == seq![Command::StopWorker, Command::ReleaseCursor]
            &&& s.worker is None ==> o.commands == seq![Command::ReleaseCursor]
            &&& o.reply == Reply::Nothing
        }),
        s.apply_action(Action::Unlock) == s.set_locked(false),
        s.locked ==> s.apply_action(Action::Toggle) == s.set_locked(false),
{
    assert(s.set_locked(false).commands =~= if s.worker is Some {
        seq![Command::StopWorker, Command::ReleaseCursor]
    } else {
        seq![Command::ReleaseCursor]
    });
}

/// To lock asks to put the cursor on the selected monitor, and changes nothing before it is
/// known whether it could be put there. Without a way to unlock it is refused.
pub proof fn law_locking_waits_for_the_cursor(s: AppView)
    ensures
        s.has_unlock_path() ==> s.set_locked(true).state == s && s.set_locked(true).reply
            == Reply::Lock(LockPurpose::Engage),
        !s.has_unlock_path() ==> s.set_locked(true).state == (AppView {
            locked: false,
            status: "Cannot lock: set a lock/unlock key or free Ctrl+Alt+Esc."@,
            ..s
        }) && s.set_locked(true).reply == Reply::Nothing,
        s.set_locked(true).commands.len() == 0,
        !s.locked ==> s.apply_action(Action::Toggle) == s.set_locked(true),
{
}

/// Where the cursor could be put on the selected monitor, a worker holds it in the rectangle of
/// that monitor, in place of any earlier one. The status tells the monitor and its size.
pub proof fn law_a_lock_holds_the_cursor_on_its_monitor(s: AppView, purpose: LockPurpose)
    requires
        s.settings.selected_monitor < s.monitors.len(),
    ensures
        ({
            let i = s.settings.selected_monitor as int;
            let m = s.monitors[i];
            let t = s.finish_lock(purpose, Ok(()));
            &&& t.worker == Some(m.rect)
            &&& t.locked == (s.locked || purpose == LockPurpose::Engage)
            &&& t.status == "Locked to "@ + m.label(i as nat) + " ("@ + signed_decimal(
                m.rect.right - m.rect.left,
            ) + "x"@ + signed_decimal(m.rect.bottom - m.rect.top) + ")"@
            &&& t == (AppView { worker: t.worker, locked: t.locked, status: t.status, ..s })
            &&& s.worker is Some ==> s.lock_commands(Ok(())) == seq![
                Command::StopWorker,
                Command::StartWorker(m.rect),
            ]
            &&& s.worker is None ==> s.lock_commands(Ok(())) == seq![Command::StartWorker(m.rect)]
            &&& s.lock_holds(Ok(()))
            &&& s.lock_selected_monitor(Ok(())) == (AppView { locked: s.locked, ..t })
        }),
{
    let m = s.monitors[s.settings.selected_monitor as int];
    assert(s.lock_commands(Ok(())) =~= if s.worker is Some {
        seq![Command::StopWorker, Command::StartWorker(m.rect)]
    } else {
        seq![Command::StartWorker(m.rect)]
    });
}

/// Where it could not be put there, or no monitor is selected, no worker holds it any more. A
/// lock that was to begin does not; one that was there stays on, to be tried again.
pub proof fn law_a_lock_that_does_not_hold(
    s: AppView,
    purpose: LockPurpose,
    enforced: Result<(), u32>,
)
    requires
        enforced is Err || s.settings.selected_monitor >= s.monitors.len(),
    ensures
        ({
            let t = s.finish_lock(purpose, enforced);
            &&& t.worker is None
            &&& t.locked == (s.locked && purpose == LockPurpose::Refresh)
            &&& t == (AppView { worker: None, locked: t.locked, status: t.status, ..s })
            &&& purpose == LockPurpose::Engage ==> t.status
                == "Could not lock cursor - no monitor is available"@
            &&& purpose == LockPurpose::Refresh && s.settings.selected_monitor >= s.monitors.len()
                ==> t.status == s.status
            &&& purpose == LockPurpose::Refresh && s.settings.selected_monitor < s.monitors.len()
                ==> t.status == "ClipCursor failed - Win32 error "@ + decimal(
                enforced->Err_0 as nat,
            )
            &&& s.worker is Some ==> s.lock_commands(enforced) == seq![Command::StopWorker]
            &&& s.worker is None ==> s.lock_commands(enforced).len() == 0
            &&& !s.lock_holds(enforced)
            &&& s.lock_selected_monitor(enforced) == s.finish_lock(LockPurpose::Refresh, enforced)
        }),
{
}

/// Every monitor that is there can be selected. The selection is to be saved, and nothing else
/// changes but the status, which tells it where the cursor is free.
pub proof fn law_every_monitor_can_be_selected(s: AppView, index: usize)
    requires
        index < s.monitors.len(),
    ensures
        ({
            let o = s.set_selected_monitor(index);
            &&& o.state.settings.selected_monitor == index
            &&& o.state.settings == (SettingsView { selected_monitor: index, ..s.settings })
            &&& o.state.settings_dirty
            &&& o.state == (AppView {
                settings: o.state.settings,
                settings_dirty: true,
                status: o.state.status,
                ..s
            })
            &&& s.locked ==> o.state.status == s.status
            &&& !s.locked ==> o.state.status == "Selected "@ + s.monitors[index as int].label(
                index as nat,
            )
            &&& o.commands.len() == 0
        }),
{
}

/// A selection moves a lock to the monitor that was selected, and it stays on. Where the cursor
/// could be put there, it is held in the rectangle of that monitor. A free cursor stays free.
pub proof fn law_a_lock_moves_with_the_selection(s: AppView, index: usize, answer: Answer)
    requires
        index < s.monitors.len(),
    ensures
        ({
            let o = s.set_selected_monitor(index);
            let t = after(s, Event::Selected(index), answer);
            &&& s.locked ==> o.reply == Reply::Lock(LockPurpose::Refresh)
            &&& !s.locked ==> o.reply == Reply::Nothing
            &&& t.locked == s.locked
            &&& t.settings.selected_monitor == index
            &&& t.settings_dirty
            &&& s.locked && answer.enforced is Ok ==> t.worker == Some(
                s.monitors[index as int].rect,
            )
            &&& s.locked && answer.enforced is Err ==> t.worker is None
            &&& !s.locked ==> t.worker == s.worker
        }),
{
}

/// A monitor that is not there cannot be selected.
pub proof fn law_no_other_monitor_can_be_selected(s: AppView, index: usize)
    requires
        index >= s.monitors.len(),
    ensures
        s.set_selected_monitor(index).state == s,
        s.set_selected_monitor(index).commands.len() == 0,
        s.set_selected_monitor(index).reply == Reply::Nothing,
{
}

/// After two selections the second counts, as if there had been no first.
pub proof fn law_the_last_selection_counts(s: AppView, first: usize, second: usize)
    requires
        !s.locked,
        second < s.monitors.len(),
    ensures
        s.set_selected_monitor(first).state.set_selected_monitor(second)
            == s.set_selected_monitor(second),
{
}

/// Where the displays are as they were, nothing happens.
pub proof fn law_unchanged_displays_change_nothing(s: AppView)
    ensures
        s.check_display_changes(s.monitors).state == s,
        s.check_display_changes(s.monitors).commands.len() == 0,
        s.check_display_changes(s.monitors).reply == Reply::Nothing,
{
}

/// The monitors that are there are taken in. A selection that is one of them stays, any other
/// goes back to the first, and such a change is to be saved. Binds and recordings are not
/// touched.
pub proof fn law_displays_are_taken_in(s: AppView, fresh: Seq<MonitorView>)
    requires
        fresh != s.monitors,
    ensures
        ({
            let t = s.check_display_changes(fresh).state;
            &&& t.monitors == fresh
            &&& s.settings.selected_monitor < fresh.len() ==> t.settings == s.settings
                && t.settings_dirty == s.settings_dirty
            &&& s.settings.selected_monitor >= fresh.len() ==> t.settings == (SettingsView {
                selected_monitor: 0,
                ..s.settings
            }) && t.settings_dirty == (s.settings_dirty || s.settings.selected_monitor != 0)
            &&& t == (AppView {
                monitors: fresh,
                settings: t.settings,
                settings_dirty: t.settings_dirty,
                locked: t.locked,
                worker: t.worker,
                status: t.status,
                ..s
            })
        }),
{
}

/// A change of the displays never ends a lock while a monitor is left, and never frees the
/// cursor by itself. It never begins a lock either.
pub proof fn law_a_display_change_keeps_the_lock(
    s: AppView,
    fresh: Seq<MonitorView>,
    answer: Answer,
)
    requires
        fresh.len() > 0,
    ensures
        ({
            let o = s.check_display_changes(fresh);
            &&& o.state.locked == s.locked
            &&& o.state.worker == s.worker
            &&& o.commands.len() == 0
            &&& after(s, Event::Displays(fresh), answer).locked == s.locked
            &&& !s.locked ==> o.reply == Reply::Nothing
            &&& !s.locked && fresh != s.monitors ==> o.state.status == "Display changed - "@
                + o.state.count_text()
        }),
{
}

/// A lock follows its target: where the number of monitors, or the rectangle, the device or the
/// rank of any of them is another, the cursor is to be put on the selected one of those that
/// are there now, and is held in its rectangle once it could be put there.
pub proof fn law_a_lock_follows_its_target(
    s: AppView,
    fresh: Seq<MonitorView>,
    i: int,
    answer: Answer,
)
    requires
        s.locked,
        fresh.len() > 0,
        fresh.len() != s.monitors.len() || (0 <= i < fresh.len() && (fresh[i].rect
            != s.monitors[i].rect || fresh[i].device != s.monitors[i].device || fresh[i].primary
            != s.monitors[i].primary)),
    ensures
        ({
            let o = s.check_display_changes(fresh);
            let t = after(s, Event::Displays(fresh), answer);
            let chosen = if s.settings.selected_monitor < fresh.len() {
                s.settings.selected_monitor as int
            } else {
                0
            };
            &&& o.reply == Reply::Lock(LockPurpose::Refresh)
            &&& o.state.status == "Display changed - lock target refreshed"@
            &&& t.locked
            &&& t.settings.selected_monitor == chosen
            &&& answer.enforced is Ok ==> t.worker == Some(fresh[chosen].rect)
            &&& answer.enforced is Err ==> t.worker is None
        }),
{
    if fresh.len() == s.monitors.len() {
        assert(!s.monitors[i].same_target(fresh[i]));
    }
}

/// Where nothing but work areas changed, the worker of a lock goes on as it is.
pub proof fn law_a_lock_on_the_same_targets_goes_on(
    s: AppView,
    fresh: Seq<MonitorView>,
    answer: Answer,
)
    requires
        s.locked,
        fresh.len() > 0,
        fresh.len() == s.monitors.len(),
        fresh != s.monitors,
        forall|i: int|
            0 <= i < fresh.len() ==> (#[trigger] fresh[i]).rect == s.monitors[i].rect
                && fresh[i].device == s.monitors[i].device && fresh[i].primary
                == s.monitors[i].primary,
    ensures
        ({
            let t = after(s, Event::Displays(fresh), answer);
            &&& s.check_display_changes(fresh).reply == Reply::Nothing
            &&& t.locked && t.worker == s.worker
            &&& t.status == "Display work area changed - lock target unchanged"@
        }),
{
    assert forall|i: int| 0 <= i < s.monitors.len() implies (
    #[trigger] s.monitors[i]).same_target(fresh[i]) by {
        assert(fresh[i].rect == s.monitors[i].rect);
    }
}

/// Where no monitor is left, the cursor is freed and the lock is over.
pub proof fn law_without_a_monitor_there_is_no_lock(s: AppView)
    requires
        s.monitors.len() > 0,
    ensures
        ({
            let o = s.check_display_changes(Seq::empty());
            &&& !o.state.locked && o.state.worker is None
            &&& o.state.status == "Display changed - no monitors detected, cursor unlocked"@
            &&& s.worker is Some ==> o.commands == seq![Command::StopWorker, Command::ReleaseCursor]
            &&& s.worker is None ==> o.commands == seq![Command::ReleaseCursor]
            &&& o.reply == Reply::Nothing
        }),
{
    assert(s.check_display_changes(Seq::empty()).commands =~= if s.worker is Some {
        seq![Command::StopWorker, Command::ReleaseCursor]
    } else {
        seq![Command::ReleaseCursor]
    });
}

/// While a bind is recorded nothing listens and nothing else changes. A lock stays on.
pub proof fn law_recording_stops_listening(s: AppView, action: Action)
    ensures
        ({
            let o = s.start_capture(action);
            &&& o.state.registered_actions.len() == 0
            &&& o.state == (AppView {
                capturing: Some(action),
                status: "Recording "@ + action.text() + " bind"@,
                registered_actions: o.state.registered_actions,
                emergency_unlock_registered: false,
                hotkeys_running: false,
                ..s
            })
            &&& s.hotkeys_running ==> o.commands == seq![Command::StopHotkeys]
            &&& !s.hotkeys_running ==> o.commands.len() == 0
            &&& o.reply == Reply::Nothing
        }),
{
}

/// A canceled recording leaves the binds as they were, and listening starts again.
pub proof fn law_a_canceled_recording_changes_no_bind(s: AppView, answer: Answer)
    ensures
        ({
            let o = s.cancel_capture();
            let t = settled(o, answer);
            &&& o.reply == Reply::Restart(RestartPurpose::Canceled)
            &&& s.hotkeys_running ==> o.commands == seq![Command::StopHotkeys]
            &&& !s.hotkeys_running ==> o.commands.len() == 0
            &&& t == (AppView {
                capturing: None,
                status: "Bind recording canceled"@,
                registered_actions: answer.registration.registered_actions,
                emergency_unlock_registered: answer.registration.emergency_unlock_registered,
                hotkeys_running: true,
                ..s
            })
        }),
{
}

/// A recorded bind is the bind of its action, is to be saved, and ends the recording. The lock
/// and the monitors stay as they are. The status shows the bind.
pub proof fn law_a_recorded_bind_is_set(s: AppView, action: Action, hotkey: Hotkey, answer: Answer)
    ensures
        ({
            let o = s.complete_capture(action, hotkey);
            let t = settled(o, answer);
            &&& o.reply == Reply::Restart(RestartPurpose::Bound(action, hotkey))
            &&& s.hotkeys_running ==> o.commands == seq![Command::StopHotkeys]
            &&& !s.hotkeys_running ==> o.commands.len() == 0
            &&& action == Action::Toggle ==> t.settings.toggle_hotkey == Some(hotkey)
            &&& action == Action::Unlock ==> t.settings.toggle_hotkey == s.settings.toggle_hotkey
            &&& t.settings.selected_monitor == s.settings.selected_monitor
            &&& t.settings.load_warnings == s.settings.load_warnings
            &&& t.toggle_bind_down == (t.settings.toggle_hotkey matches Some(h) && held(
                h,
                answer.key_down,
                answer.keys,
            ))
            &&& t == (AppView {
                settings: t.settings,
                toggle_bind_down: t.toggle_bind_down,
                capturing: None,
                settings_dirty: true,
                status: action.text() + " bind set to "@ + hotkey.text(),
                registered_actions: answer.registration.registered_actions,
                emergency_unlock_registered: answer.registration.emergency_unlock_registered,
                hotkeys_running: true,
                ..s
            })
        }),
{
}

/// What came of starting to listen is taken in, and a failure is told. Nothing else changes.
pub proof fn law_listening_is_taken_in(s: AppView, registration: RegistrationView)
    ensures
        ({
            let t = s.restart_hotkeys(registration);
            &&& registration.failures.len() == 0 ==> t.status == s.status
            &&& registration.failures.len() > 0 ==> t.status == "Could not register: "@ + joined(
                registration.failures,
                ", "@,
            )
            &&& t == (AppView {
                status: t.status,
                hotkeys_running: true,
                registered_actions: registration.registered_actions,
                emergency_unlock_registered: registration.emergency_unlock_registered,
                ..s
            })
        }),
{
}

/// The end of a recording takes in what came of starting to listen. A cancel leaves it open
/// whether the bind is held; a bind takes note of it.
pub proof fn law_the_end_of_a_recording(
    s: AppView,
    action: Action,
    hotkey: Hotkey,
    key_down: bool,
    keys: ModifierKeys,
    registration: RegistrationView,
)
    ensures
        s.finish_restart(RestartPurpose::Canceled, key_down, keys, registration) == (AppView {
            status: "Bind recording canceled"@,
            hotkeys_running: true,
            registered_actions: registration.registered_actions,
            emergency_unlock_registered: registration.emergency_unlock_registered,
            ..s
        }),
        s.finish_restart(RestartPurpose::Bound(action, hotkey), key_down, keys, registration) == (
        AppView {
            status: action.text() + " bind set to "@ + hotkey.text(),
            toggle_bind_down: s.settings.toggle_hotkey matches Some(h) && held(h, key_down, keys),
            hotkeys_running: true,
            registered_actions: registration.registered_actions,
            emergency_unlock_registered: registration.emergency_unlock_registered,
            ..s
        }),
{
}

/// Without a recording input does nothing. With one, the first event that counts cancels it,
/// ends it with a bind, or is told to be of no use; where none counts the recording goes on.
pub proof fn law_input_goes_to_the_recording(
    s: AppView,
    events: Seq<InputEvent>,
    live: ModifierKeys,
)
    ensures
        ({
            let o = s.try_capture_bind(events, live);
            let c = captured(events, live);
            &&& s.capturing is None || c == Capture::Nothing ==> o.state == s && o.commands.len()
                == 0 && o.reply == Reply::Nothing
            &&& s.capturing is Some && c == Capture::Cancel ==> o == s.cancel_capture()
            &&& s.capturing is Some && c == Capture::Unsupported ==> o.state == (AppView {
                status: "Unsupported key for bind"@,
                ..s
            }) && o.commands.len() == 0 && o.reply == Reply::Nothing
            &&& s.capturing is Some && c is Bind ==> o == s.complete_capture(
                s.capturing->0,
                c->Bind_0,
            )
        }),
{
}

/// A look at the bind toggles exactly where it is held now and was not before, and no recording
/// is on. It always takes note of whether the bind is held.
pub proof fn law_a_bind_acts_when_it_is_pressed(s: AppView, key_down: bool, keys: ModifierKeys)
    requires
        s.capturing is None,
    ensures
        ({
            let o = s.poll_toggle_bind(key_down, keys);
            let now = s.settings.toggle_hotkey matches Some(h) && held(h, key_down, keys);
            let toggled = s.apply_action(Action::Toggle);
            &&& o.state.toggle_bind_down == now
            &&& now && !s.toggle_bind_down ==> o.state == (AppView {
                toggle_bind_down: true,
                ..toggled.state
            }) && o.commands == toggled.commands && o.reply == toggled.reply
            &&& !now || s.toggle_bind_down ==> o.state == (AppView { toggle_bind_down: now, ..s })
                && o.commands.len() == 0 && o.reply == Reply::Nothing
        }),
        s.bind_held(key_down, keys) == (s.settings.toggle_hotkey matches Some(h) && held(
            h,
            key_down,
            keys,
        )),
{
}

/// A bind whose key or one of whose modifiers is up never locks or unlocks.
pub proof fn law_a_released_bind_does_not_act(s: AppView, key_down: bool, keys: ModifierKeys)
    requires
        s.settings.toggle_hotkey matches Some(h) ==> {
            ||| !key_down
            ||| h.modifiers & 1u32 != 0 && !keys.alt
            ||| h.modifiers & 2u32 != 0 && !keys.ctrl
            ||| h.modifiers & 8u32 != 0 && !keys.left_win && !keys.right_win
            ||| h.modifiers & 4u32 != 0 && !keys.shift && (h.vk < 65 || h.vk > 90)
        },
    ensures
        ({
            let o = s.poll_toggle_bind(key_down, keys);
            &&& o.state == (AppView { toggle_bind_down: false, ..s })
            &&& o.commands.len() == 0
            &&& o.reply == Reply::Nothing
        }),
{
    if let Some(h) = s.settings.toggle_hotkey {
        law_a_bind_is_not_held_without_its_keys(h, key_down, keys);
    }
}

/// A click on the bind that is being recorded cancels; any other starts a recording.
pub proof fn law_a_click_starts_or_cancels(s: AppView, action: Action)
    ensures
        s.capturing == Some(action) ==> s.click_bind(action) == s.cancel_capture(),
        s.capturing != Some(action) ==> s.click_bind(action) == s.start_capture(action),
{
}

/// A click that starts a recording and one that cancels it leave the binds, the lock and the
/// monitors as they were.
pub proof fn law_two_clicks_record_nothing(s: AppView, action: Action, answer: Answer)
    requires
        s.capturing is None,
    ensures
        ({
            let t = after(s.click_bind(action).state, Event::BindClicked(action), answer);
            &&& t.settings == s.settings && t.monitors == s.monitors
            &&& t.locked == s.locked && t.worker == s.worker
            &&& t.capturing is None && t.settings_dirty == s.settings_dirty
        }),
{
}

/// At the end the worker is ended, where there is one, the cursor is freed and listening is
/// stopped, where something listens, in this order.
pub proof fn law_the_end_in_order(s: AppView)
    ensures
        s.worker is Some && s.hotkeys_running ==> s.closing_commands() == seq![
            Command::StopWorker,
            Command::ReleaseCursor,
            Command::StopHotkeys,
        ],
        s.worker is Some && !s.hotkeys_running ==> s.closing_commands() == seq![
            Command::StopWorker,
            Command::ReleaseCursor,
        ],
        s.worker is None && s.hotkeys_running ==> s.closing_commands() == seq![
            Command::ReleaseCursor,
            Command::StopHotkeys,
        ],
        s.worker is None && !s.hotkeys_running ==> s.closing_commands() == seq![
            Command::ReleaseCursor,
        ],
        s.deaf() == (AppView {
            hotkeys_running: false,
            registered_actions: Seq::empty(),
            emergency_unlock_registered: false,
            ..s
        }),
        s.silencing().len() == (if s.hotkeys_running {
            1nat
        } else {
            0nat
        }),
        forall|i: int|
            0 <= i < s.silencing().len() ==> #[trigger] s.silencing()[i] == Command::StopHotkeys,
{
    if s.worker is Some && s.hotkeys_running {
        assert(s.closing_commands() =~= seq![
            Command::StopWorker,
            Command::ReleaseCursor,
            Command::StopHotkeys,
        ]);
    } else if s.worker is Some {
        assert(s.closing_commands() =~= seq![Command::StopWorker, Command::ReleaseCursor]);
    } else if s.hotkeys_running {
        assert(s.closing_commands() =~= seq![Command::ReleaseCursor, Command::StopHotkeys]);
    } else {
        assert(s.closing_commands() =~= seq![Command::ReleaseCursor]);
    }
}

/// What the state stands for shows all of its parts, and what follows an operation is all of its
/// outcome. The displays are looked at every two seconds.
pub proof fn law_the_state_shows_its_parts(app: ScreenLockerApp, step: Step, o: Outcome)
    ensures
        app@.monitors == monitor_views(app.monitors@),
        app@.settings == app.settings@,
        app@.locked == app.locked,
        app@.capturing == app.capturing,
        app@.status == app.status@,
        app@.registered_actions == app.registered_actions@,
        app@.emergency_unlock_registered == app.emergency_unlock_registered,
        app@.hotkeys_running == app.hotkeys_running,
        app@.worker == app.worker,
        app@.toggle_bind_down == app.toggle_bind_down,
        app@.settings_dirty == app.settings_dirty,
        step.follows(o) ==> step.commands@ == o.commands && step.reply == o.reply,
        DISPLAY_CHECK_INTERVAL == 2000,
{
}

/// What the user reads for an action tells the two apart.
pub proof fn law_labels_of_actions()
    ensures
        Action::Toggle.text() == "Toggle Lock/Unlock"@,
        Action::Unlock.text() == "Unlock"@,
{
}

} // verus!
