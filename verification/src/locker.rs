//! The state of the utility and what each event does to it.
//!
//! An operation changes the state and returns a [`Step`]: the commands to carry out, in
//! order, and what to report back once they are.

use crate::capture::{capture, captured, Capture, InputEvent};
use crate::geometry::RECT;
use crate::hotkey::{held, hotkey_is_down, Action, Hotkey, ModifierKeys};
use crate::monitor::{
    lock_targets_equal, monitor_views, monitors_equal, same_targets, Monitor, MonitorView,
};
use crate::registration::{HotkeyRegistration, RegistrationView};
use crate::settings::{clamp_selected_monitor, Settings, SettingsView};
use crate::text::{
    decimal, joined, push_decimal, push_joined, push_signed_decimal, signed_decimal, string_views,
};
use vstd::prelude::*;

verus! {

/// The time between two looks at the displays during a lock, in milliseconds.
pub const DISPLAY_CHECK_INTERVAL: u64 = 2000;

/// Something to do outside.
#[derive(Clone, Copy, PartialEq, Eq, Structural, Debug)]
pub enum Command {
    /// End the worker that holds the cursor.
    StopWorker,
    /// Start a worker that holds the cursor in the rectangle.
    StartWorker(RECT),
    /// Let the cursor go where it likes.
    ReleaseCursor,
    /// Stop listening for the reserved hotkey.
    StopHotkeys,
}

/// Why the selected monitor is locked.
#[derive(Clone, Copy, PartialEq, Eq, Structural, Debug)]
pub enum LockPurpose {
    /// The cursor was free.
    Engage,
    /// The monitor to hold the cursor on is another one, or has changed.
    Refresh,
}

/// Why listening for the reserved hotkey starts again.
#[derive(Clone, Copy, PartialEq, Eq, Structural, Debug)]
pub enum RestartPurpose {
    Canceled,
    Bound(Action, Hotkey),
}

/// What to report back.
#[derive(Clone, Copy, PartialEq, Eq, Structural, Debug)]
pub enum Reply {
    Nothing,
    /// Put the cursor on the selected monitor, and report with
    /// [`ScreenLockerApp::finish_lock`].
    Lock(LockPurpose),
    /// Start listening for the reserved hotkey, and report with
    /// [`ScreenLockerApp::finish_restart`].
    Restart(RestartPurpose),
}

/// What follows an operation.
pub struct Step {
    pub commands: Vec<Command>,
    pub reply: Reply,
}

/// What is left to do at the end.
pub struct Closing {
    pub commands: Vec<Command>,
    /// The text of the settings file, where it is to be written.
    pub save: Option<String>,
}

/// The state of the utility.
pub struct ScreenLockerApp {
    pub monitors: Vec<Monitor>,
    pub settings: Settings,
    pub locked: bool,
    /// The action whose bind is being recorded.
    pub capturing: Option<Action>,
    pub status: String,
    pub registered_actions: Vec<Action>,
    pub emergency_unlock_registered: bool,
    /// Whether there is a thread that listens for the reserved hotkey.
    pub hotkeys_running: bool,
    /// The rectangle that the running worker holds the cursor in.
    pub worker: Option<RECT>,
    /// Whether the bind was held when it was last looked at.
    pub toggle_bind_down: bool,
    pub settings_dirty: bool,
}

/// What a [`ScreenLockerApp`] stands for.
#[verifier::ext_equal]
pub struct AppView {
    pub monitors: Seq<MonitorView>,
    pub settings: SettingsView,
    pub locked: bool,
    pub capturing: Option<Action>,
    pub status: Seq<char>,
    pub registered_actions: Seq<Action>,
    pub emergency_unlock_registered: bool,
    pub hotkeys_running: bool,
    pub worker: Option<RECT>,
    pub toggle_bind_down: bool,
    pub settings_dirty: bool,
}

/// The state after an operation and what follows.
#[verifier::ext_equal]
pub struct Outcome {
    pub state: AppView,
    pub commands: Seq<Command>,
    pub reply: Reply,
}

impl View for ScreenLockerApp {
    type V = AppView;

    open spec fn view(&self) -> AppView {
        AppView {
            monitors: monitor_views(self.monitors@),
            settings: self.settings@,
            locked: self.locked,
            capturing: self.capturing,
            status: self.status@,
            registered_actions: self.registered_actions@,
            emergency_unlock_registered: self.emergency_unlock_registered,
            hotkeys_running: self.hotkeys_running,
            worker: self.worker,
            toggle_bind_down: self.toggle_bind_down,
            settings_dirty: self.settings_dirty,
        }
    }
}

/// The command that ends the worker, where there is one.
pub open spec fn ending(worker: Option<RECT>) -> Seq<Command> {
    if worker is Some {
        seq![Command::StopWorker]
    } else {
        Seq::empty()
    }
}

/// The state at the start, with the settings and the monitors that were found and what
/// came of starting to listen.
pub open spec fn initial(
    settings: SettingsView,
    monitors: Seq<MonitorView>,
    registration: RegistrationView,
) -> AppView {
    AppView {
        monitors,
        settings: settings.clamped(monitors.len() as int),
        locked: false,
        capturing: None,
        status: if registration.failures.len() > 0 {
            "Could not register: "@ + joined(registration.failures, ", "@)
        } else if settings.load_warnings.len() > 0 {
            "Ignored invalid settings: "@ + joined(settings.load_warnings, ", "@)
        } else {
            "Ready"@
        },
        registered_actions: registration.registered_actions,
        emergency_unlock_registered: registration.emergency_unlock_registered,
        hotkeys_running: true,
        worker: None,
        toggle_bind_down: false,
        settings_dirty: false,
    }
}

impl AppView {
    /// Nothing changes and nothing is to be done.
    pub open spec fn unchanged(self) -> Outcome {
        Outcome { state: self, commands: Seq::empty(), reply: Reply::Nothing }
    }

    /// The selected monitor.
    pub open spec fn target(self) -> Option<MonitorView> {
        if self.settings.selected_monitor < self.monitors.len() {
            Some(self.monitors[self.settings.selected_monitor as int])
        } else {
            None
        }
    }

    /// Whether the selection is one of the monitors; where there are none, the first.
    pub open spec fn selection_valid(self) -> bool {
        self.settings.selected_monitor < self.monitors.len() || (self.monitors.len() == 0
            && self.settings.selected_monitor == 0)
    }

    /// Whether the width and the height of the selected monitor can be computed.
    pub open spec fn target_measurable(self) -> bool {
        self.target() matches Some(m) ==> m.measurable()
    }

    /// What the user reads for the number of monitors.
    pub open spec fn count_text(self) -> Seq<char> {
        if self.monitors.len() == 1 {
            "1 monitor found"@
        } else {
            decimal(self.monitors.len()) + " monitors found"@
        }
    }

    /// What the user reads for the selected monitor.
    pub open spec fn target_text(self) -> Seq<char> {
        match self.target() {
            Some(m) => m.label(self.settings.selected_monitor as nat),
            None => "No monitor"@,
        }
    }

    /// What the user reads for the lock.
    pub open spec fn lock_text(self) -> Seq<char> {
        if self.locked {
            "Locked Monitor "@ + decimal((self.settings.selected_monitor + 1) as nat)
        } else {
            "Not locked"@
        }
    }

    /// What the user reads for the bind of `action`.
    pub open spec fn bind_text(self, action: Action) -> Seq<char> {
        if self.capturing == Some(action) {
            "Recording"@
        } else {
            match self.settings.bind(action) {
                Some(h) => h.text(),
                None => "Set key"@,
            }
        }
    }

    /// Whether the user can unlock: by the reserved hotkey or by a bind.
    pub open spec fn has_unlock_path(self) -> bool {
        ||| self.emergency_unlock_registered
        ||| self.registered_actions.contains(Action::Toggle) && self.settings.bind(
            Action::Toggle,
        ) is Some
        ||| self.registered_actions.contains(Action::Unlock)
    }

    /// The state where the cursor is free, for the reason that `status` tells.
    pub open spec fn released(self, status: Seq<char>) -> Outcome {
        Outcome {
            state: AppView { worker: None, locked: false, status, ..self },
            commands: ending(self.worker).push(Command::ReleaseCursor),
            reply: Reply::Nothing,
        }
    }

    /// Locks or unlocks. There is no lock without a way to unlock.
    pub open spec fn set_locked(self, locked: bool) -> Outcome {
        if !locked {
            self.released("Cursor unlocked"@)
        } else if !self.has_unlock_path() {
            Outcome {
                state: AppView {
                    locked: false,
                    status: "Cannot lock: set a lock/unlock key or free Ctrl+Alt+Esc."@,
                    ..self
                },
                commands: Seq::empty(),
                reply: Reply::Nothing,
            }
        } else {
            Outcome {
                state: self,
                commands: Seq::empty(),
                reply: Reply::Lock(LockPurpose::Engage),
            }
        }
    }

    /// Whether a lock of the selected monitor holds, where `enforced` says whether the
    /// cursor could be put there.
    pub open spec fn lock_holds(self, enforced: Result<(), u32>) -> bool {
        self.target() is Some && enforced is Ok
    }

    /// The state once the cursor was to be put on the selected monitor.
    pub open spec fn lock_selected_monitor(self, enforced: Result<(), u32>) -> AppView {
        match self.target() {
            Some(m) => match enforced {
                Ok(()) => AppView {
                    worker: Some(m.rect),
                    status: "Locked to "@ + m.label(self.settings.selected_monitor as nat) + " ("@
                        + signed_decimal(m.width()) + "x"@ + signed_decimal(m.height()) + ")"@,
                    ..self
                },
                Err(error) => AppView {
                    worker: None,
                    status: "ClipCursor failed - Win32 error "@ + decimal(error as nat),
                    ..self
                },
            },
            None => AppView { worker: None, ..self },
        }
    }

    /// The commands once the cursor was to be put on the selected monitor: any earlier
    /// worker ends, and where the lock holds a new one starts.
    pub open spec fn lock_commands(self, enforced: Result<(), u32>) -> Seq<Command> {
        if self.lock_holds(enforced) {
            ending(self.worker).push(Command::StartWorker(self.target()->0.rect))
        } else {
            ending(self.worker)
        }
    }

    /// The state once a lock was tried. A lock that was to be engaged and does not hold
    /// leaves the cursor unlocked; one that was to be refreshed leaves the rest as it was.
    pub open spec fn finish_lock(self, purpose: LockPurpose, enforced: Result<(), u32>) -> AppView {
        let tried = self.lock_selected_monitor(enforced);
        match purpose {
            LockPurpose::Engage => if self.lock_holds(enforced) {
                AppView { locked: true, ..tried }
            } else {
                AppView {
                    locked: false,
                    status: "Could not lock cursor - no monitor is available"@,
                    ..tried
                }
            },
            LockPurpose::Refresh => tried,
        }
    }

    /// Selects the monitor `index`, where there is one. A lock goes along.
    pub open spec fn set_selected_monitor(self, index: usize) -> Outcome {
        let moved = AppView {
            settings: SettingsView { selected_monitor: index, ..self.settings },
            settings_dirty: true,
            ..self
        };
        if index >= self.monitors.len() {
            self.unchanged()
        } else if self.locked {
            Outcome {
                state: moved,
                commands: Seq::empty(),
                reply: Reply::Lock(LockPurpose::Refresh),
            }
        } else {
            AppView { status: "Selected "@ + moved.target_text(), ..moved }.unchanged()
        }
    }

    /// Takes in the monitors that are there now. A selection that is gone moves to the
    /// first, a lock follows its target, and without a monitor there is no lock.
    pub open spec fn check_display_changes(self, fresh: Seq<MonitorView>) -> Outcome {
        let settings = self.settings.clamped(fresh.len() as int);
        let s = AppView {
            monitors: fresh,
            settings,
            settings_dirty: self.settings_dirty || settings.selected_monitor
                != self.settings.selected_monitor,
            ..self
        };
        if fresh == self.monitors {
            self.unchanged()
        } else if fresh.len() == 0 {
            s.released("Display changed - no monitors detected, cursor unlocked"@)
        } else if self.locked && !same_targets(self.monitors, fresh) {
            Outcome {
                state: AppView { status: "Display changed - lock target refreshed"@, ..s },
                commands: Seq::empty(),
                reply: Reply::Lock(LockPurpose::Refresh),
            }
        } else if self.locked {
            AppView {
                status: "Display work area changed - lock target unchanged"@,
                ..s
            }.unchanged()
        } else {
            AppView { status: "Display changed - "@ + s.count_text(), ..s }.unchanged()
        }
    }

    pub open spec fn apply_action(self, action: Action) -> Outcome {
        match action {
            Action::Toggle => self.set_locked(!self.locked),
            Action::Unlock => self.set_locked(false),
        }
    }

    /// The state without a thread that listens.
    pub open spec fn deaf(self) -> AppView {
        AppView {
            hotkeys_running: false,
            registered_actions: Seq::empty(),
            emergency_unlock_registered: false,
            ..self
        }
    }

    /// The command that stops listening, where a thread listens.
    pub open spec fn silencing(self) -> Seq<Command> {
        if self.hotkeys_running {
            seq![Command::StopHotkeys]
        } else {
            Seq::empty()
        }
    }

    /// Starts to record the bind of `action`. Nothing listens meanwhile.
    pub open spec fn start_capture(self, action: Action) -> Outcome {
        Outcome {
            state: AppView {
                capturing: Some(action),
                status: "Recording "@ + action.text() + " bind"@,
                ..self.deaf()
            },
            commands: self.silencing(),
            reply: Reply::Nothing,
        }
    }

    /// Ends a recording without a bind.
    pub open spec fn cancel_capture(self) -> Outcome {
        Outcome {
            state: AppView { capturing: None, ..self.deaf() },
            commands: self.silencing(),
            reply: Reply::Restart(RestartPurpose::Canceled),
        }
    }

    /// Ends a recording with a bind.
    pub open spec fn complete_capture(self, action: Action, hotkey: Hotkey) -> Outcome {
        Outcome {
            state: AppView {
                settings: self.settings.with_bind(action, hotkey),
                capturing: None,
                settings_dirty: true,
                ..self.deaf()
            },
            commands: self.silencing(),
            reply: Reply::Restart(RestartPurpose::Bound(action, hotkey)),
        }
    }

    /// What the input events of a frame do to a recording.
    pub open spec fn try_capture_bind(
        self,
        events: Seq<InputEvent>,
        live: ModifierKeys,
    ) -> Outcome {
        match self.capturing {
            None => self.unchanged(),
            Some(action) => match captured(events, live) {
                Capture::Nothing => self.unchanged(),
                Capture::Cancel => self.cancel_capture(),
                Capture::Unsupported => AppView {
                    status: "Unsupported key for bind"@,
                    ..self
                }.unchanged(),
                Capture::Bind(hotkey) => self.complete_capture(action, hotkey),
            },
        }
    }

    /// The state once listening was started again.
    pub open spec fn restart_hotkeys(self, registration: RegistrationView) -> AppView {
        AppView {
            status: if registration.failures.len() > 0 {
                "Could not register: "@ + joined(registration.failures, ", "@)
            } else {
                self.status
            },
            hotkeys_running: true,
            registered_actions: registration.registered_actions,
            emergency_unlock_registered: registration.emergency_unlock_registered,
            ..self
        }
    }

    /// Whether the bind is held, where `key_down` says whether its key is down.
    pub open spec fn bind_held(self, key_down: bool, keys: ModifierKeys) -> bool {
        match self.settings.bind(Action::Toggle) {
            Some(h) => held(h, key_down, keys),
            None => false,
        }
    }

    /// The state once a recording is over and something listens again. A new bind that is
    /// still held does not count as pressed.
    pub open spec fn finish_restart(
        self,
        purpose: RestartPurpose,
        key_down: bool,
        keys: ModifierKeys,
        registration: RegistrationView,
    ) -> AppView {
        let s = self.restart_hotkeys(registration);
        match purpose {
            RestartPurpose::Canceled => AppView { status: "Bind recording canceled"@, ..s },
            RestartPurpose::Bound(action, hotkey) => AppView {
                toggle_bind_down: self.bind_held(key_down, keys),
                status: action.text() + " bind set to "@ + hotkey.text(),
                ..s
            },
        }
    }

    /// Looks at the bind. It acts at the moment it is pressed, and not while a bind is
    /// being recorded.
    pub open spec fn poll_toggle_bind(self, key_down: bool, keys: ModifierKeys) -> Outcome {
        if self.capturing is Some {
            AppView { toggle_bind_down: false, ..self }.unchanged()
        } else {
            let down = self.bind_held(key_down, keys);
            let o = if down && !self.toggle_bind_down {
                self.apply_action(Action::Toggle)
            } else {
                self.unchanged()
            };
            Outcome { state: AppView { toggle_bind_down: down, ..o.state }, ..o }
        }
    }

    /// A click on the bind of `action` starts its recording, or cancels it.
    pub open spec fn click_bind(self, action: Action) -> Outcome {
        if self.capturing == Some(action) {
            self.cancel_capture()
        } else {
            self.start_capture(action)
        }
    }

    /// The commands at the end: the cursor is free and nothing listens.
    pub open spec fn closing_commands(self) -> Seq<Command> {
        ending(self.worker).push(Command::ReleaseCursor) + self.silencing()
    }
}

fn holds(actions: &Vec<Action>, action: Action) -> (b: bool)
    ensures
        b == actions@.contains(action),
{
    let mut i: usize = 0;
    while i < actions.len()
        invariant
            i <= actions@.len(),
            forall|j: int| 0 <= j < i ==> actions@[j] != action,
        decreases actions@.len() - i,
    {
        if actions[i] == action {
            assert(actions@[i as int] == action);
            return true;
        }
        i += 1;
    }
    false
}

fn failure_text(failures: &Vec<String>) -> (s: String)
    ensures
        s@ == "Could not register: "@ + joined(string_views(failures@), ", "@),
{
    let mut s: String = "Could not register: ".to_string();
    push_joined(&mut s, failures, ", ");
    s
}

impl Step {
    /// What follows, as part of an outcome.
    pub open spec fn follows(self, o: Outcome) -> bool {
        self.commands@ == o.commands && self.reply == o.reply
    }

    fn nothing() -> (step: Step)
        ensures
            step.commands@ == Seq::<Command>::empty(),
            step.reply == Reply::Nothing,
    {
        Step { commands: Vec::new(), reply: Reply::Nothing }
    }

    fn lock(purpose: LockPurpose) -> (step: Step)
        ensures
            step.commands@ == Seq::<Command>::empty(),
            step.reply == Reply::Lock(purpose),
    {
        Step { commands: Vec::new(), reply: Reply::Lock(purpose) }
    }
}

impl ScreenLockerApp {
    /// The state at the start. `settings` are those of the settings file, `monitors` those
    /// that the system reports, and `registration` is what came of starting to listen.
    pub fn new(
        settings: Settings,
        monitors: Vec<Monitor>,
        registration: HotkeyRegistration,
    ) -> (app: Self)
        ensures
            app@ == initial(settings@, monitor_views(monitors@), registration@),
    {
        let mut settings: Settings = settings;
        clamp_selected_monitor(&mut settings, monitors.len());
        let status: String = if registration.failures.len() > 0 {
            failure_text(&registration.failures)
        } else if settings.load_warnings.len() > 0 {
            let mut s: String = "Ignored invalid settings: ".to_string();
            push_joined(&mut s, &settings.load_warnings, ", ");
            s
        } else {
            "Ready".to_string()
        };
        ScreenLockerApp {
            monitors,
            settings,
            locked: false,
            capturing: None,
            status,
            registered_actions: registration.registered_actions,
            emergency_unlock_registered: registration.emergency_unlock_registered,
            hotkeys_running: true,
            worker: None,
            toggle_bind_down: false,
            settings_dirty: false,
        }
    }

    pub fn monitor_count_label(&self) -> (s: String)
        ensures
            s@ == self@.count_text(),
    {
        if self.monitors.len() == 1 {
            return "1 monitor found".to_string();
        }
        let mut s: String = String::new();
        push_decimal(&mut s, self.monitors.len() as u64);
        s.append(" monitors found");
        assert(s@ =~= self@.count_text());
        s
    }

    pub fn selected_monitor_label(&self) -> (s: String)
        ensures
            s@ == self@.target_text(),
    {
        let index: usize = self.settings.selected_monitor;
        if index < self.monitors.len() {
            self.monitors[index].short_label(index)
        } else {
            "No monitor".to_string()
        }
    }

    /// What the user reads for the lock.
    pub fn lock_label(&self) -> (s: String)
        requires
            self.locked ==> self.settings.selected_monitor < usize::MAX,
        ensures
            s@ == self@.lock_text(),
    {
        if !self.locked {
            return "Not locked".to_string();
        }
        let mut s: String = "Locked Monitor ".to_string();
        push_decimal(&mut s, (self.settings.selected_monitor + 1) as u64);
        s
    }

    pub fn is_recording(&self, action: Action) -> (b: bool)
        ensures
            b == (self@.capturing == Some(action)),
    {
        match self.capturing {
            Some(a) => a == action,
            None => false,
        }
    }

    /// What the user reads for the bind of `action`.
    pub fn bind_label(&self, action: Action) -> (s: String)
        ensures
            s@ == self@.bind_text(action),
    {
        if self.is_recording(action) {
            return "Recording".to_string();
        }
        match self.settings.hotkey(action) {
            Some(hotkey) => hotkey.display(),
            None => "Set key".to_string(),
        }
    }

    /// Whether the user can unlock.
    pub fn has_unlock_path(&self) -> (b: bool)
        ensures
            b == self@.has_unlock_path(),
    {
        self.emergency_unlock_registered || (holds(&self.registered_actions, Action::Toggle)
            && self.settings.hotkey(Action::Toggle).is_some()) || holds(
            &self.registered_actions,
            Action::Unlock,
        )
    }

    /// The rectangle of the selected monitor.
    pub fn lock_target(&self) -> (r: Option<RECT>)
        ensures
            r == (match self@.target() {
                Some(m) => Some(m.rect),
                None => None,
            }),
    {
        let index: usize = self.settings.selected_monitor;
        if index < self.monitors.len() {
            Some(self.monitors[index].rect)
        } else {
            None
        }
    }

    /// Whether the width and the height of the selected monitor can be computed.
    pub fn is_target_measurable(&self) -> (b: bool)
        ensures
            b == self@.target_measurable(),
    {
        let index: usize = self.settings.selected_monitor;
        index >= self.monitors.len() || self.monitors[index].is_measurable()
    }

    fn stop_lock_worker(&mut self) -> (commands: Vec<Command>)
        ensures
            final(self)@ == (AppView { worker: None, ..old(self)@ }),
            commands@ == ending(old(self)@.worker),
    {
        let mut commands: Vec<Command> = Vec::new();
        if self.worker.is_some() {
            commands.push(Command::StopWorker);
        }
        self.worker = None;
        assert(commands@ =~= ending(old(self)@.worker));
        commands
    }

    fn release(&mut self, status: &str) -> (step: Step)
        ensures
            final(self)@ == old(self)@.released(status@).state,
            step.follows(old(self)@.released(status@)),
    {
        let mut commands: Vec<Command> = self.stop_lock_worker();
        commands.push(Command::ReleaseCursor);
        self.locked = false;
        self.status = status.to_string();
        Step { commands, reply: Reply::Nothing }
    }

    /// Locks or unlocks.
    pub fn set_locked(&mut self, locked: bool) -> (step: Step)
        ensures
            final(self)@ == old(self)@.set_locked(locked).state,
            step.follows(old(self)@.set_locked(locked)),
    {
        if !locked {
            return self.release("Cursor unlocked");
        }
        if !self.has_unlock_path() {
            self.locked = false;
            self.status = "Cannot lock: set a lock/unlock key or free Ctrl+Alt+Esc.".to_string();
            return Step::nothing();
        }
        Step::lock(LockPurpose::Engage)
    }

    /// Takes in whether the cursor could be put on the selected monitor. `enforced` does
    /// not matter where no monitor is selected. Returns whether the lock holds, and the
    /// commands that follow.
    pub fn lock_selected_monitor(&mut self, enforced: Result<(), u32>) -> (r: (bool, Vec<Command>))
        requires
            old(self)@.target_measurable(),
        ensures
            final(self)@ == old(self)@.lock_selected_monitor(enforced),
            r.0 == old(self)@.lock_holds(enforced),
            r.1@ == old(self)@.lock_commands(enforced),
    {
        let index: usize = self.settings.selected_monitor;
        if index >= self.monitors.len() {
            return (false, self.stop_lock_worker());
        }
        let monitor: &Monitor = &self.monitors[index];
        assert(self@.monitors[index as int] == monitor@);
        let rect: RECT = monitor.rect;
        let label: String = monitor.short_label(index);
        let width: i32 = monitor.width();
        let height: i32 = monitor.height();
        let mut commands: Vec<Command> = self.stop_lock_worker();
        match enforced {
            Ok(()) => {
                commands.push(Command::StartWorker(rect));
                self.worker = Some(rect);
                let mut status: String = "Locked to ".to_string();
                status.append(label.as_str());
                status.append(" (");
                push_signed_decimal(&mut status, width);
                status.append("x");
                push_signed_decimal(&mut status, height);
                status.append(")");
                self.status = status;
                (true, commands)
            },
            Err(error) => {
                let mut status: String = "ClipCursor failed - Win32 error ".to_string();
                push_decimal(&mut status, error as u64);
                self.status = status;
                (false, commands)
            },
        }
    }

    /// Ends what [`Reply::Lock`] asked for.
    pub fn finish_lock(&mut self, purpose: LockPurpose, enforced: Result<(), u32>) -> (commands:
        Vec<Command>)
        requires
            old(self)@.target_measurable(),
        ensures
            final(self)@ == old(self)@.finish_lock(purpose, enforced),
            commands@ == old(self)@.lock_commands(enforced),
    {
        let (holds_now, commands) = self.lock_selected_monitor(enforced);
        match purpose {
            LockPurpose::Engage => {
                self.locked = holds_now;
                if !holds_now {
                    self.status = "Could not lock cursor - no monitor is available".to_string();
                }
            },
            LockPurpose::Refresh => {},
        }
        commands
    }

    /// Selects the monitor `index`, where there is one.
    pub fn set_selected_monitor(&mut self, index: usize) -> (step: Step)
        ensures
            final(self)@ == old(self)@.set_selected_monitor(index).state,
            step.follows(old(self)@.set_selected_monitor(index)),
    {
        if index >= self.monitors.len() {
            return Step::nothing();
        }
        self.settings.selected_monitor = index;
        self.settings_dirty = true;
        if self.locked {
            return Step::lock(LockPurpose::Refresh);
        }
        let mut status: String = "Selected ".to_string();
        status.append(self.selected_monitor_label().as_str());
        self.status = status;
        Step::nothing()
    }

    /// Whether it is time to look at the displays, `elapsed` milliseconds after the last
    /// look. Only a lock depends on them.
    pub fn display_check_due(&self, elapsed: u64) -> (b: bool)
        ensures
            b == (self.locked && elapsed >= DISPLAY_CHECK_INTERVAL),
    {
        self.locked && elapsed >= DISPLAY_CHECK_INTERVAL
    }

    /// Takes in the monitors that are there now.
    pub fn check_display_changes(&mut self, fresh: Vec<Monitor>) -> (step: Step)
        ensures
            final(self)@ == old(self)@.check_display_changes(monitor_views(fresh@)).state,
            step.follows(old(self)@.check_display_changes(monitor_views(fresh@))),
    {
        if monitors_equal(self.monitors.as_slice(), fresh.as_slice()) {
            return Step::nothing();
        }
        let lock_target_changed: bool = !lock_targets_equal(
            self.monitors.as_slice(),
            fresh.as_slice(),
        );
        self.monitors = fresh;
        let previous_selected: usize = self.settings.selected_monitor;
        clamp_selected_monitor(&mut self.settings, self.monitors.len());
        if self.settings.selected_monitor != previous_selected {
            self.settings_dirty = true;
        }
        if self.monitors.len() == 0 {
            return self.release("Display changed - no monitors detected, cursor unlocked");
        }
        if self.locked && lock_target_changed {
            self.status = "Display changed - lock target refreshed".to_string();
            return Step::lock(LockPurpose::Refresh);
        }
        if self.locked {
            self.status = "Display work area changed - lock target unchanged".to_string();
        } else {
            let mut status: String = "Display changed - ".to_string();
            status.append(self.monitor_count_label().as_str());
            self.status = status;
        }
        Step::nothing()
    }

    pub fn apply_action(&mut self, action: Action) -> (step: Step)
        ensures
            final(self)@ == old(self)@.apply_action(action).state,
            step.follows(old(self)@.apply_action(action)),
    {
        match action {
            Action::Toggle => self.set_locked(!self.locked),
            Action::Unlock => self.set_locked(false),
        }
    }

    /// Stops listening for the reserved hotkey.
    pub fn stop_hotkeys(&mut self) -> (commands: Vec<Command>)
        ensures
            final(self)@ == old(self)@.deaf(),
            commands@ == old(self)@.silencing(),
    {
        let mut commands: Vec<Command> = Vec::new();
        if self.hotkeys_running {
            commands.push(Command::StopHotkeys);
        }
        self.hotkeys_running = false;
        self.registered_actions.clear();
        self.emergency_unlock_registered = false;
        assert(commands@ =~= old(self)@.silencing());
        assert(self@ =~= old(self)@.deaf());
        commands
    }

    /// Starts to record the bind of `action`.
    pub fn start_capture(&mut self, action: Action) -> (step: Step)
        ensures
            final(self)@ == old(self)@.start_capture(action).state,
            step.follows(old(self)@.start_capture(action)),
    {
        let commands: Vec<Command> = self.stop_hotkeys();
        self.capturing = Some(action);
        let mut status: String = "Recording ".to_string();
        status.append(action.label());
        status.append(" bind");
        self.status = status;
        Step { commands, reply: Reply::Nothing }
    }

    /// Ends a recording without a bind.
    pub fn cancel_capture(&mut self) -> (step: Step)
        ensures
            final(self)@ == old(self)@.cancel_capture().state,
            step.follows(old(self)@.cancel_capture()),
    {
        self.capturing = None;
        let commands: Vec<Command> = self.stop_hotkeys();
        Step { commands, reply: Reply::Restart(RestartPurpose::Canceled) }
    }

    /// Ends a recording with a bind.
    pub fn complete_capture(&mut self, action: Action, hotkey: Hotkey) -> (step: Step)
        ensures
            final(self)@ == old(self)@.complete_capture(action, hotkey).state,
            step.follows(old(self)@.complete_capture(action, hotkey)),
    {
        self.settings.set_hotkey(action, hotkey);
        self.capturing = None;
        self.settings_dirty = true;
        let commands: Vec<Command> = self.stop_hotkeys();
        Step { commands, reply: Reply::Restart(RestartPurpose::Bound(action, hotkey)) }
    }

    /// Hands the input events of a frame to a recording, where one is on. `live` are the
    /// modifier keys that are down.
    pub fn try_capture_bind(&mut self, events: &[InputEvent], live: ModifierKeys) -> (step: Step)
        ensures
            final(self)@ == old(self)@.try_capture_bind(events@, live).state,
            step.follows(old(self)@.try_capture_bind(events@, live)),
    {
        let action: Action = match self.capturing {
            Some(action) => action,
            None => return Step::nothing(),
        };
        match capture(events, live) {
            Capture::Nothing => Step::nothing(),
            Capture::Cancel => self.cancel_capture(),
            Capture::Unsupported => {
                self.status = "Unsupported key for bind".to_string();
                Step::nothing()
            },
            Capture::Bind(hotkey) => self.complete_capture(action, hotkey),
        }
    }

    /// Takes in what came of starting to listen again.
    pub fn restart_hotkeys(&mut self, registration: HotkeyRegistration)
        ensures
            final(self)@ == old(self)@.restart_hotkeys(registration@),
    {
        if registration.failures.len() > 0 {
            self.status = failure_text(&registration.failures);
        }
        self.hotkeys_running = true;
        self.registered_actions = registration.registered_actions;
        self.emergency_unlock_registered = registration.emergency_unlock_registered;
    }

    fn is_bind_held(&self, key_down: bool, keys: ModifierKeys) -> (b: bool)
        ensures
            b == self@.bind_held(key_down, keys),
    {
        match self.settings.hotkey(Action::Toggle) {
            Some(hotkey) => hotkey_is_down(hotkey, key_down, keys),
            None => false,
        }
    }

    /// Ends what [`Reply::Restart`] asked for. `key_down` says whether the key of the bind
    /// is down, and `keys` which modifier keys are.
    pub fn finish_restart(
        &mut self,
        purpose: RestartPurpose,
        key_down: bool,
        keys: ModifierKeys,
        registration: HotkeyRegistration,
    )
        ensures
            final(self)@ == old(self)@.finish_restart(purpose, key_down, keys, registration@),
    {
        self.restart_hotkeys(registration);
        match purpose {
            RestartPurpose::Canceled => {
                self.status = "Bind recording canceled".to_string();
            },
            RestartPurpose::Bound(action, hotkey) => {
                self.toggle_bind_down = self.is_bind_held(key_down, keys);
                let mut status: String = action.label().to_string();
                status.append(" bind set to ");
                status.append(hotkey.display().as_str());
                self.status = status;
            },
        }
    }

    /// Looks at the bind. `key_down` says whether its key is down, and `keys` which modifier
    /// keys are.
    pub fn poll_toggle_bind(&mut self, key_down: bool, keys: ModifierKeys) -> (step: Step)
        ensures
            final(self)@ == old(self)@.poll_toggle_bind(key_down, keys).state,
            step.follows(old(self)@.poll_toggle_bind(key_down, keys)),
    {
        if self.capturing.is_some() {
            self.toggle_bind_down = false;
            return Step::nothing();
        }
        let down: bool = self.is_bind_held(key_down, keys);
        let step: Step = if down && !self.toggle_bind_down {
            self.apply_action(Action::Toggle)
        } else {
            Step::nothing()
        };
        self.toggle_bind_down = down;
        step
    }

    /// Takes in a click on the bind of `action`.
    pub fn click_bind(&mut self, action: Action) -> (step: Step)
        ensures
            final(self)@ == old(self)@.click_bind(action).state,
            step.follows(old(self)@.click_bind(action)),
    {
        if self.is_recording(action) {
            self.cancel_capture()
        } else {
            self.start_capture(action)
        }
    }

    /// Ends everything. The settings are to be saved where they changed.
    pub fn close(&mut self) -> (closing: Closing)
        ensures
            final(self)@ == (AppView { worker: None, ..old(self)@.deaf() }),
            closing.commands@ == old(self)@.closing_commands(),
            closing.save is Some == old(self)@.settings_dirty,
            closing.save matches Some(text) ==> text@ == old(self)@.settings.file_text(),
    {
        let mut commands: Vec<Command> = self.stop_lock_worker();
        commands.push(Command::ReleaseCursor);
        let mut last: Vec<Command> = self.stop_hotkeys();
        commands.append(&mut last);
        let save: Option<String> = if self.settings_dirty {
            Some(self.settings.save())
        } else {
            None
        };
        Closing { commands, save }
    }
}

} // verus!
