//! The thread that listens for the reserved hotkey.

use crate::hotkey::{Action, MOD_ALT, MOD_CONTROL, MOD_NOREPEAT};
use crate::text::string_views;
use vstd::prelude::*;

verus! {

pub const WM_QUIT: u32 = 0x0012;

pub const WM_HOTKEY: u32 = 0x0312;

/// The identifier of the reserved hotkey.
pub const HOTKEY_EMERGENCY_UNLOCK: i32 = 99;

/// The modifiers of the reserved hotkey. It fires once while it is held.
pub const EMERGENCY_MODIFIERS: u32 = MOD_CONTROL | MOD_ALT | MOD_NOREPEAT;

/// What came of starting to listen.
pub struct HotkeyRegistration {
    pub failures: Vec<String>,
    pub registered_actions: Vec<Action>,
    pub emergency_unlock_registered: bool,
}

/// What a [`HotkeyRegistration`] stands for.
#[verifier::ext_equal]
pub struct RegistrationView {
    pub failures: Seq<Seq<char>>,
    pub registered_actions: Seq<Action>,
    pub emergency_unlock_registered: bool,
}

impl View for HotkeyRegistration {
    type V = RegistrationView;

    open spec fn view(&self) -> RegistrationView {
        RegistrationView {
            failures: string_views(self.failures@),
            registered_actions: self.registered_actions@,
            emergency_unlock_registered: self.emergency_unlock_registered,
        }
    }
}

/// What comes of listening where `registered` says whether the system gave out the
/// reserved hotkey. The bind needs no registration.
pub open spec fn listening(registered: bool) -> RegistrationView {
    RegistrationView {
        failures: if registered {
            Seq::empty()
        } else {
            seq!["Emergency unlock (Ctrl+Alt+Esc)"@]
        },
        registered_actions: seq![Action::Toggle],
        emergency_unlock_registered: registered,
    }
}

/// What comes of a thread that ended before it could report.
pub open spec fn not_listening() -> RegistrationView {
    RegistrationView {
        failures: seq!["Hotkey thread"@],
        registered_actions: Seq::empty(),
        emergency_unlock_registered: false,
    }
}

/// What the listening thread does after it waited for a message.
#[derive(Clone, Copy, PartialEq, Eq, Structural, Debug)]
pub enum MessageStep {
    /// End the loop.
    Stop,
    /// Hand the action on and ask for a new frame.
    Forward(Action),
    /// Wait for the next message.
    Wait,
}

/// What follows a wait with the given result, message and parameter. A result of zero or
/// less ends the loop; the identifier of a hotkey is in the low half of its parameter.
pub open spec fn message_step(result: i32, message: u32, wparam: usize) -> MessageStep {
    if result <= 0 {
        MessageStep::Stop
    } else if message == WM_HOTKEY && wparam as int % 0x1_0000_0000 == HOTKEY_EMERGENCY_UNLOCK {
        MessageStep::Forward(Action::Unlock)
    } else {
        MessageStep::Wait
    }
}

impl HotkeyRegistration {
    /// The report of a thread that listens.
    pub fn started(registered: bool) -> (r: HotkeyRegistration)
        ensures
            r@ == listening(registered),
    {
        let mut failures: Vec<String> = Vec::new();
        let mut registered_actions: Vec<Action> = Vec::new();
        registered_actions.push(Action::Toggle);
        if !registered {
            failures.push("Emergency unlock (Ctrl+Alt+Esc)".to_string());
        }
        let r: HotkeyRegistration = HotkeyRegistration {
            failures,
            registered_actions,
            emergency_unlock_registered: registered,
        };
        assert(r@ =~= listening(registered));
        r
    }

    /// The report that stands in for that of a thread that ended early.
    pub fn lost() -> (r: HotkeyRegistration)
        ensures
            r@ == not_listening(),
    {
        let mut failures: Vec<String> = Vec::new();
        failures.push("Hotkey thread".to_string());
        let r: HotkeyRegistration = HotkeyRegistration {
            failures,
            registered_actions: Vec::new(),
            emergency_unlock_registered: false,
        };
        assert(r@ =~= not_listening());
        r
    }
}

/// What the listening thread does with what it waited for.
pub fn handle_message(result: i32, message: u32, wparam: usize) -> (step: MessageStep)
    ensures
        step == message_step(result, message, wparam),
{
    if result <= 0 {
        return MessageStep::Stop;
    }
    let id: u64 = wparam as u64 % 0x1_0000_0000;
    if message == WM_HOTKEY && id == HOTKEY_EMERGENCY_UNLOCK as u64 {
        MessageStep::Forward(Action::Unlock)
    } else {
        MessageStep::Wait
    }
}

/// Listening fails in no part where the reserved hotkey was given out, else in that alone. The
/// bind works either way, and without a thread nothing does.
pub proof fn law_what_comes_of_listening(registered: bool)
    ensures
        (listening(registered).failures.len() == 0) == registered,
        !registered ==> listening(registered).failures == seq![
            "Emergency unlock (Ctrl+Alt+Esc)"@,
        ],
        listening(registered).emergency_unlock_registered == registered,
        listening(registered).registered_actions == seq![Action::Toggle],
        not_listening().failures == seq!["Hotkey thread"@],
        not_listening().registered_actions.len() == 0,
        !not_listening().emergency_unlock_registered,
{
}

/// The loop ends exactly where the wait did not give a message. A message does something only
/// where it is that of the reserved hotkey, and it asks for an unlock.
pub proof fn law_only_the_reserved_hotkey_acts(result: i32, message: u32, wparam: usize)
    ensures
        message_step(result, message, wparam) is Stop == (result < 0 || result == 0),
        message_step(result, message, wparam) matches MessageStep::Forward(action) ==> action
            == Action::Unlock && message == 786 && wparam as int % 4294967296 == 99,
        result > 0 && message == 786 && wparam as int % 4294967296 == 99 ==> message_step(
            result,
            message,
            wparam,
        ) is Forward,
{
}

/// The numbers that the system knows, and the reserved hotkey: Control, Alt and no repeat.
pub proof fn law_numbers_of_the_system()
    ensures
        WM_QUIT == 18,
        WM_HOTKEY == 786,
        HOTKEY_EMERGENCY_UNLOCK == 99,
        EMERGENCY_MODIFIERS == 16387,
{
    assert(MOD_CONTROL | MOD_ALT | MOD_NOREPEAT == 16387u32) by (bit_vector);
}

/// What a registration stands for shows all of its parts.
pub proof fn law_a_registration_shows_its_parts(r: HotkeyRegistration)
    ensures
        r@.failures == string_views(r.failures@),
        r@.registered_actions == r.registered_actions@,
        r@.emergency_unlock_registered == r.emergency_unlock_registered,
{
}

} // verus!
