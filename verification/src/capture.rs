//! Recording a bind from the input events of one frame.

use crate::hotkey::{
    lemma_mask_bits, mask, pressed_modifiers, Hotkey, ModifierKeys, MOD_ALT, MOD_CONTROL, MOD_SHIFT,
};
use crate::keys::{
    bind_vk, egui_key_to_vk, is_egui_modifier_key, is_letter_vk, letter_vk, modifier_key, Key,
};
use vstd::prelude::*;

verus! {

/// The modifiers that an input event reports.
#[derive(Clone, Copy, PartialEq, Eq, Structural, Debug)]
pub struct KeyModifiers {
    pub alt: bool,
    pub ctrl: bool,
    pub shift: bool,
    pub mac_cmd: bool,
    pub command: bool,
}

impl KeyModifiers {
    /// `egui::Modifiers::any`, on the same five flags: whether one of them is set.
    #[verifier::external_body]
    fn any(self) -> (b: bool)
        ensures
            b == (self.alt || self.ctrl || self.shift || self.mac_cmd || self.command),
    {
        let KeyModifiers { alt, ctrl, shift, mac_cmd, command } = self;
        eframe::egui::Modifiers { alt, ctrl, shift, mac_cmd, command }.any()
    }

    /// Whether the event reports no modifier.
    pub open spec fn none(self) -> bool {
        !self.alt && !self.ctrl && !self.shift && !self.mac_cmd && !self.command
    }
}

/// A key that went down or up.
#[derive(Clone, Copy, PartialEq, Eq, Structural, Debug)]
pub struct KeyEvent {
    pub key: Key,
    pub pressed: bool,
    pub repeat: bool,
    pub modifiers: KeyModifiers,
}

/// An input event.
#[derive(Clone, Copy, PartialEq, Eq, Structural, Debug)]
pub enum InputEvent {
    Key(KeyEvent),
    Other,
}

/// What the events of a frame do to a recording.
#[derive(Clone, Copy, PartialEq, Eq, Structural, Debug)]
pub enum Capture {
    Nothing,
    Cancel,
    Unsupported,
    Bind(Hotkey),
}

/// The modifiers of a bind on the key `vk`: those that are down or that the event reports,
/// so that a plain key and a combination both record reliably. Shift only changes the case
/// of a letter and is no part of a bind on one.
pub open spec fn captured_modifiers(live: ModifierKeys, m: KeyModifiers, vk: u32) -> u32 {
    mask(
        live.ctrl || m.ctrl || m.command,
        live.alt || m.alt,
        (live.shift || m.shift) && !letter_vk(vk),
        live.left_win || live.right_win,
    )
}

/// What one event does to a recording: `None` where it is passed over. Only a key that
/// goes down counts, Escape alone cancels, and keys that only modify others are waited
/// out.
pub open spec fn reaction(event: InputEvent, live: ModifierKeys) -> Option<Capture> {
    match event {
        InputEvent::Key(e) => if !e.pressed || e.repeat {
            None
        } else if e.key == Key::Escape && e.modifiers.none() {
            Some(Capture::Cancel)
        } else if modifier_key(e.key) {
            None
        } else {
            match bind_vk(e.key) {
                Some(vk) => Some(
                    Capture::Bind(
                        Hotkey { modifiers: captured_modifiers(live, e.modifiers, vk), vk },
                    ),
                ),
                None => Some(Capture::Unsupported),
            }
        },
        InputEvent::Other => None,
    }
}

/// What the events do to a recording: the first that is not passed over decides.
pub open spec fn captured(events: Seq<InputEvent>, live: ModifierKeys) -> Capture
    decreases events.len(),
{
    if events.len() == 0 {
        Capture::Nothing
    } else {
        match reaction(events.first(), live) {
            Some(c) => c,
            None => captured(events.drop_first(), live),
        }
    }
}

proof fn lemma_captured_modifiers(live: ModifierKeys, m: KeyModifiers)
    ensures
        ({
            let c = if m.ctrl || m.command {
                live.bits() | MOD_CONTROL
            } else {
                live.bits()
            };
            let a = if m.alt {
                c | MOD_ALT
            } else {
                c
            };
            let s = if m.shift {
                a | MOD_SHIFT
            } else {
                a
            };
            let win = live.left_win || live.right_win;
            &&& s == mask(
                live.ctrl || m.ctrl || m.command,
                live.alt || m.alt,
                live.shift || m.shift,
                win,
            )
            &&& s & !MOD_SHIFT == mask(
                live.ctrl || m.ctrl || m.command,
                live.alt || m.alt,
                false,
                win,
            )
        }),
{
    let (lc, la, ls, lw) = (live.ctrl, live.alt, live.shift, live.left_win || live.right_win);
    let (mc, ma, ms) = (m.ctrl || m.command, m.alt, m.shift);
    assert({
        let bits = mask(lc, la, ls, lw);
        let c = if mc {
            bits | MOD_CONTROL
        } else {
            bits
        };
        let a = if ma {
            c | MOD_ALT
        } else {
            c
        };
        let s = if ms {
            a | MOD_SHIFT
        } else {
            a
        };
        &&& s == mask(lc || mc, la || ma, ls || ms, lw)
        &&& s & !MOD_SHIFT == mask(lc || mc, la || ma, false, lw)
    }) by (bit_vector);
}

fn react(event: InputEvent, live: ModifierKeys) -> (c: Option<Capture>)
    ensures
        c == reaction(event, live),
{
    let e: KeyEvent = match event {
        InputEvent::Key(e) => e,
        InputEvent::Other => return None,
    };
    if !e.pressed || e.repeat {
        return None;
    }
    if e.key == Key::Escape && !e.modifiers.any() {
        return Some(Capture::Cancel);
    }
    if is_egui_modifier_key(e.key) {
        return None;
    }
    let vk: u32 = match egui_key_to_vk(e.key) {
        Some(vk) => vk,
        None => return Some(Capture::Unsupported),
    };
    let mut mods: u32 = pressed_modifiers(live);
    if e.modifiers.ctrl || e.modifiers.command {
        mods = mods | MOD_CONTROL;
    }
    if e.modifiers.alt {
        mods = mods | MOD_ALT;
    }
    if e.modifiers.shift {
        mods = mods | MOD_SHIFT;
    }
    if is_letter_vk(vk) {
        mods = mods & !MOD_SHIFT;
    }
    proof {
        lemma_captured_modifiers(live, e.modifiers);
    }
    Some(Capture::Bind(Hotkey::new(mods, vk)))
}

/// What the events do to a recording, where `live` are the modifier keys that are down.
pub fn capture(events: &[InputEvent], live: ModifierKeys) -> (c: Capture)
    ensures
        c == captured(events@, live),
{
    let mut i: usize = 0;
    assert(events@.skip(0) =~= events@);
    while i < events.len()
        invariant
            i <= events@.len(),
            captured(events@, live) == captured(events@.skip(i as int), live),
        decreases events@.len() - i,
    {
        assert(events@.skip(i as int).first() == events@[i as int]);
        if let Some(c) = react(events[i], live) {
            return c;
        }
        assert(events@.skip(i as int).drop_first() =~= events@.skip(i + 1));
        i += 1;
    }
    Capture::Nothing
}

/// A recorded bind holds every modifier that was down or reported, and no other: Control,
/// Alt and Windows on every key, and Shift on every key but a letter. Its key is the one that
/// was pressed.
pub proof fn law_a_recorded_bind_holds_the_modifiers_that_were_down(e: KeyEvent, live: ModifierKeys)
    ensures
        reaction(InputEvent::Key(e), live) matches Some(Capture::Bind(h)) ==> {
            &&& (h.modifiers & 1u32 != 0) == (live.alt || e.modifiers.alt)
            &&& (h.modifiers & 2u32 != 0) == (live.ctrl || e.modifiers.ctrl || e.modifiers.command)
            &&& (h.modifiers & 8u32 != 0) == (live.left_win || live.right_win)
            &&& h.vk < 65 || h.vk > 90 ==> (h.modifiers & 4u32 != 0) == (live.shift
                || e.modifiers.shift)
            &&& 65 <= h.vk <= 90 ==> h.modifiers & 4u32 == 0
            &&& h.modifiers < 16
            &&& bind_vk(e.key) == Some(h.vk)
            &&& e.pressed && !e.repeat
        },
{
    if let Some(Capture::Bind(h)) = reaction(InputEvent::Key(e), live) {
        let m = e.modifiers;
        lemma_mask_bits(
            live.ctrl || m.ctrl || m.command,
            live.alt || m.alt,
            (live.shift || m.shift) && !letter_vk(h.vk),
            live.left_win || live.right_win,
        );
    }
}

/// Escape without a reported modifier cancels, whatever is down, and nothing else does.
pub proof fn law_escape_alone_cancels(event: InputEvent, live: ModifierKeys)
    ensures
        (reaction(event, live) == Some(Capture::Cancel)) == (event matches InputEvent::Key(e)
            && e.pressed && !e.repeat && e.key == Key::Escape && !(e.modifiers.alt
            || e.modifiers.ctrl || e.modifiers.shift || e.modifiers.mac_cmd
            || e.modifiers.command)),
{
}

/// Passed over are just the events that are no key, keys that come up or repeat, and keys that
/// only modify others.
pub proof fn law_what_a_recording_passes_over(event: InputEvent, live: ModifierKeys)
    ensures
        reaction(event, live) is None == match event {
            InputEvent::Other => true,
            InputEvent::Key(e) => !e.pressed || e.repeat || modifier_key(e.key),
        },
{
}

/// A key that goes down is recorded or refused: recorded where a bind can use it, unless it is
/// Escape alone.
pub proof fn law_a_press_is_recorded_or_refused(e: KeyEvent, live: ModifierKeys)
    requires
        e.pressed,
        !e.repeat,
        !modifier_key(e.key),
        e.key != Key::Escape || e.modifiers.alt || e.modifiers.ctrl || e.modifiers.shift
            || e.modifiers.mac_cmd || e.modifiers.command,
    ensures
        bind_vk(e.key) is Some ==> reaction(InputEvent::Key(e), live) matches Some(
            Capture::Bind(_),
        ),
        bind_vk(e.key) is None ==> reaction(InputEvent::Key(e), live) == Some(
            Capture::Unsupported,
        ),
{
}

/// The first event that is not passed over decides, whatever comes behind it. Where all are
/// passed over nothing happens.
pub proof fn law_the_first_event_that_counts_decides(
    before: Seq<InputEvent>,
    event: InputEvent,
    behind: Seq<InputEvent>,
    live: ModifierKeys,
)
    requires
        forall|i: int| 0 <= i < before.len() ==> reaction(#[trigger] before[i], live) is None,
    ensures
        captured(before, live) == Capture::Nothing,
        reaction(event, live) matches Some(c) ==> captured(before.push(event) + behind, live) == c,
    decreases before.len(),
{
    let all = before.push(event) + behind;
    if before.len() > 0 {
        let rest = before.drop_first();
        assert forall|i: int| 0 <= i < rest.len() implies reaction(#[trigger] rest[i], live)
            is None by {
            assert(rest[i] == before[i + 1]);
        }
        law_the_first_event_that_counts_decides(rest, event, behind, live);
        assert(all.first() == before[0]);
        assert(all.drop_first() =~= rest.push(event) + behind);
    } else {
        assert(all.first() == event);
    }
}

} // verus!
