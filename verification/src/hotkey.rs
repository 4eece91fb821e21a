//! Binds: how they are written, read back, and told from the keys that are held.

use crate::keys::{
    is_letter_vk, is_modifier_vk, is_modifier_word, is_word, key_name,
    law_case_of_a_key_name_does_not_matter, law_key_name_reads_back,
    law_named_keys_are_no_modifiers,
    lemma_key_name_no_modifier, lemma_key_name_word, lemma_word_trimmed, letter_vk, modifier_vk,
    nameable, named_vk, names_itself, vk_from_chars, vk_to_name,
};
use crate::text::{
    chars_of, is_text, lemma_split_first, lemma_split_one, lemma_upper_split, lemma_upper_trimmed,
    lemma_upper_twice, split, split_on, to_ascii_uppercase, trim, trimmed, upper, views,
};
use vstd::prelude::*;

verus! {

pub const MOD_ALT: u32 = 0x0001;

pub const MOD_CONTROL: u32 = 0x0002;

pub const MOD_SHIFT: u32 = 0x0004;

pub const MOD_WIN: u32 = 0x0008;

pub const MOD_NOREPEAT: u32 = 0x4000;

/// What a bind or the reserved hotkey asks for.
#[derive(Clone, Copy, PartialEq, Eq, Structural, Debug)]
pub enum Action {
    Toggle,
    Unlock,
}

impl Action {
    /// What the user reads for the action.
    pub open spec fn text(self) -> Seq<char> {
        match self {
            Action::Toggle => "Toggle Lock/Unlock"@,
            Action::Unlock => "Unlock"@,
        }
    }

    pub fn label(self) -> (s: &'static str)
        ensures
            s@ == self.text(),
    {
        match self {
            Action::Toggle => "Toggle Lock/Unlock",
            Action::Unlock => "Unlock",
        }
    }
}

/// The modifier bits for the modifiers that are named by `true`.
pub open spec fn mask(ctrl: bool, alt: bool, shift: bool, win: bool) -> u32 {
    (if ctrl {
        MOD_CONTROL
    } else {
        0
    }) | (if alt {
        MOD_ALT
    } else {
        0
    }) | (if shift {
        MOD_SHIFT
    } else {
        0
    }) | (if win {
        MOD_WIN
    } else {
        0
    })
}

fn mask_of(ctrl: bool, alt: bool, shift: bool, win: bool) -> (m: u32)
    ensures
        m == mask(ctrl, alt, shift, win),
{
    let c: u32 = if ctrl {
        MOD_CONTROL
    } else {
        0
    };
    let a: u32 = if alt {
        MOD_ALT
    } else {
        0
    };
    let s: u32 = if shift {
        MOD_SHIFT
    } else {
        0
    };
    let w: u32 = if win {
        MOD_WIN
    } else {
        0
    };
    c | a | s | w
}

/// Whether the modifier bits `m` hold `bit`.
pub open spec fn has_bit(m: u32, bit: u32) -> bool {
    m & bit != 0
}

/// The four modifiers among the bits `m`.
pub open spec fn normalized(m: u32) -> u32 {
    mask(has_bit(m, MOD_CONTROL), has_bit(m, MOD_ALT), has_bit(m, MOD_SHIFT), has_bit(m, MOD_WIN))
}

/// Keeps the four modifiers among the bits and drops every other bit.
pub fn normalize_modifiers(modifiers: u32) -> (m: u32)
    ensures
        m == normalized(modifiers),
{
    assert(modifiers & (MOD_CONTROL | MOD_ALT | MOD_SHIFT | MOD_WIN) == normalized(modifiers))
        by (bit_vector);
    modifiers & (MOD_CONTROL | MOD_ALT | MOD_SHIFT | MOD_WIN)
}

/// A key and the modifiers to hold with it.
#[derive(Clone, Copy, PartialEq, Eq, Structural, Debug)]
pub struct Hotkey {
    pub modifiers: u32,
    pub vk: u32,
}

/// `text` where `m` holds `bit`, else nothing.
pub open spec fn text_if(m: u32, bit: u32, text: Seq<char>) -> Seq<char> {
    if has_bit(m, bit) {
        text
    } else {
        Seq::empty()
    }
}

fn append_if(out: &mut String, m: u32, bit: u32, text: &str)
    ensures
        final(out)@ == old(out)@ + text_if(m, bit, text@),
{
    if m & bit != 0 {
        out.append(text);
    }
    assert(!has_bit(m, bit) ==> out@ =~= old(out)@ + text_if(m, bit, text@));
}

impl Hotkey {
    pub fn new(modifiers: u32, vk: u32) -> (h: Self)
        ensures
            h.modifiers == modifiers,
            h.vk == vk,
    {
        Hotkey { modifiers, vk }
    }

    /// How the bind is written: its modifiers in a fixed order, each with a plus sign
    /// behind it, and the name of its key.
    pub open spec fn text(self) -> Seq<char> {
        text_if(self.modifiers, MOD_CONTROL, "Ctrl+"@) + text_if(self.modifiers, MOD_ALT, "Alt+"@)
            + text_if(self.modifiers, MOD_SHIFT, "Shift+"@) + text_if(
            self.modifiers,
            MOD_WIN,
            "Win+"@,
        ) + key_name(self.vk)
    }

    pub fn display(self) -> (s: String)
        ensures
            s@ == self.text(),
    {
        let mut s: String = String::new();
        append_if(&mut s, self.modifiers, MOD_CONTROL, "Ctrl+");
        append_if(&mut s, self.modifiers, MOD_ALT, "Alt+");
        append_if(&mut s, self.modifiers, MOD_SHIFT, "Shift+");
        append_if(&mut s, self.modifiers, MOD_WIN, "Win+");
        s.append(vk_to_name(self.vk).as_str());
        assert(s@ =~= self.text());
        s
    }
}

/// The parts of a written bind: what stands between its plus signs, trimmed.
pub open spec fn tokens(s: Seq<char>) -> Seq<Seq<char>> {
    split_on(s, '+').map_values(|p: Seq<char>| trimmed(p))
}

/// The modifier that a part of a written bind names, if it names one.
pub open spec fn token_modifier(token: Seq<char>) -> Option<u32> {
    let u = upper(token);
    if u == "CTRL"@ || u == "CONTROL"@ {
        Some(MOD_CONTROL)
    } else if u == "ALT"@ {
        Some(MOD_ALT)
    } else if u == "SHIFT"@ {
        Some(MOD_SHIFT)
    } else if u == "WIN"@ || u == "WINDOWS"@ {
        Some(MOD_WIN)
    } else {
        None
    }
}

/// Whether one of the parts names the modifier `bit`.
pub open spec fn names_modifier(ts: Seq<Seq<char>>, bit: u32) -> bool {
    exists|i: int| 0 <= i < ts.len() && token_modifier(#[trigger] ts[i]) == Some(bit)
}

/// The last part that names no modifier.
pub open spec fn key_token(ts: Seq<Seq<char>>) -> Option<Seq<char>>
    decreases ts.len(),
{
    if ts.len() == 0 {
        None
    } else if token_modifier(ts.last()) is None {
        Some(ts.last())
    } else {
        key_token(ts.drop_last())
    }
}

/// The key that the last part without a modifier names.
pub open spec fn key_of(ts: Seq<Seq<char>>) -> Option<u32> {
    match key_token(ts) {
        Some(token) => named_vk(token),
        None => None,
    }
}

/// The bind that `s` writes: every modifier that a part names, and the key that the last
/// other part names.
pub open spec fn written_hotkey(s: Seq<char>) -> Option<Hotkey> {
    let ts = tokens(s);
    match key_of(ts) {
        Some(vk) => if modifier_vk(vk) {
            None
        } else {
            Some(
                Hotkey {
                    modifiers: mask(
                        names_modifier(ts, MOD_CONTROL),
                        names_modifier(ts, MOD_ALT),
                        names_modifier(ts, MOD_SHIFT),
                        names_modifier(ts, MOD_WIN),
                    ),
                    vk,
                },
            )
        },
        None => None,
    }
}

fn modifier_of_token(token: &[char]) -> (m: Option<u32>)
    ensures
        m == token_modifier(token@),
{
    let upper_token: Vec<char> = to_ascii_uppercase(token);
    let u: &[char] = upper_token.as_slice();
    if is_text(u, "CTRL") || is_text(u, "CONTROL") {
        Some(MOD_CONTROL)
    } else if is_text(u, "ALT") {
        Some(MOD_ALT)
    } else if is_text(u, "SHIFT") {
        Some(MOD_SHIFT)
    } else if is_text(u, "WIN") || is_text(u, "WINDOWS") {
        Some(MOD_WIN)
    } else {
        None
    }
}

proof fn lemma_names_modifier_push(ts: Seq<Seq<char>>, t: Seq<char>, bit: u32)
    ensures
        names_modifier(ts.push(t), bit) == (names_modifier(ts, bit) || token_modifier(t) == Some(
            bit,
        )),
{
    let all = ts.push(t);
    if names_modifier(ts, bit) {
        let i = choose|i: int| 0 <= i < ts.len() && token_modifier(#[trigger] ts[i]) == Some(bit);
        assert(all[i] == ts[i]);
    }
    if token_modifier(t) == Some(bit) {
        assert(all[ts.len() as int] == t);
    }
}

/// The bind that `value` writes.
pub fn parse_hotkey_chars(value: &[char]) -> (h: Option<Hotkey>)
    ensures
        h == written_hotkey(value@),
{
    let parts: Vec<Vec<char>> = split(value, '+');
    let ghost ts = tokens(value@);
    assert(ts.len() == parts@.len()) by {
        assert(views(parts@).len() == parts@.len());
    }
    let mut ctrl: bool = false;
    let mut alt: bool = false;
    let mut shift: bool = false;
    let mut win: bool = false;
    let mut key: Option<u32> = None;
    let mut i: usize = 0;
    while i < parts.len()
        invariant
            i <= parts@.len() == ts.len(),
            ts == tokens(value@),
            views(parts@) == split_on(value@, '+'),
            ctrl == names_modifier(ts.take(i as int), MOD_CONTROL),
            alt == names_modifier(ts.take(i as int), MOD_ALT),
            shift == names_modifier(ts.take(i as int), MOD_SHIFT),
            win == names_modifier(ts.take(i as int), MOD_WIN),
            key == key_of(ts.take(i as int)),
        decreases parts@.len() - i,
    {
        let token: &[char] = trim(parts[i].as_slice());
        assert(views(parts@)[i as int] == parts@[i as int]@);
        assert(token@ == ts[i as int]);
        proof {
            let before = ts.take(i as int);
            assert(ts.take(i + 1) =~= before.push(token@));
            lemma_names_modifier_push(before, token@, MOD_CONTROL);
            lemma_names_modifier_push(before, token@, MOD_ALT);
            lemma_names_modifier_push(before, token@, MOD_SHIFT);
            lemma_names_modifier_push(before, token@, MOD_WIN);
            assert(before.push(token@).drop_last() =~= before);
        }
        match modifier_of_token(token) {
            Some(m) => {
                if m == MOD_CONTROL {
                    ctrl = true;
                } else if m == MOD_ALT {
                    alt = true;
                } else if m == MOD_SHIFT {
                    shift = true;
                } else {
                    win = true;
                }
            },
            None => {
                key = vk_from_chars(token);
            },
        }
        i += 1;
    }
    assert(ts.take(i as int) =~= ts);
    match key {
        Some(vk) => {
            if is_modifier_vk(vk) {
                None
            } else {
                Some(Hotkey::new(mask_of(ctrl, alt, shift, win), vk))
            }
        },
        None => None,
    }
}

/// The bind that `value` writes.
pub fn parse_hotkey(value: &str) -> (h: Option<Hotkey>)
    ensures
        h == written_hotkey(value@),
{
    parse_hotkey_chars(chars_of(value).as_slice())
}

/// Whether the state that the system reports for a key says that it is down: the sign
/// bit is set.
pub fn key_state_down(state: i16) -> (down: bool)
    ensures
        down == (state < 0),
{
    state < 0
}

/// Which modifier keys are down.
#[derive(Clone, Copy, PartialEq, Eq, Structural, Debug)]
pub struct ModifierKeys {
    pub ctrl: bool,
    pub alt: bool,
    pub shift: bool,
    pub left_win: bool,
    pub right_win: bool,
}

impl ModifierKeys {
    /// The modifier bits of the keys that are down. Either Windows key counts.
    pub open spec fn bits(self) -> u32 {
        mask(self.ctrl, self.alt, self.shift, self.left_win || self.right_win)
    }
}

/// The modifier bits of the keys that were down when the last input message was read.
pub fn pressed_modifiers(keys: ModifierKeys) -> (m: u32)
    ensures
        m == keys.bits(),
{
    mask_of(keys.ctrl, keys.alt, keys.shift, keys.left_win || keys.right_win)
}

/// The modifier bits of the keys that are down at this moment.
pub fn pressed_modifiers_async(keys: ModifierKeys) -> (m: u32)
    ensures
        m == keys.bits(),
{
    mask_of(keys.ctrl, keys.alt, keys.shift, keys.left_win || keys.right_win)
}

/// Whether `h` is held: its key is down and so is every modifier it names. Other
/// modifiers may be down too. On a letter, Shift does not matter.
pub open spec fn held(h: Hotkey, key_down: bool, keys: ModifierKeys) -> bool {
    &&& key_down
    &&& has_bit(h.modifiers, MOD_CONTROL) ==> keys.ctrl
    &&& has_bit(h.modifiers, MOD_ALT) ==> keys.alt
    &&& has_bit(h.modifiers, MOD_SHIFT) && !letter_vk(h.vk) ==> keys.shift
    &&& has_bit(h.modifiers, MOD_WIN) ==> keys.left_win || keys.right_win
}

/// Whether the bind is held, where `key_down` says whether its key is down and `keys`
/// which modifier keys are.
pub fn hotkey_is_down(hotkey: Hotkey, key_down: bool, keys: ModifierKeys) -> (down: bool)
    ensures
        down == held(hotkey, key_down, keys),
{
    if !key_down {
        return false;
    }
    let mut required: u32 = normalize_modifiers(hotkey.modifiers);
    let mut pressed: u32 = pressed_modifiers_async(keys);
    if is_letter_vk(hotkey.vk) {
        required = required & !MOD_SHIFT;
        pressed = pressed & !MOD_SHIFT;
    }
    proof {
        lemma_held_bits(hotkey.modifiers, keys);
    }
    pressed & required == required
}

/// The bits of the held modifiers cover those of a bind exactly when each modifier of
/// the bind is held; without the Shift bit, when each but Shift is.
proof fn lemma_held_bits(m: u32, keys: ModifierKeys)
    ensures
        ({
            let r = normalized(m);
            let p = keys.bits();
            let others = (has_bit(m, MOD_CONTROL) ==> keys.ctrl) && (has_bit(m, MOD_ALT) ==> keys.alt) && (
            has_bit(m, MOD_WIN) ==> keys.left_win || keys.right_win);
            &&& (p & r == r) == (others && (has_bit(m, MOD_SHIFT) ==> keys.shift))
            &&& ((p & !MOD_SHIFT) & (r & !MOD_SHIFT) == r & !MOD_SHIFT) == others
        }),
{
    let (c, a, s, w) = (has_bit(m, MOD_CONTROL), has_bit(m, MOD_ALT), has_bit(m, MOD_SHIFT), has_bit(m, MOD_WIN));
    let (pc, pa, ps, pw) = (keys.ctrl, keys.alt, keys.shift, keys.left_win || keys.right_win);
    assert({
        let r = mask(c, a, s, w);
        let p = mask(pc, pa, ps, pw);
        let others = (c ==> pc) && (a ==> pa) && (w ==> pw);
        &&& (p & r == r) == (others && (s ==> ps))
        &&& ((p & !MOD_SHIFT) & (r & !MOD_SHIFT) == r & !MOD_SHIFT) == others
    }) by (bit_vector);
}

/// The first part of a written bind, where a plus sign follows it.
proof fn lemma_tokens_first(word: Seq<char>, rest: Seq<char>)
    requires
        is_word(word),
    ensures
        tokens(word.push('+') + rest) == seq![word] + tokens(rest),
{
    assert forall|j: int| 0 <= j < word.len() implies word[j] != '+' by {
        assert('a' <= word[j] <= 'z' || names_itself(word[j]));
    }
    lemma_split_first(word, '+', rest);
    lemma_word_trimmed(word);
    assert(tokens(word.push('+') + rest) =~= seq![word] + tokens(rest));
}

/// The part that `text_if` adds in front of a written bind.
pub open spec fn part_if(m: u32, bit: u32, word: Seq<char>) -> Seq<Seq<char>> {
    if has_bit(m, bit) {
        seq![word]
    } else {
        Seq::empty()
    }
}

proof fn lemma_tokens_text_if(m: u32, bit: u32, word: Seq<char>, rest: Seq<char>)
    requires
        is_word(word),
    ensures
        tokens(text_if(m, bit, word.push('+')) + rest) == part_if(m, bit, word) + tokens(rest),
{
    if has_bit(m, bit) {
        lemma_tokens_first(word, rest);
    } else {
        assert(text_if(m, bit, word.push('+')) + rest =~= rest);
        assert(part_if(m, bit, word) + tokens(rest) =~= tokens(rest));
    }
}

/// The four modifier words with their plus signs.
proof fn lemma_modifier_words()
    ensures
        "Ctrl+"@ == "Ctrl"@.push('+'),
        "Alt+"@ == "Alt"@.push('+'),
        "Shift+"@ == "Shift"@.push('+'),
        "Win+"@ == "Win"@.push('+'),
        is_word("Ctrl"@),
        is_word("Alt"@),
        is_word("Shift"@),
        is_word("Win"@),
        token_modifier("Ctrl"@) == Some(MOD_CONTROL),
        token_modifier("Alt"@) == Some(MOD_ALT),
        token_modifier("Shift"@) == Some(MOD_SHIFT),
        token_modifier("Win"@) == Some(MOD_WIN),
{
    reveal_strlit("Ctrl");
    reveal_strlit("Ctrl+");
    reveal_strlit("CTRL");
    reveal_strlit("CONTROL");
    reveal_strlit("Alt");
    reveal_strlit("Alt+");
    reveal_strlit("ALT");
    reveal_strlit("Shift");
    reveal_strlit("Shift+");
    reveal_strlit("SHIFT");
    reveal_strlit("Win");
    reveal_strlit("Win+");
    reveal_strlit("WIN");
    assert("Ctrl+"@ =~= "Ctrl"@.push('+'));
    assert("Alt+"@ =~= "Alt"@.push('+'));
    assert("Shift+"@ =~= "Shift"@.push('+'));
    assert("Win+"@ =~= "Win"@.push('+'));
    assert(upper("Ctrl"@) =~= "CTRL"@);
    assert(upper("Alt"@) =~= "ALT"@);
    assert(upper("Shift"@) =~= "SHIFT"@);
    assert(upper("Win"@) =~= "WIN"@);
    assert("WIN"@[0] != "ALT"@[0]);
}

/// The parts of a written bind: its modifiers and the name of its key.
proof fn lemma_hotkey_tokens(h: Hotkey)
    ensures
        tokens(h.text()) == part_if(h.modifiers, MOD_CONTROL, "Ctrl"@) + part_if(
            h.modifiers,
            MOD_ALT,
            "Alt"@,
        ) + part_if(h.modifiers, MOD_SHIFT, "Shift"@) + part_if(h.modifiers, MOD_WIN, "Win"@)
            + seq![key_name(h.vk)],
{
    lemma_modifier_words();
    let m = h.modifiers;
    let t0 = key_name(h.vk);
    let t1 = text_if(m, MOD_WIN, "Win+"@) + t0;
    let t2 = text_if(m, MOD_SHIFT, "Shift+"@) + t1;
    let t3 = text_if(m, MOD_ALT, "Alt+"@) + t2;
    let t4 = text_if(m, MOD_CONTROL, "Ctrl+"@) + t3;
    assert(h.text() =~= t4);
    lemma_key_name_word(h.vk);
    lemma_word_trimmed(t0);
    assert forall|j: int| 0 <= j < t0.len() implies t0[j] != '+' by {
        assert('a' <= t0[j] <= 'z' || names_itself(t0[j]));
    }
    lemma_split_one(t0, '+');
    assert(tokens(t0) =~= seq![t0]);
    lemma_tokens_text_if(m, MOD_WIN, "Win"@, t0);
    lemma_tokens_text_if(m, MOD_SHIFT, "Shift"@, t1);
    lemma_tokens_text_if(m, MOD_ALT, "Alt"@, t2);
    lemma_tokens_text_if(m, MOD_CONTROL, "Ctrl"@, t3);
    assert(tokens(h.text()) =~= part_if(m, MOD_CONTROL, "Ctrl"@) + part_if(m, MOD_ALT, "Alt"@)
        + part_if(m, MOD_SHIFT, "Shift"@) + part_if(m, MOD_WIN, "Win"@) + seq![t0]);
}

proof fn lemma_names_modifier_concat(a: Seq<Seq<char>>, b: Seq<Seq<char>>, bit: u32)
    ensures
        names_modifier(a + b, bit) == (names_modifier(a, bit) || names_modifier(b, bit)),
{
    let all = a + b;
    if names_modifier(a, bit) {
        let i = choose|i: int| 0 <= i < a.len() && token_modifier(#[trigger] a[i]) == Some(bit);
        assert(all[i] == a[i]);
    }
    if names_modifier(b, bit) {
        let i = choose|i: int| 0 <= i < b.len() && token_modifier(#[trigger] b[i]) == Some(bit);
        assert(all[a.len() + i] == b[i]);
    }
    if names_modifier(all, bit) {
        let i = choose|i: int| 0 <= i < all.len() && token_modifier(#[trigger] all[i]) == Some(bit);
        if i < a.len() {
            assert(a[i] == all[i]);
        } else {
            assert(b[i - a.len()] == all[i]);
        }
    }
}

proof fn lemma_names_modifier_part(m: u32, part_bit: u32, word: Seq<char>, bit: u32)
    ensures
        names_modifier(part_if(m, part_bit, word), bit) == (has_bit(m, part_bit) && token_modifier(
            word,
        ) == Some(bit)),
{
    if has_bit(m, part_bit) && token_modifier(word) == Some(bit) {
        assert(part_if(m, part_bit, word)[0] == word);
    }
}

proof fn lemma_hotkey_names_modifier(h: Hotkey, bit: u32)
    requires
        bit == MOD_CONTROL || bit == MOD_ALT || bit == MOD_SHIFT || bit == MOD_WIN,
    ensures
        names_modifier(tokens(h.text()), bit) == has_bit(h.modifiers, bit),
{
    let m = h.modifiers;
    let c = part_if(m, MOD_CONTROL, "Ctrl"@);
    let a = part_if(m, MOD_ALT, "Alt"@);
    let s = part_if(m, MOD_SHIFT, "Shift"@);
    let w = part_if(m, MOD_WIN, "Win"@);
    let k = seq![key_name(h.vk)];
    lemma_modifier_words();
    lemma_hotkey_tokens(h);
    lemma_key_name_no_modifier(h.vk);
    assert(token_modifier(k[0]) is None);
    assert(!names_modifier(k, bit));
    lemma_names_modifier_concat(c + a + s + w, k, bit);
    lemma_names_modifier_concat(c + a + s, w, bit);
    lemma_names_modifier_concat(c + a, s, bit);
    lemma_names_modifier_concat(c, a, bit);
    lemma_names_modifier_part(m, MOD_CONTROL, "Ctrl"@, bit);
    lemma_names_modifier_part(m, MOD_ALT, "Alt"@, bit);
    lemma_names_modifier_part(m, MOD_SHIFT, "Shift"@, bit);
    lemma_names_modifier_part(m, MOD_WIN, "Win"@, bit);
}

/// Whether `s` consists of ASCII letters, digits and plus signs.
pub open spec fn is_bind_text(s: Seq<char>) -> bool {
    forall|i: int|
        0 <= i < s.len() ==> 'a' <= #[trigger] s[i] <= 'z' || names_itself(s[i]) || s[i] == '+'
}

proof fn lemma_bind_text_concat(a: Seq<char>, b: Seq<char>)
    requires
        is_bind_text(a),
        is_bind_text(b),
    ensures
        is_bind_text(a + b),
{
    assert forall|i: int| 0 <= i < (a + b).len() implies 'a' <= #[trigger] (a + b)[i] <= 'z'
        || names_itself((a + b)[i]) || (a + b)[i] == '+' by {
        if i < a.len() {
            assert((a + b)[i] == a[i]);
        } else {
            assert((a + b)[i] == b[i - a.len()]);
        }
    }
}

/// A written bind holds nothing but ASCII letters, digits and plus signs, and ends in the
/// name of its key.
pub proof fn lemma_hotkey_text(h: Hotkey)
    ensures
        is_bind_text(h.text()),
        h.text().len() > 0,
        h.text().last() != '+',
{
    let m = h.modifiers;
    let c = text_if(m, MOD_CONTROL, "Ctrl+"@);
    let a = text_if(m, MOD_ALT, "Alt+"@);
    let s = text_if(m, MOD_SHIFT, "Shift+"@);
    let w = text_if(m, MOD_WIN, "Win+"@);
    let k = key_name(h.vk);
    reveal_strlit("Ctrl+");
    reveal_strlit("Alt+");
    reveal_strlit("Shift+");
    reveal_strlit("Win+");
    lemma_key_name_word(h.vk);
    assert(is_bind_text(k));
    lemma_bind_text_concat(c, a);
    lemma_bind_text_concat(c + a, s);
    lemma_bind_text_concat(c + a + s, w);
    lemma_bind_text_concat(c + a + s + w, k);
    assert(h.text().last() == k[k.len() - 1]);
}

/// A bind that is written and read back has the same key and the same four modifiers. A
/// bind on a key without a name cannot be read back.
pub proof fn law_hotkey_reads_back(h: Hotkey)
    ensures
        written_hotkey(h.text()) == (if nameable(h.vk) {
            Some(Hotkey { modifiers: normalized(h.modifiers), vk: h.vk })
        } else {
            None
        }),
{
    let ts = tokens(h.text());
    lemma_hotkey_tokens(h);
    lemma_key_name_no_modifier(h.vk);
    assert(ts.last() == key_name(h.vk));
    assert(token_modifier(ts.last()) is None);
    law_key_name_reads_back(h.vk);
    lemma_hotkey_names_modifier(h, MOD_CONTROL);
    lemma_hotkey_names_modifier(h, MOD_ALT);
    lemma_hotkey_names_modifier(h, MOD_SHIFT);
    lemma_hotkey_names_modifier(h, MOD_WIN);
}

/// More keys that are down never make a held bind count as released.
pub proof fn law_more_modifiers_keep_a_bind_held(h: Hotkey, keys: ModifierKeys, more: ModifierKeys)
    requires
        held(h, true, keys),
        keys.ctrl ==> more.ctrl,
        keys.alt ==> more.alt,
        keys.shift ==> more.shift,
        keys.left_win || keys.right_win ==> more.left_win || more.right_win,
    ensures
        held(h, true, more),
{
}

/// A bind without modifiers is held whenever its key is down.
pub proof fn law_single_key_bind_needs_its_key_only(h: Hotkey, key_down: bool, keys: ModifierKeys)
    requires
        normalized(h.modifiers) == 0,
    ensures
        held(h, key_down, keys) == key_down,
{
    let m = h.modifiers;
    assert(normalized(m) == 0 ==> !has_bit(m, MOD_CONTROL) && !has_bit(m, MOD_ALT) && !has_bit(
        m,
        MOD_SHIFT,
    ) && !has_bit(m, MOD_WIN)) by (bit_vector);
}

/// Shift does not matter for a bind on a letter.
pub proof fn law_shift_does_not_matter_on_a_letter(
    h: Hotkey,
    key_down: bool,
    keys: ModifierKeys,
    shift: bool,
)
    requires
        letter_vk(h.vk),
    ensures
        held(h, key_down, ModifierKeys { shift, ..keys }) == held(h, key_down, keys),
{
}

proof fn lemma_upper_key_token(ts: Seq<Seq<char>>)
    ensures
        key_of(ts.map_values(|t: Seq<char>| upper(t))) == key_of(ts),
    decreases ts.len(),
{
    let us = ts.map_values(|t: Seq<char>| upper(t));
    if ts.len() > 0 {
        lemma_upper_twice(ts.last());
        assert(us.drop_last() =~= ts.drop_last().map_values(|t: Seq<char>| upper(t)));
        lemma_upper_key_token(ts.drop_last());
        law_case_of_a_key_name_does_not_matter(ts.last());
    }
}

proof fn lemma_upper_names_modifier(ts: Seq<Seq<char>>, bit: u32)
    ensures
        names_modifier(ts.map_values(|t: Seq<char>| upper(t)), bit) == names_modifier(ts, bit),
{
    let us = ts.map_values(|t: Seq<char>| upper(t));
    assert forall|i: int| 0 <= i < ts.len() implies token_modifier(#[trigger] us[i])
        == token_modifier(ts[i]) by {
        lemma_upper_twice(ts[i]);
    }
    if names_modifier(ts, bit) {
        let i = choose|i: int| 0 <= i < ts.len() && token_modifier(#[trigger] ts[i]) == Some(bit);
        assert(token_modifier(us[i]) == Some(bit));
    }
}

/// The case of a written bind does not matter.
pub proof fn law_case_of_a_bind_does_not_matter(s: Seq<char>)
    ensures
        written_hotkey(upper(s)) == written_hotkey(s),
{
    let ts = tokens(s);
    let us = tokens(upper(s));
    lemma_upper_split(s, '+');
    assert forall|i: int| 0 <= i < ts.len() implies #[trigger] us[i] == upper(ts[i]) by {
        lemma_upper_trimmed(split_on(s, '+')[i]);
    }
    assert(us =~= ts.map_values(|t: Seq<char>| upper(t)));
    lemma_upper_key_token(ts);
    lemma_upper_names_modifier(ts, MOD_CONTROL);
    lemma_upper_names_modifier(ts, MOD_ALT);
    lemma_upper_names_modifier(ts, MOD_SHIFT);
    lemma_upper_names_modifier(ts, MOD_WIN);
}

/// The bits are those that the system gives the modifiers, each its own.
pub proof fn law_modifier_bits()
    ensures
        MOD_ALT == 1,
        MOD_CONTROL == 2,
        MOD_SHIFT == 4,
        MOD_WIN == 8,
        MOD_NOREPEAT == 16384,
{
}

/// The bits of the keys that are down tell each modifier, and hold nothing else.
pub proof fn law_bits_tell_the_modifiers(keys: ModifierKeys)
    ensures
        (keys.bits() & 2u32 != 0) == keys.ctrl,
        (keys.bits() & 1u32 != 0) == keys.alt,
        (keys.bits() & 4u32 != 0) == keys.shift,
        (keys.bits() & 8u32 != 0) == (keys.left_win || keys.right_win),
        keys.bits() < 16,
{
    lemma_mask_bits(keys.ctrl, keys.alt, keys.shift, keys.left_win || keys.right_win);
}

/// The bits of a mask.
pub proof fn lemma_mask_bits(c: bool, a: bool, s: bool, w: bool)
    ensures
        (mask(c, a, s, w) & 2u32 != 0) == c,
        (mask(c, a, s, w) & 1u32 != 0) == a,
        (mask(c, a, s, w) & 4u32 != 0) == s,
        (mask(c, a, s, w) & 8u32 != 0) == w,
        mask(c, a, s, w) < 16,
{
    assert({
        &&& (mask(c, a, s, w) & 2u32 != 0) == c
        &&& (mask(c, a, s, w) & 1u32 != 0) == a
        &&& (mask(c, a, s, w) & 4u32 != 0) == s
        &&& (mask(c, a, s, w) & 8u32 != 0) == w
        &&& mask(c, a, s, w) < 16
    }) by (bit_vector);
}

/// Of any bits the lowest four are kept.
pub proof fn law_the_lowest_four_bits_are_kept(m: u32)
    ensures
        normalized(m) == m % 16,
        normalized(m) == m & 15u32,
{
    assert(normalized(m) == m % 16 && normalized(m) == m & 15u32) by (bit_vector);
}

/// A bind is not held while its key is up, nor while one of its modifiers is. Only Shift on a
/// letter may be up.
pub proof fn law_a_bind_is_not_held_without_its_keys(h: Hotkey, key_down: bool, keys: ModifierKeys)
    ensures
        !key_down ==> !held(h, key_down, keys),
        h.modifiers & 1u32 != 0 && !keys.alt ==> !held(h, key_down, keys),
        h.modifiers & 2u32 != 0 && !keys.ctrl ==> !held(h, key_down, keys),
        h.modifiers & 8u32 != 0 && !keys.left_win && !keys.right_win ==> !held(h, key_down, keys),
        h.modifiers & 4u32 != 0 && !keys.shift && (h.vk < 65 || h.vk > 90) ==> !held(
            h,
            key_down,
            keys,
        ),
{
}

/// A bind is held once its key and its modifiers are down, whatever else is. On a letter Shift
/// is not needed, and either Windows key will do.
pub proof fn law_a_bind_is_held_with_its_keys(h: Hotkey, keys: ModifierKeys)
    requires
        h.modifiers & 1u32 != 0 ==> keys.alt,
        h.modifiers & 2u32 != 0 ==> keys.ctrl,
        h.modifiers & 8u32 != 0 ==> keys.left_win || keys.right_win,
        h.modifiers & 4u32 != 0 ==> keys.shift || 65 <= h.vk <= 90,
    ensures
        held(h, true, keys),
{
}

/// Of the bits of a bind only the lowest four matter to whether it is held.
pub proof fn law_other_bits_do_not_matter(h: Hotkey, m: u32, key_down: bool, keys: ModifierKeys)
    requires
        h.modifiers % 16 == m % 16,
    ensures
        held(h, key_down, keys) == held(Hotkey { modifiers: m, ..h }, key_down, keys),
{
    let n = h.modifiers;
    assert(n % 16 == m % 16 ==> n & 1u32 == m & 1u32 && n & 2u32 == m & 2u32 && n & 4u32 == m & 4u32
        && n & 8u32 == m & 8u32) by (bit_vector);
}

proof fn lemma_without_bit(m: u32, bit: u32)
    requires
        bit == 1 || bit == 2 || bit == 4 || bit == 8,
    ensures
        (m & !bit) & bit == 0,
        bit != 1 ==> (m & !bit) & 1u32 == m & 1u32,
        bit != 2 ==> (m & !bit) & 2u32 == m & 2u32,
        bit != 4 ==> (m & !bit) & 4u32 == m & 4u32,
        bit != 8 ==> (m & !bit) & 8u32 == m & 8u32,
{
    assert({
        &&& (m & !bit) & bit == 0
        &&& bit != 1 ==> (m & !bit) & 1u32 == m & 1u32
        &&& bit != 2 ==> (m & !bit) & 2u32 == m & 2u32
        &&& bit != 4 ==> (m & !bit) & 4u32 == m & 4u32
        &&& bit != 8 ==> (m & !bit) & 8u32 == m & 8u32
    }) by (bit_vector)
        requires
            bit == 1 || bit == 2 || bit == 4 || bit == 8,
    ;
}

/// A bind is written as its first modifier, a plus sign and the bind without that modifier.
/// Control comes before Alt, Alt before Shift, and Shift before Windows. A bind without
/// modifiers is written as its key.
pub proof fn law_a_bind_is_written_modifier_by_modifier(h: Hotkey)
    ensures
        ({
            let m = h.modifiers;
            &&& m & 2u32 != 0 ==> h.text() == "Ctrl+"@ + (Hotkey {
                modifiers: m & !2u32,
                ..h
            }).text()
            &&& m & 2u32 == 0 && m & 1u32 != 0 ==> h.text() == "Alt+"@ + (Hotkey {
                modifiers: m & !1u32,
                ..h
            }).text()
            &&& m & 2u32 == 0 && m & 1u32 == 0 && m & 4u32 != 0 ==> h.text() == "Shift+"@ + (
            Hotkey { modifiers: m & !4u32, ..h }).text()
            &&& m & 2u32 == 0 && m & 1u32 == 0 && m & 4u32 == 0 && m & 8u32 != 0 ==> h.text()
                == "Win+"@ + (Hotkey { modifiers: m & !8u32, ..h }).text()
            &&& m & 2u32 == 0 && m & 1u32 == 0 && m & 4u32 == 0 && m & 8u32 == 0 ==> h.text()
                == key_name(h.vk)
        }),
{
    let m = h.modifiers;
    if m & 2u32 != 0 {
        lemma_without_bit(m, 2);
        assert(h.text() =~= "Ctrl+"@ + (Hotkey { modifiers: m & !2u32, ..h }).text());
    } else if m & 1u32 != 0 {
        lemma_without_bit(m, 1);
        assert(h.text() =~= "Alt+"@ + (Hotkey { modifiers: m & !1u32, ..h }).text());
    } else if m & 4u32 != 0 {
        lemma_without_bit(m, 4);
        assert(h.text() =~= "Shift+"@ + (Hotkey { modifiers: m & !4u32, ..h }).text());
    } else if m & 8u32 != 0 {
        lemma_without_bit(m, 8);
        assert(h.text() =~= "Win+"@ + (Hotkey { modifiers: m & !8u32, ..h }).text());
    } else {
        assert(h.text() =~= key_name(h.vk));
    }
}

/// Whether one of the parts of a written bind is the word `a` or the word `b`, whatever the
/// case and the white space around it.
pub open spec fn some_part_is(s: Seq<char>, a: Seq<char>, b: Seq<char>) -> bool {
    exists|i: int|
        0 <= i < split_on(s, '+').len() && (upper(trimmed(#[trigger] split_on(s, '+')[i])) == a
            || upper(trimmed(split_on(s, '+')[i])) == b)
}

/// The six words, told apart by their characters.
proof fn lemma_words_differ()
    ensures
        "CTRL"@ != "ALT"@ && "CTRL"@ != "SHIFT"@ && "CTRL"@ != "WIN"@ && "CTRL"@ != "WINDOWS"@,
        "CONTROL"@ != "ALT"@ && "CONTROL"@ != "SHIFT"@ && "CONTROL"@ != "WIN"@,
        "CONTROL"@ != "WINDOWS"@ && "ALT"@ != "SHIFT"@ && "ALT"@ != "WIN"@ && "ALT"@ != "WINDOWS"@,
        "SHIFT"@ != "WIN"@ && "SHIFT"@ != "WINDOWS"@,
{
    reveal_strlit("CTRL");
    reveal_strlit("CONTROL");
    reveal_strlit("ALT");
    reveal_strlit("SHIFT");
    reveal_strlit("WIN");
    reveal_strlit("WINDOWS");
    assert("CTRL"@[0] == 'C' && "CONTROL"@[0] == 'C' && "ALT"@[0] == 'A' && "SHIFT"@[0] == 'S');
    assert("WIN"@[0] == 'W' && "WINDOWS"@[0] == 'W');
}

proof fn lemma_some_part_is(s: Seq<char>, a: Seq<char>, b: Seq<char>, bit: u32)
    requires
        forall|t: Seq<char>| #[trigger]
            token_modifier(t) == Some(bit) <==> upper(t) == a || upper(t) == b,
    ensures
        names_modifier(tokens(s), bit) == some_part_is(s, a, b),
{
    let ts = tokens(s);
    let ps = split_on(s, '+');
    assert forall|i: int| 0 <= i < ps.len() implies #[trigger] ts[i] == trimmed(ps[i]) by {}
    if names_modifier(ts, bit) {
        let i = choose|i: int| 0 <= i < ts.len() && token_modifier(#[trigger] ts[i]) == Some(bit);
        assert(upper(trimmed(ps[i])) == a || upper(trimmed(ps[i])) == b);
    }
    if some_part_is(s, a, b) {
        let i = choose|i: int|
            0 <= i < split_on(s, '+').len() && (upper(trimmed(#[trigger] split_on(s, '+')[i])) == a
                || upper(trimmed(split_on(s, '+')[i])) == b);
        assert(ts[i] == trimmed(ps[i]));
        assert(token_modifier(ts[i]) == Some(bit));
    }
}

/// A bind that is read has just those modifiers that one of its parts names.
pub proof fn law_a_bind_has_the_modifiers_that_it_names(s: Seq<char>)
    ensures
        written_hotkey(s) matches Some(h) ==> {
            &&& (h.modifiers & 2u32 != 0) == some_part_is(s, "CTRL"@, "CONTROL"@)
            &&& (h.modifiers & 1u32 != 0) == some_part_is(s, "ALT"@, "ALT"@)
            &&& (h.modifiers & 4u32 != 0) == some_part_is(s, "SHIFT"@, "SHIFT"@)
            &&& (h.modifiers & 8u32 != 0) == some_part_is(s, "WIN"@, "WINDOWS"@)
            &&& h.modifiers < 16
        },
{
    let ts = tokens(s);
    lemma_words_differ();
    lemma_some_part_is(s, "CTRL"@, "CONTROL"@, MOD_CONTROL);
    lemma_some_part_is(s, "ALT"@, "ALT"@, MOD_ALT);
    lemma_some_part_is(s, "SHIFT"@, "SHIFT"@, MOD_SHIFT);
    lemma_some_part_is(s, "WIN"@, "WINDOWS"@, MOD_WIN);
    lemma_mask_bits(
        names_modifier(ts, MOD_CONTROL),
        names_modifier(ts, MOD_ALT),
        names_modifier(ts, MOD_SHIFT),
        names_modifier(ts, MOD_WIN),
    );
}

proof fn lemma_key_token_at(ts: Seq<Seq<char>>, k: int)
    requires
        0 <= k < ts.len(),
        token_modifier(ts[k]) is None,
        forall|j: int| k < j < ts.len() ==> token_modifier(#[trigger] ts[j]) is Some,
    ensures
        key_token(ts) == Some(ts[k]),
    decreases ts.len(),
{
    if k < ts.len() - 1 {
        assert(token_modifier(ts[ts.len() - 1]) is Some);
        lemma_key_token_at(ts.drop_last(), k);
    }
}

proof fn lemma_no_key_token(ts: Seq<Seq<char>>)
    requires
        forall|j: int| 0 <= j < ts.len() ==> token_modifier(#[trigger] ts[j]) is Some,
    ensures
        key_token(ts) is None,
    decreases ts.len(),
{
    if ts.len() > 0 {
        assert(token_modifier(ts[ts.len() - 1]) is Some);
        lemma_no_key_token(ts.drop_last());
    }
}

/// The last part that is no word for a modifier has to name the key: the bind is read where it
/// does, with that key.
pub proof fn law_the_last_other_part_is_the_key(s: Seq<char>, k: int)
    requires
        0 <= k < split_on(s, '+').len(),
        !is_modifier_word(upper(trimmed(split_on(s, '+')[k]))),
        forall|j: int|
            k < j < split_on(s, '+').len() ==> is_modifier_word(
                upper(trimmed(#[trigger] split_on(s, '+')[j])),
            ),
    ensures
        written_hotkey(s) is Some == named_vk(trimmed(split_on(s, '+')[k])) is Some,
        written_hotkey(s) matches Some(h) ==> named_vk(trimmed(split_on(s, '+')[k])) == Some(h.vk),
{
    let ts = tokens(s);
    assert forall|j: int| k < j < ts.len() implies token_modifier(#[trigger] ts[j]) is Some by {
        assert(is_modifier_word(upper(trimmed(split_on(s, '+')[j]))));
    }
    lemma_key_token_at(ts, k);
    law_named_keys_are_no_modifiers(trimmed(split_on(s, '+')[k]));
}

/// Words for modifiers alone are no bind.
pub proof fn law_a_bind_needs_a_key(s: Seq<char>)
    requires
        forall|j: int|
            0 <= j < split_on(s, '+').len() ==> is_modifier_word(
                upper(trimmed(#[trigger] split_on(s, '+')[j])),
            ),
    ensures
        written_hotkey(s) is None,
{
    let ts = tokens(s);
    assert forall|j: int| 0 <= j < ts.len() implies token_modifier(#[trigger] ts[j]) is Some by {
        assert(is_modifier_word(upper(trimmed(split_on(s, '+')[j]))));
    }
    lemma_no_key_token(ts);
}

} // verus!
