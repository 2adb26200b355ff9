//! Chords written with the short lower-case key names, read into sets of
//! key codes, and the test of a chord against the keys that are held.

use crate::keycodes::{
    KeyCode, VK_0, VK_1, VK_2, VK_3, VK_4, VK_5, VK_6, VK_7, VK_8, VK_9, VK_BACK, VK_CAPITAL,
    VK_DELETE, VK_DOWN, VK_END, VK_ESCAPE, VK_F1, VK_F10, VK_F11, VK_F12, VK_F13, VK_F14,
    VK_F15, VK_F16, VK_F17, VK_F18, VK_F19, VK_F2, VK_F20, VK_F21, VK_F22, VK_F23, VK_F24,
    VK_F3, VK_F4, VK_F5, VK_F6, VK_F7, VK_F8, VK_F9, VK_HOME, VK_INSERT, VK_LCONTROL, VK_LEFT,
    VK_LMENU, VK_LSHIFT, VK_NEXT, VK_NUMLOCK, VK_OEM_1, VK_OEM_2, VK_OEM_3, VK_OEM_4, VK_OEM_5,
    VK_OEM_6, VK_OEM_7, VK_OEM_COMMA, VK_OEM_MINUS, VK_OEM_PERIOD, VK_OEM_PLUS, VK_PRIOR,
    VK_RCONTROL, VK_RETURN, VK_RIGHT, VK_RMENU, VK_RSHIFT, VK_SCROLL, VK_SPACE, VK_TAB, VK_UP,
    VK_VOLUME_DOWN, VK_VOLUME_MUTE, VK_VOLUME_UP,
};
use crate::key::{contains_code, first_known};
use crate::key_state::codes_in;
use crate::text::{
    chars_of, lowercase_of, split_on, split_span, str_eq, to_lowercase, trim_span, trimmed, Span,
};
use std::collections::HashSet;
use vstd::prelude::*;

verus! {

broadcast use vstd::std_specs::hash::group_hash_axioms;

/// The code of `name` where it names a modifier; each name stands for the
/// left-hand key.
pub open spec fn modifier_name_code(name: Seq<char>) -> Option<KeyCode> {
    if name == "ctrl"@ {
        Some(VK_LCONTROL)
    } else if name == "shift"@ {
        Some(VK_LSHIFT)
    } else if name == "alt"@ {
        Some(VK_LMENU)
    } else {
        None
    }
}

fn modifier_name(name: &str) -> (r: Option<KeyCode>)
    ensures
        r == modifier_name_code(name@),
{
    if str_eq(name, "ctrl") {
        Some(VK_LCONTROL)
    } else if str_eq(name, "shift") {
        Some(VK_LSHIFT)
    } else if str_eq(name, "alt") {
        Some(VK_LMENU)
    } else {
        None
    }
}

/// The code of `name` where it names an arrow or paging key.
pub open spec fn navigation_name_code(name: Seq<char>) -> Option<KeyCode> {
    if name == "up"@ {
        Some(VK_UP)
    } else if name == "down"@ {
        Some(VK_DOWN)
    } else if name == "left"@ {
        Some(VK_LEFT)
    } else if name == "right"@ {
        Some(VK_RIGHT)
    } else if name == "home"@ {
        Some(VK_HOME)
    } else if name == "end"@ {
        Some(VK_END)
    } else if name == "pageup"@ {
        Some(VK_PRIOR)
    } else if name == "pagedown"@ {
        Some(VK_NEXT)
    } else {
        None
    }
}

fn navigation_name(name: &str) -> (r: Option<KeyCode>)
    ensures
        r == navigation_name_code(name@),
{
    if str_eq(name, "up") {
        Some(VK_UP)
    } else if str_eq(name, "down") {
        Some(VK_DOWN)
    } else if str_eq(name, "left") {
        Some(VK_LEFT)
    } else if str_eq(name, "right") {
        Some(VK_RIGHT)
    } else if str_eq(name, "home") {
        Some(VK_HOME)
    } else if str_eq(name, "end") {
        Some(VK_END)
    } else if str_eq(name, "pageup") {
        Some(VK_PRIOR)
    } else if str_eq(name, "pagedown") {
        Some(VK_NEXT)
    } else {
        None
    }
}

/// The code of `name` where it names an editing key.
pub open spec fn editing_name_code(name: Seq<char>) -> Option<KeyCode> {
    if name == "backspace"@ {
        Some(VK_BACK)
    } else if name == "tab"@ {
        Some(VK_TAB)
    } else if name == "enter"@ {
        Some(VK_RETURN)
    } else if name == "escape"@ {
        Some(VK_ESCAPE)
    } else if name == "space"@ {
        Some(VK_SPACE)
    } else if name == "delete"@ {
        Some(VK_DELETE)
    } else if name == "insert"@ {
        Some(VK_INSERT)
    } else {
        None
    }
}

fn editing_name(name: &str) -> (r: Option<KeyCode>)
    ensures
        r == editing_name_code(name@),
{
    if str_eq(name, "backspace") {
        Some(VK_BACK)
    } else if str_eq(name, "tab") {
        Some(VK_TAB)
    } else if str_eq(name, "enter") {
        Some(VK_RETURN)
    } else if str_eq(name, "escape") {
        Some(VK_ESCAPE)
    } else if str_eq(name, "space") {
        Some(VK_SPACE)
    } else if str_eq(name, "delete") {
        Some(VK_DELETE)
    } else if str_eq(name, "insert") {
        Some(VK_INSERT)
    } else {
        None
    }
}

/// The code of `name` where it names a key of the digit row.
pub open spec fn digit_row_name_code(name: Seq<char>) -> Option<KeyCode> {
    if name == "num0"@ {
        Some(VK_0)
    } else if name == "num1"@ {
        Some(VK_1)
    } else if name == "num2"@ {
        Some(VK_2)
    } else if name == "num3"@ {
        Some(VK_3)
    } else if name == "num4"@ {
        Some(VK_4)
    } else if name == "num5"@ {
        Some(VK_5)
    } else if name == "num6"@ {
        Some(VK_6)
    } else if name == "num7"@ {
        Some(VK_7)
    } else if name == "num8"@ {
        Some(VK_8)
    } else if name == "num9"@ {
        Some(VK_9)
    } else {
        None
    }
}

fn digit_row_name(name: &str) -> (r: Option<KeyCode>)
    ensures
        r == digit_row_name_code(name@),
{
    if str_eq(name, "num0") {
        Some(VK_0)
    } else if str_eq(name, "num1") {
        Some(VK_1)
    } else if str_eq(name, "num2") {
        Some(VK_2)
    } else if str_eq(name, "num3") {
        Some(VK_3)
    } else if str_eq(name, "num4") {
        Some(VK_4)
    } else if str_eq(name, "num5") {
        Some(VK_5)
    } else if str_eq(name, "num6") {
        Some(VK_6)
    } else if str_eq(name, "num7") {
        Some(VK_7)
    } else if str_eq(name, "num8") {
        Some(VK_8)
    } else if str_eq(name, "num9") {
        Some(VK_9)
    } else {
        None
    }
}

/// The code of `name` where it names one of the function keys `f1` to `f24`.
pub open spec fn function_name_code(name: Seq<char>) -> Option<KeyCode> {
    if name == "f1"@ {
        Some(VK_F1)
    } else if name == "f2"@ {
        Some(VK_F2)
    } else if name == "f3"@ {
        Some(VK_F3)
    } else if name == "f4"@ {
        Some(VK_F4)
    } else if name == "f5"@ {
        Some(VK_F5)
    } else if name == "f6"@ {
        Some(VK_F6)
    } else if name == "f7"@ {
        Some(VK_F7)
    } else if name == "f8"@ {
        Some(VK_F8)
    } else if name == "f9"@ {
        Some(VK_F9)
    } else if name == "f10"@ {
        Some(VK_F10)
    } else if name == "f11"@ {
        Some(VK_F11)
    } else if name == "f12"@ {
        Some(VK_F12)
    } else if name == "f13"@ {
        Some(VK_F13)
    } else if name == "f14"@ {
        Some(VK_F14)
    } else if name == "f15"@ {
        Some(VK_F15)
    } else if name == "f16"@ {
        Some(VK_F16)
    } else if name == "f17"@ {
        Some(VK_F17)
    } else if name == "f18"@ {
        Some(VK_F18)
    } else if name == "f19"@ {
        Some(VK_F19)
    } else if name == "f20"@ {
        Some(VK_F20)
    } else if name == "f21"@ {
        Some(VK_F21)
    } else if name == "f22"@ {
        Some(VK_F22)
    } else if name == "f23"@ {
        Some(VK_F23)
    } else if name == "f24"@ {
        Some(VK_F24)
    } else {
        None
    }
}

fn function_name(name: &str) -> (r: Option<KeyCode>)
    ensures
        r == function_name_code(name@),
{
    if str_eq(name, "f1") {
        Some(VK_F1)
    } else if str_eq(name, "f2") {
        Some(VK_F2)
    } else if str_eq(name, "f3") {
        Some(VK_F3)
    } else if str_eq(name, "f4") {
        Some(VK_F4)
    } else if str_eq(name, "f5") {
        Some(VK_F5)
    } else if str_eq(name, "f6") {
        Some(VK_F6)
    } else if str_eq(name, "f7") {
        Some(VK_F7)
    } else if str_eq(name, "f8") {
        Some(VK_F8)
    } else if str_eq(name, "f9") {
        Some(VK_F9)
    } else if str_eq(name, "f10") {
        Some(VK_F10)
    } else if str_eq(name, "f11") {
        Some(VK_F11)
    } else if str_eq(name, "f12") {
        Some(VK_F12)
    } else if str_eq(name, "f13") {
        Some(VK_F13)
    } else if str_eq(name, "f14") {
        Some(VK_F14)
    } else if str_eq(name, "f15") {
        Some(VK_F15)
    } else if str_eq(name, "f16") {
        Some(VK_F16)
    } else if str_eq(name, "f17") {
        Some(VK_F17)
    } else if str_eq(name, "f18") {
        Some(VK_F18)
    } else if str_eq(name, "f19") {
        Some(VK_F19)
    } else if str_eq(name, "f20") {
        Some(VK_F20)
    } else if str_eq(name, "f21") {
        Some(VK_F21)
    } else if str_eq(name, "f22") {
        Some(VK_F22)
    } else if str_eq(name, "f23") {
        Some(VK_F23)
    } else if str_eq(name, "f24") {
        Some(VK_F24)
    } else {
        None
    }
}

/// The code of `name` where it names a lock key.
pub open spec fn lock_name_code(name: Seq<char>) -> Option<KeyCode> {
    if name == "numlock"@ {
        Some(VK_NUMLOCK)
    } else if name == "capslock"@ {
        Some(VK_CAPITAL)
    } else if name == "scrolllock"@ {
        Some(VK_SCROLL)
    } else {
        None
    }
}

fn lock_name(name: &str) -> (r: Option<KeyCode>)
    ensures
        r == lock_name_code(name@),
{
    if str_eq(name, "numlock") {
        Some(VK_NUMLOCK)
    } else if str_eq(name, "capslock") {
        Some(VK_CAPITAL)
    } else if str_eq(name, "scrolllock") {
        Some(VK_SCROLL)
    } else {
        None
    }
}

/// The code of `name` where it names a punctuation key.
pub open spec fn punctuation_name_code(name: Seq<char>) -> Option<KeyCode> {
    if name == "semicolon"@ {
        Some(VK_OEM_1)
    } else if name == "equal"@ {
        Some(VK_OEM_PLUS)
    } else if name == "minus"@ {
        Some(VK_OEM_MINUS)
    } else if name == "period"@ {
        Some(VK_OEM_PERIOD)
    } else if name == "comma"@ {
        Some(VK_OEM_COMMA)
    } else if name == "slash"@ {
        Some(VK_OEM_2)
    } else if name == "backtick"@ {
        Some(VK_OEM_3)
    } else if name == "quote"@ {
        Some(VK_OEM_7)
    } else if name == "backslash"@ {
        Some(VK_OEM_5)
    } else if name == "lbracket"@ {
        Some(VK_OEM_4)
    } else if name == "rbracket"@ {
        Some(VK_OEM_6)
    } else {
        None
    }
}

fn punctuation_name(name: &str) -> (r: Option<KeyCode>)
    ensures
        r == punctuation_name_code(name@),
{
    if str_eq(name, "semicolon") {
        Some(VK_OEM_1)
    } else if str_eq(name, "equal") {
        Some(VK_OEM_PLUS)
    } else if str_eq(name, "minus") {
        Some(VK_OEM_MINUS)
    } else if str_eq(name, "period") {
        Some(VK_OEM_PERIOD)
    } else if str_eq(name, "comma") {
        Some(VK_OEM_COMMA)
    } else if str_eq(name, "slash") {
        Some(VK_OEM_2)
    } else if str_eq(name, "backtick") {
        Some(VK_OEM_3)
    } else if str_eq(name, "quote") {
        Some(VK_OEM_7)
    } else if str_eq(name, "backslash") {
        Some(VK_OEM_5)
    } else if str_eq(name, "lbracket") {
        Some(VK_OEM_4)
    } else if str_eq(name, "rbracket") {
        Some(VK_OEM_6)
    } else {
        None
    }
}

/// The code of `name` where it names a volume key.
pub open spec fn volume_name_code(name: Seq<char>) -> Option<KeyCode> {
    if name == "volumemute"@ {
        Some(VK_VOLUME_MUTE)
    } else if name == "volumedown"@ {
        Some(VK_VOLUME_DOWN)
    } else if name == "volumeup"@ {
        Some(VK_VOLUME_UP)
    } else {
        None
    }
}

fn volume_name(name: &str) -> (r: Option<KeyCode>)
    ensures
        r == volume_name_code(name@),
{
    if str_eq(name, "volumemute") {
        Some(VK_VOLUME_MUTE)
    } else if str_eq(name, "volumedown") {
        Some(VK_VOLUME_DOWN)
    } else if str_eq(name, "volumeup") {
        Some(VK_VOLUME_UP)
    } else {
        None
    }
}
/// The code of `name` where it is a single letter `a` to `z`.
pub open spec fn letter_name_code(name: Seq<char>) -> Option<KeyCode> {
    if name.len() == 1 && 'a' <= name[0] <= 'z' {
        Some((name[0] as u32 - 0x20) as u32)
    } else {
        None
    }
}

fn letter_name(name: &str) -> (r: Option<KeyCode>)
    ensures
        r == letter_name_code(name@),
{
    if name.unicode_len() != 1 {
        return None;
    }
    let c = name.get_char(0);
    if 'a' <= c && c <= 'z' {
        Some(c as u32 - 0x20)
    } else {
        None
    }
}

/// The code that a lower-case key name stands for, if it is a known name.
pub open spec fn chord_key_code(name: Seq<char>) -> Option<KeyCode> {
    first_known(
        modifier_name_code(name),
        first_known(
            navigation_name_code(name),
            first_known(
                editing_name_code(name),
                first_known(
                    digit_row_name_code(name),
                    first_known(
                        letter_name_code(name),
                        first_known(
                            function_name_code(name),
                            first_known(
                                lock_name_code(name),
                                first_known(punctuation_name_code(name), volume_name_code(name)),
                            ),
                        ),
                    ),
                ),
            ),
        ),
    )
}

/// Looks up a key name that is already in lower case.
pub fn chord_key_for(name: &str) -> (r: Option<KeyCode>)
    ensures
        r == chord_key_code(name@),
{
    let found = modifier_name(name);
    if found.is_some() {
        return found;
    }
    let found = navigation_name(name);
    if found.is_some() {
        return found;
    }
    let found = editing_name(name);
    if found.is_some() {
        return found;
    }
    let found = digit_row_name(name);
    if found.is_some() {
        return found;
    }
    let found = letter_name(name);
    if found.is_some() {
        return found;
    }
    let found = function_name(name);
    if found.is_some() {
        return found;
    }
    let found = lock_name(name);
    if found.is_some() {
        return found;
    }
    let found = punctuation_name(name);
    if found.is_some() {
        return found;
    }
    volume_name(name)
}

/// The code that one piece of a chord string stands for: the piece is
/// trimmed and put in lower case before it is looked up.
pub open spec fn chord_piece_code(piece: Seq<char>) -> Option<KeyCode> {
    chord_key_code(lowercase_of(trimmed(piece)))
}

/// The key codes that a chord string names. Pieces that name no known key
/// contribute nothing.
pub open spec fn chord_codes(s: Seq<char>) -> Set<KeyCode> {
    let pieces = split_on(s, '+');
    Set::new(
        |code: KeyCode|
            exists|i: int| 0 <= i < pieces.len() && chord_piece_code(#[trigger] pieces[i]) == Some(code),
    )
}

/// Reads a chord such as `ctrl+shift+m` into the set of the codes of its
/// keys. Names that are not known are left out.
pub fn parse_key_chord(chord: &str) -> (keys: HashSet<KeyCode>)
    ensures
        keys@ == chord_codes(chord@),
{
    let chars = chars_of(chord);
    let whole = Span { start: 0, end: chars.len() };
    assert(whole.of(chars@) =~= chord@);
    let spans = split_span(&chars, whole, '+');
    let ghost pieces = split_on(chord@, '+');
    let mut keys: HashSet<KeyCode> = HashSet::new();
    let mut i: usize = 0;
    while i < spans.len()
        invariant
            chars@ == chord@,
            pieces == split_on(chord@, '+'),
            pieces.len() == spans@.len(),
            i <= spans@.len(),
            forall|k: int| 0 <= k < spans@.len() ==> (#[trigger] spans@[k]).within(chars@.len()),
            forall|k: int| 0 <= k < spans@.len() ==> (#[trigger] spans@[k]).of(chars@) == pieces[k],
            forall|code: KeyCode|
                keys@.contains(code) <==> exists|k: int|
                    0 <= k < i && chord_piece_code(#[trigger] pieces[k]) == Some(code),
        decreases spans@.len() - i,
    {
        let name_span = trim_span(&chars, spans[i]);
        let name = chord.substring_char(name_span.start, name_span.end);
        let lower = to_lowercase(name);
        let found = chord_key_for(lower.as_str());
        assert(found == chord_piece_code(pieces[i as int]));
        let ghost before = keys@;
        match found {
            Some(code) => {
                keys.insert(code);
            },
            None => {},
        }
        proof {
            assert forall|c: KeyCode| keys@.contains(c) implies exists|k: int|
                0 <= k < i + 1 && chord_piece_code(#[trigger] pieces[k]) == Some(c) by {
                if before.contains(c) {
                    let k = choose|k: int|
                        0 <= k < i && chord_piece_code(#[trigger] pieces[k]) == Some(c);
                    assert(0 <= k < i + 1);
                } else {
                    assert(chord_piece_code(pieces[i as int]) == Some(c));
                }
            }
            assert forall|c: KeyCode|
                (exists|k: int|
                    0 <= k < i + 1 && chord_piece_code(#[trigger] pieces[k]) == Some(
                        c,
                    )) implies keys@.contains(c) by {
                let k = choose|k: int|
                    0 <= k < i + 1 && chord_piece_code(#[trigger] pieces[k]) == Some(c);
                if k < i {
                    assert(before.contains(c));
                }
            }
        }
        i = i + 1;
    }
    assert(keys@ =~= chord_codes(chord@));
    keys
}

/// A chord of codes is held when it has at least one code and every one of
/// its codes is among those pressed. A chord without codes is never held.
pub open spec fn chord_held(chord: Set<KeyCode>, pressed: Set<KeyCode>) -> bool {
    !chord.is_empty() && chord.subset_of(pressed)
}

/// Whether `chord` has keys and every one of them is among `pressed`.
pub fn is_chord_pressed(chord: &HashSet<KeyCode>, pressed: &Vec<KeyCode>) -> (r: bool)
    ensures
        r == chord_held(chord@, pressed@.to_set()),
{
    let codes = codes_in(chord);
    if codes.len() == 0 {
        assert(chord@ =~= Set::<KeyCode>::empty());
        return false;
    }
    assert(chord@.contains(codes@[0]));
    let mut i: usize = 0;
    while i < codes.len()
        invariant
            i <= codes@.len(),
            codes@.to_set() == chord@,
            forall|k: int| 0 <= k < i ==> pressed@.contains(#[trigger] codes@[k]),
        decreases codes@.len() - i,
    {
        if !contains_code(pressed, codes[i]) {
            proof {
                assert(codes@.to_set().contains(codes@[i as int]));
            }
            return false;
        }
        i = i + 1;
    }
    proof {
        assert forall|c: KeyCode| chord@.contains(c) implies pressed@.to_set().contains(c) by {
            assert(codes@.to_set().contains(c));
            let j = choose|j: int| 0 <= j < codes@.len() && codes@[j] == c;
            assert(pressed@.contains(codes@[j]));
        }
    }
    true
}

/// Whether `key` is a control, shift or alt key of either hand.
pub open spec fn is_modifier(key: KeyCode) -> bool {
    key == VK_LCONTROL || key == VK_RCONTROL || key == VK_LSHIFT || key == VK_RSHIFT || key
        == VK_LMENU || key == VK_RMENU
}

/// Tells whether `key` is a control, shift or alt key of either hand.
pub fn is_modifier_key(key: KeyCode) -> (r: bool)
    ensures
        r == is_modifier(key),
{
    key == VK_LCONTROL || key == VK_RCONTROL || key == VK_LSHIFT || key == VK_RSHIFT || key
        == VK_LMENU || key == VK_RMENU
}

} // verus!
