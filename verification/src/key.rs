//! Keys, key names and chords.
//!
//! A chord is a group of keys that must be held together. Chords are written
//! as key names joined by `+`, for example `Ctrl + Shift + M`; names are
//! matched without regard to case.

use crate::keycodes::{
    KeyCode, VK_ADD, VK_APPS, VK_BACK, VK_CANCEL, VK_CAPITAL, VK_CONTROL, VK_DECIMAL, VK_DELETE,
    VK_DIVIDE, VK_DOWN, VK_END, VK_ESCAPE, VK_F1, VK_F10, VK_F11, VK_F12, VK_F2, VK_F3, VK_F4,
    VK_F5, VK_F6, VK_F7, VK_F8, VK_F9, VK_HOME, VK_INSERT, VK_LCONTROL, VK_LEFT, VK_LMENU,
    VK_LSHIFT, VK_LWIN, VK_MEDIA_NEXT_TRACK, VK_MEDIA_PLAY_PAUSE, VK_MEDIA_PREV_TRACK,
    VK_MEDIA_STOP, VK_MENU, VK_MULTIPLY, VK_NEXT, VK_NUMLOCK, VK_NUMPAD0, VK_NUMPAD1,
    VK_NUMPAD2, VK_NUMPAD3, VK_NUMPAD4, VK_NUMPAD5, VK_NUMPAD6, VK_NUMPAD7, VK_NUMPAD8,
    VK_NUMPAD9, VK_PAUSE, VK_PRIOR, VK_RCONTROL, VK_RETURN, VK_RIGHT, VK_RMENU, VK_RSHIFT,
    VK_RWIN, VK_SCROLL, VK_SHIFT, VK_SLEEP, VK_SNAPSHOT, VK_SPACE, VK_SUBTRACT, VK_TAB, VK_UP,
    VK_VOLUME_DOWN, VK_VOLUME_MUTE, VK_VOLUME_UP, VK_ZOOM,
};
use crate::text::{
    chars_of, split_on, split_span, str_eq, to_uppercase, trim_span, trimmed, uppercase_of, Span,
};
use vstd::prelude::*;

verus! {

/// The code of `name` where it names a modifier key: control, shift, alt
/// (also called menu) or the Windows key.
pub open spec fn modifier_code(name: Seq<char>) -> Option<KeyCode> {
    if name == "CTRL"@ {
        Some(VK_CONTROL)
    } else if name == "LCTRL"@ {
        Some(VK_LCONTROL)
    } else if name == "RCTRL"@ {
        Some(VK_RCONTROL)
    } else if name == "SHIFT"@ {
        Some(VK_SHIFT)
    } else if name == "LSHIFT"@ {
        Some(VK_LSHIFT)
    } else if name == "RSHIFT"@ {
        Some(VK_RSHIFT)
    } else if name == "ALT"@ {
        Some(VK_MENU)
    } else if name == "LALT"@ {
        Some(VK_LMENU)
    } else if name == "RALT"@ {
        Some(VK_RMENU)
    } else if name == "MENU"@ {
        Some(VK_MENU)
    } else if name == "LMENU"@ {
        Some(VK_LMENU)
    } else if name == "RMENU"@ {
        Some(VK_RMENU)
    } else if name == "LWIN"@ {
        Some(VK_LWIN)
    } else if name == "RWIN"@ {
        Some(VK_RWIN)
    } else {
        None
    }
}

fn modifier_key(name: &str) -> (r: Option<KeyCode>)
    ensures
        r == modifier_code(name@),
{
    if str_eq(name, "CTRL") {
        Some(VK_CONTROL)
    } else if str_eq(name, "LCTRL") {
        Some(VK_LCONTROL)
    } else if str_eq(name, "RCTRL") {
        Some(VK_RCONTROL)
    } else if str_eq(name, "SHIFT") {
        Some(VK_SHIFT)
    } else if str_eq(name, "LSHIFT") {
        Some(VK_LSHIFT)
    } else if str_eq(name, "RSHIFT") {
        Some(VK_RSHIFT)
    } else if str_eq(name, "ALT") {
        Some(VK_MENU)
    } else if str_eq(name, "LALT") {
        Some(VK_LMENU)
    } else if str_eq(name, "RALT") {
        Some(VK_RMENU)
    } else if str_eq(name, "MENU") {
        Some(VK_MENU)
    } else if str_eq(name, "LMENU") {
        Some(VK_LMENU)
    } else if str_eq(name, "RMENU") {
        Some(VK_RMENU)
    } else if str_eq(name, "LWIN") {
        Some(VK_LWIN)
    } else if str_eq(name, "RWIN") {
        Some(VK_RWIN)
    } else {
        None
    }
}

/// The code of `name` where it names one of the function keys `F1` to `F12`.
pub open spec fn function_key_code(name: Seq<char>) -> Option<KeyCode> {
    if name == "F1"@ {
        Some(VK_F1)
    } else if name == "F2"@ {
        Some(VK_F2)
    } else if name == "F3"@ {
        Some(VK_F3)
    } else if name == "F4"@ {
        Some(VK_F4)
    } else if name == "F5"@ {
        Some(VK_F5)
    } else if name == "F6"@ {
        Some(VK_F6)
    } else if name == "F7"@ {
        Some(VK_F7)
    } else if name == "F8"@ {
        Some(VK_F8)
    } else if name == "F9"@ {
        Some(VK_F9)
    } else if name == "F10"@ {
        Some(VK_F10)
    } else if name == "F11"@ {
        Some(VK_F11)
    } else if name == "F12"@ {
        Some(VK_F12)
    } else {
        None
    }
}

fn function_key_key(name: &str) -> (r: Option<KeyCode>)
    ensures
        r == function_key_code(name@),
{
    if str_eq(name, "F1") {
        Some(VK_F1)
    } else if str_eq(name, "F2") {
        Some(VK_F2)
    } else if str_eq(name, "F3") {
        Some(VK_F3)
    } else if str_eq(name, "F4") {
        Some(VK_F4)
    } else if str_eq(name, "F5") {
        Some(VK_F5)
    } else if str_eq(name, "F6") {
        Some(VK_F6)
    } else if str_eq(name, "F7") {
        Some(VK_F7)
    } else if str_eq(name, "F8") {
        Some(VK_F8)
    } else if str_eq(name, "F9") {
        Some(VK_F9)
    } else if str_eq(name, "F10") {
        Some(VK_F10)
    } else if str_eq(name, "F11") {
        Some(VK_F11)
    } else if str_eq(name, "F12") {
        Some(VK_F12)
    } else {
        None
    }
}

/// The code of `name` where it names a key of the numeric pad.
pub open spec fn numpad_code(name: Seq<char>) -> Option<KeyCode> {
    if name == "NUM0"@ {
        Some(VK_NUMPAD0)
    } else if name == "NUM1"@ {
        Some(VK_NUMPAD1)
    } else if name == "NUM2"@ {
        Some(VK_NUMPAD2)
    } else if name == "NUM3"@ {
        Some(VK_NUMPAD3)
    } else if name == "NUM4"@ {
        Some(VK_NUMPAD4)
    } else if name == "NUM5"@ {
        Some(VK_NUMPAD5)
    } else if name == "NUM6"@ {
        Some(VK_NUMPAD6)
    } else if name == "NUM7"@ {
        Some(VK_NUMPAD7)
    } else if name == "NUM8"@ {
        Some(VK_NUMPAD8)
    } else if name == "NUM9"@ {
        Some(VK_NUMPAD9)
    } else if name == "NUMLOCK"@ {
        Some(VK_NUMLOCK)
    } else if name == "NUMSLASH"@ {
        Some(VK_DIVIDE)
    } else if name == "NUMMULTIPLY"@ {
        Some(VK_MULTIPLY)
    } else if name == "NUMMINUS"@ {
        Some(VK_SUBTRACT)
    } else if name == "NUMPLUS"@ {
        Some(VK_ADD)
    } else if name == "NUMENTER"@ {
        Some(VK_RETURN)
    } else if name == "NUMDECIMAL"@ {
        Some(VK_DECIMAL)
    } else {
        None
    }
}

fn numpad_key(name: &str) -> (r: Option<KeyCode>)
    ensures
        r == numpad_code(name@),
{
    if str_eq(name, "NUM0") {
        Some(VK_NUMPAD0)
    } else if str_eq(name, "NUM1") {
        Some(VK_NUMPAD1)
    } else if str_eq(name, "NUM2") {
        Some(VK_NUMPAD2)
    } else if str_eq(name, "NUM3") {
        Some(VK_NUMPAD3)
    } else if str_eq(name, "NUM4") {
        Some(VK_NUMPAD4)
    } else if str_eq(name, "NUM5") {
        Some(VK_NUMPAD5)
    } else if str_eq(name, "NUM6") {
        Some(VK_NUMPAD6)
    } else if str_eq(name, "NUM7") {
        Some(VK_NUMPAD7)
    } else if str_eq(name, "NUM8") {
        Some(VK_NUMPAD8)
    } else if str_eq(name, "NUM9") {
        Some(VK_NUMPAD9)
    } else if str_eq(name, "NUMLOCK") {
        Some(VK_NUMLOCK)
    } else if str_eq(name, "NUMSLASH") {
        Some(VK_DIVIDE)
    } else if str_eq(name, "NUMMULTIPLY") {
        Some(VK_MULTIPLY)
    } else if str_eq(name, "NUMMINUS") {
        Some(VK_SUBTRACT)
    } else if str_eq(name, "NUMPLUS") {
        Some(VK_ADD)
    } else if str_eq(name, "NUMENTER") {
        Some(VK_RETURN)
    } else if str_eq(name, "NUMDECIMAL") {
        Some(VK_DECIMAL)
    } else {
        None
    }
}

/// The code of `name` where it names an editing key.
pub open spec fn editing_code(name: Seq<char>) -> Option<KeyCode> {
    if name == "BACK"@ {
        Some(VK_BACK)
    } else if name == "TAB"@ {
        Some(VK_TAB)
    } else if name == "ENTER"@ {
        Some(VK_RETURN)
    } else if name == "SPACE"@ {
        Some(VK_SPACE)
    } else if name == "CAPSLOCK"@ {
        Some(VK_CAPITAL)
    } else if name == "ESC"@ {
        Some(VK_ESCAPE)
    } else if name == "INSERT"@ {
        Some(VK_INSERT)
    } else if name == "DELETE"@ {
        Some(VK_DELETE)
    } else {
        None
    }
}

fn editing_key(name: &str) -> (r: Option<KeyCode>)
    ensures
        r == editing_code(name@),
{
    if str_eq(name, "BACK") {
        Some(VK_BACK)
    } else if str_eq(name, "TAB") {
        Some(VK_TAB)
    } else if str_eq(name, "ENTER") {
        Some(VK_RETURN)
    } else if str_eq(name, "SPACE") {
        Some(VK_SPACE)
    } else if str_eq(name, "CAPSLOCK") {
        Some(VK_CAPITAL)
    } else if str_eq(name, "ESC") {
        Some(VK_ESCAPE)
    } else if str_eq(name, "INSERT") {
        Some(VK_INSERT)
    } else if str_eq(name, "DELETE") {
        Some(VK_DELETE)
    } else {
        None
    }
}

/// The code of `name` where it names an arrow or paging key.
pub open spec fn navigation_code(name: Seq<char>) -> Option<KeyCode> {
    if name == "LEFT"@ {
        Some(VK_LEFT)
    } else if name == "RIGHT"@ {
        Some(VK_RIGHT)
    } else if name == "UP"@ {
        Some(VK_UP)
    } else if name == "DOWN"@ {
        Some(VK_DOWN)
    } else if name == "HOME"@ {
        Some(VK_HOME)
    } else if name == "END"@ {
        Some(VK_END)
    } else if name == "PAGEUP"@ {
        Some(VK_PRIOR)
    } else if name == "PAGEDOWN"@ {
        Some(VK_NEXT)
    } else {
        None
    }
}

fn navigation_key(name: &str) -> (r: Option<KeyCode>)
    ensures
        r == navigation_code(name@),
{
    if str_eq(name, "LEFT") {
        Some(VK_LEFT)
    } else if str_eq(name, "RIGHT") {
        Some(VK_RIGHT)
    } else if str_eq(name, "UP") {
        Some(VK_UP)
    } else if str_eq(name, "DOWN") {
        Some(VK_DOWN)
    } else if str_eq(name, "HOME") {
        Some(VK_HOME)
    } else if str_eq(name, "END") {
        Some(VK_END)
    } else if str_eq(name, "PAGEUP") {
        Some(VK_PRIOR)
    } else if str_eq(name, "PAGEDOWN") {
        Some(VK_NEXT)
    } else {
        None
    }
}

/// The code of `name` where it names a system key.
pub open spec fn system_code(name: Seq<char>) -> Option<KeyCode> {
    if name == "PRINTSCREEN"@ {
        Some(VK_SNAPSHOT)
    } else if name == "SCROLLLOCK"@ {
        Some(VK_SCROLL)
    } else if name == "PAUSE"@ {
        Some(VK_PAUSE)
    } else if name == "BREAK"@ {
        Some(VK_CANCEL)
    } else if name == "APPS"@ {
        Some(VK_APPS)
    } else if name == "SLEEP"@ {
        Some(VK_SLEEP)
    } else if name == "ZOOM"@ {
        Some(VK_ZOOM)
    } else {
        None
    }
}

fn system_key(name: &str) -> (r: Option<KeyCode>)
    ensures
        r == system_code(name@),
{
    if str_eq(name, "PRINTSCREEN") {
        Some(VK_SNAPSHOT)
    } else if str_eq(name, "SCROLLLOCK") {
        Some(VK_SCROLL)
    } else if str_eq(name, "PAUSE") {
        Some(VK_PAUSE)
    } else if str_eq(name, "BREAK") {
        Some(VK_CANCEL)
    } else if str_eq(name, "APPS") {
        Some(VK_APPS)
    } else if str_eq(name, "SLEEP") {
        Some(VK_SLEEP)
    } else if str_eq(name, "ZOOM") {
        Some(VK_ZOOM)
    } else {
        None
    }
}

/// The code of `name` where it names a volume or playback key.
pub open spec fn media_code(name: Seq<char>) -> Option<KeyCode> {
    if name == "VOLUMEUP"@ {
        Some(VK_VOLUME_UP)
    } else if name == "VOLUMEDOWN"@ {
        Some(VK_VOLUME_DOWN)
    } else if name == "VOLUMEMUTE"@ {
        Some(VK_VOLUME_MUTE)
    } else if name == "STOP"@ {
        Some(VK_MEDIA_STOP)
    } else if name == "PLAYPAUSE"@ {
        Some(VK_MEDIA_PLAY_PAUSE)
    } else if name == "PREV"@ {
        Some(VK_MEDIA_PREV_TRACK)
    } else if name == "NEXT"@ {
        Some(VK_MEDIA_NEXT_TRACK)
    } else {
        None
    }
}

fn media_key(name: &str) -> (r: Option<KeyCode>)
    ensures
        r == media_code(name@),
{
    if str_eq(name, "VOLUMEUP") {
        Some(VK_VOLUME_UP)
    } else if str_eq(name, "VOLUMEDOWN") {
        Some(VK_VOLUME_DOWN)
    } else if str_eq(name, "VOLUMEMUTE") {
        Some(VK_VOLUME_MUTE)
    } else if str_eq(name, "STOP") {
        Some(VK_MEDIA_STOP)
    } else if str_eq(name, "PLAYPAUSE") {
        Some(VK_MEDIA_PLAY_PAUSE)
    } else if str_eq(name, "PREV") {
        Some(VK_MEDIA_PREV_TRACK)
    } else if str_eq(name, "NEXT") {
        Some(VK_MEDIA_NEXT_TRACK)
    } else {
        None
    }
}
/// The code of `name` where it is a single letter `A` to `Z`.
pub open spec fn letter_code(name: Seq<char>) -> Option<KeyCode> {
    if name.len() == 1 && 'A' <= name[0] <= 'Z' {
        Some(name[0] as u32)
    } else {
        None
    }
}

/// The code of `name` where it is a single digit `0` to `9`.
pub open spec fn digit_code(name: Seq<char>) -> Option<KeyCode> {
    if name.len() == 1 && '0' <= name[0] <= '9' {
        Some(name[0] as u32)
    } else {
        None
    }
}

fn letter_or_digit_key(name: &str) -> (r: Option<KeyCode>)
    ensures
        r == first_known(letter_code(name@), digit_code(name@)),
{
    if name.unicode_len() != 1 {
        return None;
    }
    let c = name.get_char(0);
    if ('A' <= c && c <= 'Z') || ('0' <= c && c <= '9') {
        Some(c as u32)
    } else {
        None
    }
}

/// The first of two lookups that found a code.
pub open spec fn first_known(a: Option<KeyCode>, b: Option<KeyCode>) -> Option<KeyCode> {
    if a is Some {
        a
    } else {
        b
    }
}

/// The code that an upper-case key name stands for, if it is a known name.
pub open spec fn vk_code_of(name: Seq<char>) -> Option<KeyCode> {
    first_known(
        modifier_code(name),
        first_known(
            letter_code(name),
            first_known(
                digit_code(name),
                first_known(
                    function_key_code(name),
                    first_known(
                        numpad_code(name),
                        first_known(
                            editing_code(name),
                            first_known(
                                navigation_code(name),
                                first_known(system_code(name), media_code(name)),
                            ),
                        ),
                    ),
                ),
            ),
        ),
    )
}

/// Looks up a key name that is already in upper case.
pub fn key_code_for(name: &str) -> (r: Option<KeyCode>)
    ensures
        r == vk_code_of(name@),
{
    let found = modifier_key(name);
    if found.is_some() {
        return found;
    }
    let found = letter_or_digit_key(name);
    if found.is_some() {
        return found;
    }
    let found = function_key_key(name);
    if found.is_some() {
        return found;
    }
    let found = numpad_key(name);
    if found.is_some() {
        return found;
    }
    let found = editing_key(name);
    if found.is_some() {
        return found;
    }
    let found = navigation_key(name);
    if found.is_some() {
        return found;
    }
    let found = system_key(name);
    if found.is_some() {
        return found;
    }
    media_key(name)
}

/// Looks up a key by name, in any mix of upper and lower case.
pub fn to_vk_code(name: &str) -> (r: Option<KeyCode>)
    ensures
        r == vk_code_of(uppercase_of(name@)),
{
    let upper = to_uppercase(name);
    key_code_for(upper.as_str())
}

/// What a [`Key`] holds: its name as written and its code.
pub struct KeyView {
    pub name: Seq<char>,
    pub vk_code: KeyCode,
}

/// A named key.
pub struct Key {
    pub name: String,
    pub vk_code: KeyCode,
}

impl View for Key {
    type V = KeyView;

    open spec fn view(&self) -> KeyView {
        KeyView { name: self.name@, vk_code: self.vk_code }
    }
}

/// The key that a name written in a chord stands for.
pub open spec fn key_of_name(name: Seq<char>) -> Option<KeyView> {
    match vk_code_of(uppercase_of(name)) {
        Some(code) => Some(KeyView { name, vk_code: code }),
        None => None,
    }
}

impl Key {
    pub fn new(name: String, vk_code: KeyCode) -> (key: Key)
        ensures
            key@ == (KeyView { name: name@, vk_code }),
    {
        Key { name, vk_code }
    }

    /// Makes the key that `name` stands for, or nothing where the name is
    /// not known.
    pub fn from_name(name: &str) -> (r: Option<Key>)
        ensures
            match r {
                Some(key) => key_of_name(name@) == Some(key@),
                None => key_of_name(name@) is None,
            },
    {
        match to_vk_code(name) {
            Some(code) => Some(Key::new(name.to_owned(), code)),
            None => None,
        }
    }
}

/// The names written in a chord string: the pieces between `+` signs, each
/// without surrounding white space.
pub open spec fn chord_names(s: Seq<char>) -> Seq<Seq<char>> {
    split_on(s, '+').map_values(|piece: Seq<char>| trimmed(piece))
}

/// The keys that a chord string stands for, provided every name in it is
/// known.
pub open spec fn parsed_chord(s: Seq<char>) -> Option<Seq<KeyView>> {
    let names = chord_names(s);
    if forall|i: int| 0 <= i < names.len() ==> (#[trigger] key_of_name(names[i])) is Some {
        Some(names.map_values(|name: Seq<char>| key_of_name(name)->0))
    } else {
        None
    }
}

/// The names of `keys` joined by `" + "`.
pub open spec fn joined_names(keys: Seq<KeyView>) -> Seq<char>
    decreases keys.len(),
{
    if keys.len() == 0 {
        Seq::<char>::empty()
    } else if keys.len() == 1 {
        keys[0].name
    } else {
        joined_names(keys.drop_last()) + " + "@ + keys.last().name
    }
}

/// A group of keys that trigger an action when they are all held.
pub struct KeyChord {
    pub keys: Vec<Key>,
}

impl View for KeyChord {
    type V = Seq<KeyView>;

    open spec fn view(&self) -> Seq<KeyView> {
        self.keys@.map_values(|key: Key| key@)
    }
}

/// The set of key codes that occur in `keys`.
pub open spec fn key_codes(keys: Seq<KeyView>) -> Set<KeyCode> {
    Set::new(|code: KeyCode| exists|i: int| 0 <= i < keys.len() && keys[i].vk_code == code)
}

/// A chord is satisfied by `pressed` when it has at least one key and the
/// set of its key codes is a subset of `pressed`. A chord without keys is
/// never satisfied.
pub open spec fn satisfied(keys: Seq<KeyView>, pressed: Set<KeyCode>) -> bool {
    keys.len() > 0 && key_codes(keys).subset_of(pressed)
}

/// A chord that has keys is satisfied exactly when each of its keys is
/// pressed.
pub proof fn law_satisfied_iff_every_key_pressed(keys: Seq<KeyView>, pressed: Set<KeyCode>)
    requires
        keys.len() > 0,
    ensures
        satisfied(keys, pressed) <==> forall|i: int|
            0 <= i < keys.len() ==> pressed.contains(#[trigger] keys[i].vk_code),
{
    if satisfied(keys, pressed) {
        assert forall|i: int| 0 <= i < keys.len() implies pressed.contains(
            #[trigger] keys[i].vk_code,
        ) by {
            assert(key_codes(keys).contains(keys[i].vk_code));
        }
    }
}

/// A chord without keys is satisfied by no set of pressed keys, not even by
/// all keys at once.
pub proof fn law_empty_chord_is_never_satisfied(pressed: Set<KeyCode>)
    ensures
        !satisfied(Seq::<KeyView>::empty(), pressed),
{
}

impl KeyChord {
    /// The set of key codes in the chord.
    pub open spec fn codes(&self) -> Set<KeyCode> {
        key_codes(self@)
    }

    /// Whether the chord has keys and every one of them is in `pressed`.
    pub open spec fn is_satisfied(&self, pressed: Set<KeyCode>) -> bool {
        satisfied(self@, pressed)
    }

    pub fn new(keys: Vec<Key>) -> (chord: KeyChord)
        ensures
            chord.keys == keys,
    {
        KeyChord { keys }
    }

    /// Whether the chord has no key at all.
    pub fn is_empty(&self) -> (r: bool)
        ensures
            r == (self@.len() == 0),
            r == (self.codes() == Set::<KeyCode>::empty()),
    {
        proof {
            if self@.len() > 0 {
                assert(self.codes().contains(self@[0].vk_code));
            } else {
                assert(self.codes() =~= Set::<KeyCode>::empty());
            }
        }
        self.keys.len() == 0
    }

    /// Reads a chord from its written form. Gives nothing if any of the
    /// names is unknown.
    pub fn from_string(string: &str) -> (r: Option<KeyChord>)
        ensures
            match r {
                Some(chord) => parsed_chord(string@) == Some(chord@),
                None => parsed_chord(string@) is None,
            },
    {
        let chars = chars_of(string);
        let whole = Span { start: 0, end: chars.len() };
        assert(whole.of(chars@) =~= string@);
        let spans = split_span(&chars, whole, '+');
        let ghost names = chord_names(string@);
        let mut keys: Vec<Key> = Vec::new();
        let mut i: usize = 0;
        while i < spans.len()
            invariant
                chars@ == string@,
                names == chord_names(string@),
                names.len() == spans@.len(),
                i <= spans@.len(),
                forall|k: int| 0 <= k < spans@.len() ==> (#[trigger] spans@[k]).within(chars@.len()),
                forall|k: int|
                    0 <= k < spans@.len() ==> trimmed((#[trigger] spans@[k]).of(chars@)) == names[k],
                keys@.len() == i,
                forall|k: int| 0 <= k < i ==> key_of_name(names[k]) == Some((#[trigger] keys@[k])@),
            decreases spans@.len() - i,
        {
            let name_span = trim_span(&chars, spans[i]);
            let name = string.substring_char(name_span.start, name_span.end);
            match Key::from_name(name) {
                Some(key) => {
                    keys.push(key);
                },
                None => {
                    return None;
                },
            }
            i = i + 1;
        }
        let chord = KeyChord::new(keys);
        proof {
            assert forall|k: int| 0 <= k < names.len() implies (#[trigger] key_of_name(
                names[k],
            )) is Some by {
                assert(key_of_name(names[k]) == Some(keys@[k]@));
            }
            assert(chord@ =~= names.map_values(|name: Seq<char>| key_of_name(name)->0));
        }
        Some(chord)
    }

    /// Writes the chord as its key names joined by `" + "`.
    pub fn to_string(&self) -> (s: String)
        ensures
            s@ == joined_names(self@),
    {
        let mut out = String::new();
        let mut i: usize = 0;
        while i < self.keys.len()
            invariant
                i <= self.keys@.len(),
                out@ == joined_names(self@.take(i as int)),
            decreases self.keys@.len() - i,
        {
            let ghost before = self@.take(i as int);
            let ghost after = self@.take(i + 1);
            proof {
                assert(after.drop_last() =~= before);
            }
            if i > 0 {
                out.append(" + ");
            }
            out.append(self.keys[i].name.as_str());
            i = i + 1;
        }
        assert(self@.take(i as int) =~= self@);
        out
    }

    /// Whether the chord has keys and every one of them is among
    /// `pressed_keys`. A chord without keys is never pressed.
    pub fn is_pressed(&self, pressed_keys: &Vec<KeyCode>) -> (r: bool)
        ensures
            r == self.is_satisfied(pressed_keys@.to_set()),
    {
        if self.keys.len() == 0 {
            return false;
        }
        let mut i: usize = 0;
        while i < self.keys.len()
            invariant
                i <= self.keys@.len(),
                forall|k: int| 0 <= k < i ==> pressed_keys@.contains(#[trigger] self@[k].vk_code),
            decreases self.keys@.len() - i,
        {
            if !contains_code(pressed_keys, self.keys[i].vk_code) {
                proof {
                    assert(self.codes().contains(self@[i as int].vk_code));
                }
                return false;
            }
            i = i + 1;
        }
        true
    }
}

/// Whether `code` occurs in `codes`.
pub fn contains_code(codes: &Vec<KeyCode>, code: KeyCode) -> (r: bool)
    ensures
        r == codes@.contains(code),
{
    let mut i: usize = 0;
    while i < codes.len()
        invariant
            i <= codes@.len(),
            forall|k: int| 0 <= k < i ==> codes@[k] != code,
        decreases codes@.len() - i,
    {
        if codes[i] == code {
            return true;
        }
        i = i + 1;
    }
    false
}

} // verus!
