use std::collections::HashSet;

use maestro::key::{contains_code, key_code_for, to_vk_code, Key, KeyChord};
use maestro::key_state::PressedKeys;
use maestro::keyboard::{chord_key_for, is_chord_pressed, is_modifier_key, parse_key_chord};
use maestro::keycodes::{VK_CONTROL, VK_LCONTROL, VK_LSHIFT, VK_M, VK_SHIFT, VK_VOLUME_UP};

#[test]
fn names_map_to_the_platform_codes() {
    let table: [(&str, u32); 73] = [
        ("CTRL", 0x11),
        ("LCTRL", 0xA2),
        ("RCTRL", 0xA3),
        ("SHIFT", 0x10),
        ("LSHIFT", 0xA0),
        ("RSHIFT", 0xA1),
        ("ALT", 0x12),
        ("LALT", 0xA4),
        ("RALT", 0xA5),
        ("F1", 0x70),
        ("F2", 0x71),
        ("F3", 0x72),
        ("F4", 0x73),
        ("F5", 0x74),
        ("F6", 0x75),
        ("F7", 0x76),
        ("F8", 0x77),
        ("F9", 0x78),
        ("F10", 0x79),
        ("F11", 0x7A),
        ("F12", 0x7B),
        ("NUM0", 0x60),
        ("NUM1", 0x61),
        ("NUM2", 0x62),
        ("NUM3", 0x63),
        ("NUM4", 0x64),
        ("NUM5", 0x65),
        ("NUM6", 0x66),
        ("NUM7", 0x67),
        ("NUM8", 0x68),
        ("NUM9", 0x69),
        ("NUMLOCK", 0x90),
        ("NUMSLASH", 0x6F),
        ("NUMMULTIPLY", 0x6A),
        ("NUMMINUS", 0x6D),
        ("NUMPLUS", 0x6B),
        ("NUMENTER", 0x0D),
        ("NUMDECIMAL", 0x6E),
        ("BACK", 0x08),
        ("TAB", 0x09),
        ("ENTER", 0x0D),
        ("SPACE", 0x20),
        ("CAPSLOCK", 0x14),
        ("ESC", 0x1B),
        ("LEFT", 0x25),
        ("RIGHT", 0x27),
        ("UP", 0x26),
        ("DOWN", 0x28),
        ("HOME", 0x24),
        ("END", 0x23),
        ("PAGEUP", 0x21),
        ("PAGEDOWN", 0x22),
        ("INSERT", 0x2D),
        ("DELETE", 0x2E),
        ("PRINTSCREEN", 0x2C),
        ("SCROLLLOCK", 0x91),
        ("PAUSE", 0x13),
        ("BREAK", 0x03),
        ("MENU", 0x12),
        ("LMENU", 0xA4),
        ("RMENU", 0xA5),
        ("LWIN", 0x5B),
        ("RWIN", 0x5C),
        ("APPS", 0x5D),
        ("SLEEP", 0x5F),
        ("ZOOM", 0xFB),
        ("VOLUMEUP", 0xAF),
        ("VOLUMEDOWN", 0xAE),
        ("VOLUMEMUTE", 0xAD),
        ("STOP", 0xB2),
        ("PLAYPAUSE", 0xB3),
        ("PREV", 0xB1),
        ("NEXT", 0xB0),
    ];
    for (name, code) in table {
        assert_eq!(to_vk_code(name), Some(code), "{}", name);
        assert_eq!(to_vk_code(&name.to_lowercase()), Some(code), "{}", name);
    }
}

#[test]
fn every_letter_and_digit_has_its_own_code() {
    for c in 'A'..='Z' {
        assert_eq!(to_vk_code(&c.to_string()), Some(c as u32));
        assert_eq!(to_vk_code(&c.to_ascii_lowercase().to_string()), Some(c as u32));
    }
    for c in '0'..='9' {
        assert_eq!(to_vk_code(&c.to_string()), Some(c as u32));
    }
}

#[test]
fn key_names_are_matched_without_regard_to_case() {
    assert_eq!(to_vk_code("ctrl"), Some(VK_CONTROL));
    assert_eq!(to_vk_code("Ctrl"), Some(VK_CONTROL));
    assert_eq!(to_vk_code("VolumeUp"), Some(VK_VOLUME_UP));
    assert_eq!(key_code_for("ctrl"), None);
    assert_eq!(key_code_for("CTRL"), Some(VK_CONTROL));
}

#[test]
fn unknown_key_names_are_refused() {
    assert_eq!(to_vk_code(""), None);
    assert_eq!(to_vk_code("HYPER"), None);
    assert_eq!(to_vk_code("F13"), None);
    assert_eq!(to_vk_code(" A"), None);
    assert_eq!(to_vk_code("AA"), None);
    assert_eq!(to_vk_code("é"), None);
    assert!(Key::from_name("nothing").is_none());
}

#[test]
fn a_key_keeps_the_name_it_was_written_with() {
    let key = Key::from_name("ctrl").expect("ctrl is a key");
    assert_eq!(key.name, "ctrl");
    assert_eq!(key.vk_code, VK_CONTROL);
    let made = Key::new("Anything".to_string(), 7);
    assert_eq!(made.name, "Anything");
    assert_eq!(made.vk_code, 7);
}

#[test]
fn a_chord_is_read_from_names_joined_by_plus() {
    let chord = KeyChord::from_string("Ctrl + Shift+m").expect("three known keys");
    let codes: Vec<u32> = chord.keys.iter().map(|k| k.vk_code).collect();
    assert_eq!(codes, vec![VK_CONTROL, VK_SHIFT, VK_M]);
    assert_eq!(chord.to_string(), "Ctrl + Shift + m");
    assert!(!chord.is_empty());
}

#[test]
fn a_chord_with_an_unknown_name_is_refused() {
    assert!(KeyChord::from_string("Ctrl + Hyper").is_none());
    assert!(KeyChord::from_string("").is_none());
    assert!(KeyChord::from_string("Ctrl +").is_none());
    assert!(KeyChord::from_string("+").is_none());
}

#[test]
fn a_chord_of_one_key_is_written_without_a_separator() {
    let chord = KeyChord::from_string("  VolumeUp ").expect("one known key");
    assert_eq!(chord.to_string(), "VolumeUp");
    assert_eq!(KeyChord::new(Vec::new()).to_string(), "");
    assert!(KeyChord::new(Vec::new()).is_empty());
}

#[test]
fn a_chord_is_pressed_when_all_its_keys_are_held() {
    let chord = KeyChord::from_string("ctrl+shift+m").expect("known keys");
    assert!(chord.is_pressed(&vec![VK_M, VK_SHIFT, 99, VK_CONTROL]));
    assert!(!chord.is_pressed(&vec![VK_M, VK_CONTROL]));
    assert!(!chord.is_pressed(&vec![]));
}

#[test]
fn a_chord_without_keys_is_never_pressed() {
    let empty = KeyChord::new(Vec::new());
    assert!(empty.is_empty());
    assert!(!empty.is_pressed(&vec![]));
    assert!(!empty.is_pressed(&vec![VK_M, VK_SHIFT, VK_CONTROL]));
    let all: Vec<u32> = (0..256).collect();
    assert!(!empty.is_pressed(&all));
    let mut pressed = PressedKeys::new();
    assert!(!pressed.satisfies(&empty));
    pressed.on_key_event(VK_M, true);
    assert!(!pressed.satisfies(&empty));
    assert!(!is_chord_pressed(&HashSet::new(), &vec![]));
    assert!(!is_chord_pressed(&HashSet::new(), &all));
    assert!(contains_code(&vec![1, 2, 3], 2));
    assert!(!contains_code(&vec![1, 2, 3], 4));
}

#[test]
fn satisfaction_follows_presses_and_releases() {
    let chord = KeyChord::from_string("ctrl+m").expect("known keys");
    let mut pressed = PressedKeys::new();
    let mut held: Vec<u32> = Vec::new();
    let mut seed: u32 = 12345;
    for _ in 0..2000 {
        seed = seed.wrapping_mul(1103515245).wrapping_add(12345);
        let code = [VK_CONTROL, VK_M, VK_SHIFT, 65][(seed >> 16) as usize % 4];
        let down = (seed >> 8) % 2 == 0;
        pressed.on_key_event(code, down);
        held.retain(|c| *c != code);
        if down {
            held.push(code);
        }
        let expected = held.contains(&VK_CONTROL) && held.contains(&VK_M);
        assert_eq!(pressed.satisfies(&chord), expected);
        assert_eq!(chord.is_pressed(&pressed.snapshot()), expected);
        assert_eq!(pressed.contains(code), down);
        let mut snapshot = pressed.snapshot();
        snapshot.sort();
        let mut sorted = held.clone();
        sorted.sort();
        assert_eq!(snapshot, sorted);
    }
    pressed.clear();
    assert!(pressed.snapshot().is_empty());
}

#[test]
fn short_names_are_read_into_a_set_of_codes() {
    assert_eq!(parse_key_chord("ctrl+shift+m"), HashSet::from([VK_LCONTROL, VK_LSHIFT, VK_M]));
    assert_eq!(parse_key_chord(" Ctrl + M "), HashSet::from([VK_LCONTROL, VK_M]));
    assert_eq!(parse_key_chord("ctrl+ctrl+m+M"), HashSet::from([VK_LCONTROL, VK_M]));
    assert_eq!(parse_key_chord("ctrl+hyper+m"), HashSet::from([VK_LCONTROL, VK_M]));
    assert_eq!(parse_key_chord(""), HashSet::new());
    assert_eq!(parse_key_chord("hyper"), HashSet::new());
    assert_eq!(parse_key_chord("num0+f24+volumeup"), HashSet::from([0x30, 0x87, 0xAF]));
    assert_eq!(parse_key_chord("semicolon+backtick+rbracket"), HashSet::from([0xBA, 0xC0, 0xDD]));
}

#[test]
fn short_names_are_looked_up_in_lower_case_only() {
    assert_eq!(chord_key_for("a"), Some(0x41));
    assert_eq!(chord_key_for("z"), Some(0x5A));
    assert_eq!(chord_key_for("A"), None);
    assert_eq!(chord_key_for("escape"), Some(0x1B));
    assert_eq!(chord_key_for("backspace"), Some(0x08));
    assert_eq!(chord_key_for("pagedown"), Some(0x22));
    assert_eq!(chord_key_for("capslock"), Some(0x14));
    assert_eq!(chord_key_for("volumemute"), Some(0xAD));
    assert_eq!(chord_key_for("f25"), None);
}

#[test]
fn a_chord_of_codes_is_pressed_when_all_are_held() {
    assert!(is_chord_pressed(&HashSet::from([1, 2]), &vec![2, 3, 1]));
    assert!(!is_chord_pressed(&HashSet::from([1, 2]), &vec![2, 3]));
    assert!(!is_chord_pressed(&HashSet::from([1, 2]), &vec![]));
    assert!(is_chord_pressed(&HashSet::from([7]), &vec![7]));
}

#[test]
fn only_control_shift_and_alt_are_modifiers() {
    for code in 0u32..256 {
        assert_eq!(is_modifier_key(code), (0xA0..=0xA5).contains(&code));
    }
}
