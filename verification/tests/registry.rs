use std::collections::HashSet;

use maestro::action::Action;
use maestro::config::{
    get_config, get_defined_session_names, set_config, ArduinoConfig, Config, ConfigStore,
    KeybindConfig, MixerConfig, SessionConfig, SystemConfig,
};
use maestro::engine::{Engine, SerialOutcome};
use maestro::events::AppEvent;
use maestro::key::KeyChord;
use maestro::key_listener::{mixer_hotkey_usable, HookData, KeyListener};
use maestro::keybinds::{handle_action, matched_keybinds, parse_keybinds};
use maestro::keycodes::{VK_CONTROL, VK_LCONTROL, VK_M, VK_SHIFT, VK_VOLUME_DOWN, VK_VOLUME_MUTE, VK_VOLUME_UP};
use maestro::reconciler::LineError;

fn session(name: &str, keybinds: Option<Vec<(&str, &str)>>) -> SessionConfig {
    SessionConfig {
        name: name.to_string(),
        keybinds: keybinds.map(|list| {
            list.into_iter()
                .map(|(key, action)| KeybindConfig { key: key.to_string(), action: action.to_string() })
                .collect()
        }),
        encoder: None,
    }
}

fn config_with(hotkey: Option<&str>, sessions: Vec<SessionConfig>) -> Config {
    Config {
        arduino: ArduinoConfig { enabled: true, com_port: "COM3".to_string(), baud_rate: 9600 },
        sessions,
        mixer: MixerConfig { enabled: true, hotkey: hotkey.map(|h| h.to_string()) },
        system: SystemConfig { autostart: false, show_console: true },
    }
}

fn chord(text: &str) -> KeyChord {
    KeyChord::from_string(text).expect("a chord of known keys")
}

#[test]
fn an_empty_chord_is_refused_at_registration() {
    let mut listener = KeyListener::new();
    assert!(!listener.register(KeyChord::new(Vec::new()), true, Action::ToggleMixerWindow));
    assert_eq!(listener.len(), 0);
    assert!(listener.register(chord("ctrl+m"), true, Action::ToggleMixerWindow));
    assert_eq!(listener.len(), 1);
    listener.unregister_all();
    assert_eq!(listener.len(), 0);
}

#[test]
fn a_hook_never_fires_for_a_chord_without_keys() {
    let mut listener = KeyListener::new();
    assert!(!listener.register(KeyChord::new(Vec::new()), true, Action::ToggleMixerWindow));
    for code in [VK_CONTROL, VK_M, VK_SHIFT] {
        let outcome = listener.on_key_event(code, true);
        assert!(outcome.fired.is_empty());
        assert!(!outcome.block);
    }
}

#[test]
fn every_satisfied_chord_fires_on_a_key_event() {
    let mut listener = KeyListener::new();
    listener.register(chord("ctrl"), false, Action::VolumeUp("a".to_string()));
    listener.register(chord("ctrl+shift+m"), true, Action::ToggleMixerWindow);
    listener.register(chord("shift+m"), false, Action::VolumeDown("b".to_string()));

    let first = listener.on_key_event(VK_CONTROL, true);
    assert_eq!(first.fired.len(), 1);
    assert!(matches!(&first.fired[0], Action::VolumeUp(s) if s == "a"));
    assert!(!first.block);

    let second = listener.on_key_event(VK_SHIFT, true);
    assert_eq!(second.fired.len(), 1);
    assert!(!second.block);

    let third = listener.on_key_event(VK_M, true);
    assert_eq!(third.fired.len(), 3);
    assert!(matches!(&third.fired[0], Action::VolumeUp(_)));
    assert!(matches!(&third.fired[1], Action::ToggleMixerWindow));
    assert!(matches!(&third.fired[2], Action::VolumeDown(_)));
    assert!(third.block);

    let fourth = listener.on_key_event(VK_CONTROL, false);
    assert_eq!(fourth.fired.len(), 1);
    assert!(matches!(&fourth.fired[0], Action::VolumeDown(_)));
    assert!(!fourth.block);

    let mut held = listener.snapshot();
    held.sort();
    assert_eq!(held, vec![VK_SHIFT, VK_M]);

    let fifth = listener.on_key_event(VK_M, false);
    assert!(fifth.fired.is_empty());
    assert!(!fifth.block);
}

#[test]
fn a_rebuild_registers_the_mixer_hotkey_and_the_three_media_keys() {
    let mut listener = KeyListener::new();
    listener.register(chord("a"), false, Action::VolumeUp("old".to_string()));
    listener.on_key_event(VK_CONTROL, true);
    assert!(listener.rebuild(&config_with(Some("Ctrl + M"), vec![])));
    assert_eq!(listener.len(), 4);
    assert_eq!(listener.snapshot(), vec![VK_CONTROL]);

    let mixer = listener.on_key_event(VK_M, true);
    assert_eq!(mixer.fired.len(), 1);
    assert!(matches!(&mixer.fired[0], Action::ToggleMixerWindow));
    assert!(mixer.block);
    listener.on_key_event(VK_M, false);
    listener.on_key_event(VK_CONTROL, false);

    for (code, expected) in [(VK_VOLUME_UP, "up"), (VK_VOLUME_DOWN, "down"), (VK_VOLUME_MUTE, "mute")] {
        let outcome = listener.on_key_event(code, true);
        assert_eq!(outcome.fired.len(), 1);
        assert!(outcome.block);
        let got = match &outcome.fired[0] {
            Action::VolumeUp(s) if s == "master" => "up",
            Action::VolumeDown(s) if s == "master" => "down",
            Action::ToggleMute(s) if s == "master" => "mute",
            _ => "other",
        };
        assert_eq!(got, expected);
        listener.on_key_event(code, false);
    }
}

#[test]
fn a_hotkey_that_cannot_be_read_is_left_out() {
    let mut listener = KeyListener::new();
    assert!(!listener.rebuild(&config_with(Some("Ctrl + Hyper"), vec![])));
    assert_eq!(listener.len(), 3);
    assert!(listener.rebuild(&config_with(None, vec![])));
    assert_eq!(listener.len(), 3);
    let hook = HookData::new(chord("ctrl"), true, Action::ToggleMixerWindow);
    assert!(hook.should_block);
    assert!(!mixer_hotkey_usable(&config_with(Some("Ctrl + Hyper"), vec![])));
    assert!(!mixer_hotkey_usable(&config_with(Some(""), vec![])));
    assert!(mixer_hotkey_usable(&config_with(Some("ctrl + shift + m"), vec![])));
    assert!(mixer_hotkey_usable(&config_with(None, vec![])));
}

#[test]
fn defined_session_names_are_lower_case_without_other() {
    let config = config_with(None, vec![session("Chrome", None), session("Other", None), session("SPOTIFY", None), session("other", None)]);
    assert_eq!(get_defined_session_names(&config), vec!["chrome".to_string(), "spotify".to_string()]);
    assert!(get_defined_session_names(&config_with(None, vec![])).is_empty());
}

#[test]
fn the_store_hands_out_copies_of_the_configuration() {
    let config = config_with(Some("ctrl+m"), vec![session("chrome", Some(vec![("ctrl+up", "VolumeUp")]))]);
    let mut store = ConfigStore::new(config);
    let copy = get_config(&store);
    assert_eq!(copy.arduino.com_port, "COM3");
    assert_eq!(copy.arduino.baud_rate, 9600);
    assert!(copy.arduino.enabled);
    assert_eq!(copy.mixer.hotkey.as_deref(), Some("ctrl+m"));
    assert_eq!(copy.sessions.len(), 1);
    assert_eq!(copy.sessions[0].name, "chrome");
    let binds = copy.sessions[0].keybinds.as_ref().expect("one binding");
    assert_eq!((binds[0].key.as_str(), binds[0].action.as_str()), ("ctrl+up", "VolumeUp"));
    assert!(copy.system.show_console);
    set_config(&mut store, config_with(None, vec![]));
    let next = get_config(&store);
    assert!(next.sessions.is_empty());
    assert!(next.mixer.hotkey.is_none());
}

#[test]
fn key_bindings_of_sessions_are_read_once_and_matched_on_key_events() {
    let config = config_with(None, vec![
        session("chrome", Some(vec![("ctrl+up", "VolumeUp"), ("ctrl+down", "VolumeDown"), ("hyper", "VolumeUp")])),
        session("idle", None),
        session("spotify", Some(vec![("ctrl+m", "ToggleMute"), ("ctrl+up", "Dance")])),
    ]);
    let binds = parse_keybinds(&config);
    assert_eq!(binds.len(), 4);
    assert_eq!(binds[0].chord, HashSet::from([VK_LCONTROL, 0x26]));
    assert_eq!((binds[0].action.as_str(), binds[0].session.as_str()), ("VolumeUp", "chrome"));
    assert_eq!((binds[2].action.as_str(), binds[2].session.as_str()), ("ToggleMute", "spotify"));
    assert_eq!((binds[3].action.as_str(), binds[3].session.as_str()), ("Dance", "spotify"));

    let fired = matched_keybinds(&binds, 0x26, &vec![0x26, VK_LCONTROL]);
    assert_eq!(fired.len(), 1);
    assert!(matches!(&fired[0], Action::VolumeUp(s) if s == "chrome"));
    assert!(matched_keybinds(&binds, VK_LCONTROL, &vec![0x26, VK_LCONTROL]).is_empty());
    assert!(matched_keybinds(&binds, 0x26, &vec![0x26]).is_empty());
    assert!(matched_keybinds(&binds, VK_M, &vec![0x26, VK_LCONTROL]).is_empty());
    let mute = matched_keybinds(&binds, VK_M, &vec![VK_M, VK_LCONTROL]);
    assert_eq!(mute.len(), 1);
    assert!(matches!(&mute[0], Action::ToggleMute(s) if s == "spotify"));
    assert!(handle_action("Dance", "spotify").is_none());
}

#[test]
fn events_have_their_channel_names() {
    assert_eq!(AppEvent::VolumeChange.as_str(), "volume-change-event");
    assert_eq!(AppEvent::MixerVisibilityChange.as_str(), "mixer-visibility-change-event");
    assert_eq!(AppEvent::ConfigChange.as_str(), "config-change-event");
    assert_eq!(AppEvent::ThemeChange.as_str(), "theme-change-event");
    assert_eq!(AppEvent::WindowHidden.as_str(), "window-hidden-event");
}

#[test]
fn the_engine_debounces_a_press_that_two_listeners_report() {
    let mut engine = Engine::new(&config_with(Some("ctrl+m"), vec![]));
    assert_eq!(engine.listener.len(), 4);
    let hook = engine.on_key_event(VK_VOLUME_UP, true, 1000);
    assert_eq!(hook.fired.len(), 1);
    assert!(hook.block);
    let hotkey_id = engine.media.volume_up[0];
    assert!(engine.on_hotkey_event(hotkey_id, true, 1005).is_none());
    assert!(engine.hotkeys.volume_up.is_active());
    assert!(engine.tick(1499).is_empty());
    let repeat = engine.tick(1505);
    assert_eq!(repeat.len(), 1);
    assert!(engine.on_hotkey_event(hotkey_id, false, 1600).is_none());
    assert!(engine.tick(5000).is_empty());
    let again = engine.on_hotkey_event(hotkey_id, true, 6000);
    assert!(matches!(again, Some(Action::VolumeUp(s)) if s == "master"));
    assert!(engine.on_hotkey_event(12345, true, 7000).is_none());
}

#[test]
fn the_engine_reconciles_the_serial_stream() {
    let config = config_with(None, vec![session("chrome", None), session("other", None)]);
    let mut engine = Engine::new(&config);
    assert!(matches!(engine.on_serial_bytes(b"50|", 100), SerialOutcome::Waiting));
    assert!(matches!(engine.on_serial_bytes(b"10\n", 110), SerialOutcome::Waiting));
    assert!(matches!(engine.on_serial_bytes(b"", 159), SerialOutcome::Waiting));
    match engine.on_serial_bytes(b"", 160) {
        SerialOutcome::Updated(updates) => {
            assert_eq!(updates.len(), 2);
            assert!(updates.iter().all(|u| !u.notify));
        }
        _ => panic!("the first line is due"),
    }
    assert!(matches!(engine.on_serial_bytes(b"77|10\n", 200), SerialOutcome::Waiting));
    assert!(matches!(engine.on_serial_bytes(b"55|10\n", 210), SerialOutcome::Waiting));
    assert!(matches!(engine.on_serial_bytes(b"", 250), SerialOutcome::Waiting));
    match engine.on_serial_bytes(b"", 260) {
        SerialOutcome::Updated(updates) => {
            assert_eq!(updates.len(), 1);
            assert_eq!(updates[0].session, "chrome");
            assert_eq!(updates[0].volume, 55);
            assert!(updates[0].notify);
        }
        _ => panic!("the later line is due"),
    }
    assert!(matches!(engine.on_serial_bytes(b"", 300), SerialOutcome::Waiting));
    assert!(matches!(engine.on_serial_bytes(b"5\xff|10\n", 300), SerialOutcome::Waiting));
    assert!(matches!(
        engine.on_serial_bytes(b"\xc2\xa060|10\xe3\x80\x80\n", 400),
        SerialOutcome::Skipped(LineError::NotANumber { field: 0 })
    ));
    match engine.on_serial_bytes(b"", 450) {
        SerialOutcome::Updated(updates) => {
            assert_eq!(updates.len(), 1);
            assert_eq!(updates[0].volume, 60);
        }
        _ => panic!("white space of any kind is trimmed"),
    }
}

#[test]
fn a_change_of_configuration_rebuilds_the_registry_and_primes_again() {
    let first = config_with(Some("ctrl+m"), vec![session("chrome", None)]);
    let mut engine = Engine::new(&first);
    assert!(matches!(engine.on_serial_bytes(b"50\n7", 100), SerialOutcome::Waiting));
    assert!(matches!(engine.on_serial_bytes(b"", 150), SerialOutcome::Updated(_)));
    assert!(matches!(engine.on_serial_bytes(b"8\n9", 900), SerialOutcome::Waiting));
    engine.on_key_event(VK_CONTROL, true, 950);
    let second = config_with(Some("nonsense"), vec![session("spotify", None)]);
    assert!(!engine.on_config_change(&second));
    assert_eq!(engine.listener.len(), 3);
    assert_eq!(engine.listener.snapshot(), vec![VK_CONTROL]);
    assert!(engine.reconciler.is_first_line());
    assert_eq!(engine.reconciler.cached_value("chrome"), 0);
    assert!(matches!(engine.on_serial_bytes(b"", 1000), SerialOutcome::Waiting));
    assert!(matches!(engine.on_serial_bytes(b"0\n", 1000), SerialOutcome::Waiting));
    match engine.on_serial_bytes(b"", 1050) {
        SerialOutcome::Updated(updates) => assert!(updates.is_empty()),
        _ => panic!("the line is due"),
    }
    assert!(matches!(engine.on_serial_bytes(b"9\n", 1100), SerialOutcome::Waiting));
    match engine.on_serial_bytes(b"", 1150) {
        SerialOutcome::Updated(updates) => {
            assert_eq!(updates.len(), 1);
            assert_eq!(updates[0].session, "spotify");
            assert!(updates[0].notify);
        }
        _ => panic!("the line is due"),
    }
}

#[test]
fn the_engine_sets_off_session_bindings_when_a_key_goes_down() {
    let config = config_with(None, vec![session("chrome", Some(vec![("ctrl+up", "VolumeUp")]))]);
    let mut engine = Engine::new(&config);
    assert_eq!(engine.keybinds.len(), 1);
    assert!(engine.on_key_event(VK_LCONTROL, true, 1000).fired.is_empty());
    let up = engine.on_key_event(0x26, true, 1010);
    assert_eq!(up.fired.len(), 1);
    assert!(matches!(&up.fired[0], Action::VolumeUp(s) if s == "chrome"));
    assert!(!up.block);
    assert!(engine.on_key_event(0x26, true, 1050).fired.is_empty());
    assert_eq!(engine.on_key_event(0x26, true, 1110).fired.len(), 1);
    assert!(engine.on_key_event(0x26, false, 1500).fired.is_empty());
    assert!(engine.on_key_event(VK_LCONTROL, false, 1600).fired.is_empty());
    engine.on_config_change(&config_with(None, vec![]));
    assert!(engine.keybinds.is_empty());
}
