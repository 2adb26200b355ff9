use maestro::action::Action;
use maestro::debounce::{ActionDebouncer, ACTION_DEBOUNCE_MS};
use maestro::hotkeys::{classify_hotkey, HotkeyState, MediaHotkeys, MediaKey};
use maestro::repeat::{
    elapsed_ms, RepeatPhase, RepeatState, RepeatTiming, HOLD_DELAY_MS, POLL_PERIOD_MS,
    REPEAT_INTERVAL_MS,
};
use global_hotkey::hotkey::{Code, HotKey, Modifiers};

fn is_volume_up(action: &Action) -> bool {
    matches!(action, Action::VolumeUp(session) if session == "master")
}

#[test]
fn holding_a_key_fires_at_once_then_after_the_hold_delay_then_at_the_interval() {
    let timing = RepeatTiming { hold_delay_ms: 500, repeat_interval_ms: 250 };
    let mut state = RepeatState::new();
    assert!(!state.is_active());
    assert!(state.press(1000));
    assert_eq!(state.phase, RepeatPhase::Active);
    let mut fires: Vec<u64> = Vec::new();
    let mut now = 1000;
    while now <= 2300 {
        if state.tick(timing, now) {
            fires.push(now);
        }
        now += POLL_PERIOD_MS;
    }
    assert_eq!(fires, vec![1500, 1750, 2000, 2250]);
    assert_eq!(state.phase, RepeatPhase::Repeating);
    state.release();
    assert!(!state.is_active());
    while now <= 4000 {
        assert!(!state.tick(timing, now));
        now += POLL_PERIOD_MS;
    }
}

#[test]
fn the_standard_timing_repeats_every_half_second() {
    let timing = RepeatTiming::standard();
    assert_eq!(timing.hold_delay_ms, HOLD_DELAY_MS);
    assert_eq!(timing.repeat_interval_ms, REPEAT_INTERVAL_MS);
    assert_eq!((HOLD_DELAY_MS, REPEAT_INTERVAL_MS, POLL_PERIOD_MS), (500, 500, 25));
    let mut state = RepeatState::new();
    assert!(state.press(0));
    assert!(!state.tick(timing, 499));
    assert!(state.tick(timing, 500));
    assert!(!state.tick(timing, 999));
    assert!(state.tick(timing, 1010));
    assert!(!state.tick(timing, 1509));
    assert!(state.tick(timing, 1510));
}

#[test]
fn a_press_while_the_key_is_down_does_not_fire_again() {
    let mut state = RepeatState::new();
    assert!(state.press(10));
    assert!(!state.press(20));
    assert_eq!(state.pressed_at, 10);
    state.release();
    assert!(state.press(30));
    assert_eq!(state.pressed_at, 30);
    assert_eq!(state.last_fire, 30);
}

#[test]
fn a_release_stops_repeats_within_one_poll() {
    let timing = RepeatTiming::standard();
    let mut state = RepeatState::new();
    state.press(0);
    assert!(state.tick(timing, 500));
    state.release();
    assert!(!state.tick(timing, 500 + POLL_PERIOD_MS));
    assert!(!state.tick(timing, 5000));
}

#[test]
fn elapsed_time_never_goes_negative() {
    assert_eq!(elapsed_ms(10, 3), 7);
    assert_eq!(elapsed_ms(3, 10), 0);
    assert_eq!(elapsed_ms(u64::MAX, 0), u64::MAX);
}

#[test]
fn media_hotkey_identifiers_are_those_of_the_hotkey_system() {
    let ids = MediaHotkeys::new();
    let of = |mods: Option<Modifiers>, code: Code| HotKey::new(mods, code).id();
    assert_eq!(ids.volume_up, vec![
        of(None, Code::AudioVolumeUp),
        of(Some(Modifiers::CONTROL), Code::AudioVolumeUp),
        of(Some(Modifiers::ALT), Code::AudioVolumeUp),
        of(Some(Modifiers::SHIFT), Code::AudioVolumeUp),
        of(Some(Modifiers::META), Code::AudioVolumeUp),
    ]);
    assert_eq!(ids.volume_down[0], of(None, Code::AudioVolumeDown));
    assert_eq!(ids.volume_down[3], of(Some(Modifiers::SHIFT), Code::AudioVolumeDown));
    assert_eq!(ids.mute[0], of(None, Code::AudioVolumeMute));
    assert_eq!(ids.mute[2], of(Some(Modifiers::ALT), Code::AudioVolumeMute));
    assert_eq!(ids.volume_up.len() + ids.volume_down.len() + ids.mute.len(), 15);
    let mut all: Vec<u32> = Vec::new();
    all.extend(&ids.volume_up);
    all.extend(&ids.volume_down);
    all.extend(&ids.mute);
    all.sort();
    all.dedup();
    assert_eq!(all.len(), 15);
    assert_eq!(ids.classify(of(Some(Modifiers::CONTROL), Code::AudioVolumeUp)), Some(MediaKey::VolumeUp));
    assert_eq!(ids.classify(of(Some(Modifiers::META), Code::AudioVolumeDown)), Some(MediaKey::VolumeDown));
    assert_eq!(ids.classify(of(None, Code::AudioVolumeMute)), Some(MediaKey::VolumeMute));
    assert_eq!(ids.classify(of(None, Code::KeyA)), None);
}

#[test]
fn an_identifier_is_classified_by_the_first_list_that_holds_it() {
    assert_eq!(classify_hotkey(7, &vec![1, 7], &vec![7], &vec![9]), Some(MediaKey::VolumeUp));
    assert_eq!(classify_hotkey(7, &vec![1], &vec![7], &vec![7]), Some(MediaKey::VolumeDown));
    assert_eq!(classify_hotkey(9, &vec![1], &vec![7], &vec![9]), Some(MediaKey::VolumeMute));
    assert_eq!(classify_hotkey(2, &vec![1], &vec![7], &vec![9]), None);
    assert_eq!(classify_hotkey(2, &vec![], &vec![], &vec![]), None);
}

#[test]
fn volume_keys_repeat_and_the_mute_key_does_not() {
    let timing = RepeatTiming::standard();
    let mut state = HotkeyState::new();
    let fired = state.on_hotkey(MediaKey::VolumeUp, true, 100).expect("a press fires");
    assert!(is_volume_up(&fired));
    assert!(state.on_hotkey(MediaKey::VolumeUp, true, 110).is_none());
    assert!(matches!(state.on_hotkey(MediaKey::VolumeMute, true, 120), Some(Action::ToggleMute(s)) if s == "master"));
    assert!(matches!(state.on_hotkey(MediaKey::VolumeMute, true, 121), Some(Action::ToggleMute(_))));
    assert!(state.on_hotkey(MediaKey::VolumeMute, false, 130).is_none());
    assert!(matches!(state.on_hotkey(MediaKey::VolumeDown, true, 200), Some(Action::VolumeDown(s)) if s == "master"));
    assert!(state.tick(timing, 599).is_empty());
    let up = state.tick(timing, 600);
    assert_eq!(up.len(), 1);
    assert!(is_volume_up(&up[0]));
    let down = state.tick(timing, 700);
    assert_eq!(down.len(), 1);
    assert!(matches!(&down[0], Action::VolumeDown(_)));
    let both = state.tick(timing, 1200);
    assert_eq!(both.len(), 2);
    assert!(is_volume_up(&both[0]));
    assert!(matches!(&both[1], Action::VolumeDown(_)));
    assert!(state.on_hotkey(MediaKey::VolumeUp, false, 1300).is_none());
    assert!(state.on_hotkey(MediaKey::VolumeDown, false, 1300).is_none());
    assert!(state.tick(timing, 5000).is_empty());
}

#[test]
fn a_second_request_within_the_window_is_dropped() {
    assert_eq!(ACTION_DEBOUNCE_MS, 100);
    let up = Action::VolumeUp("master".to_string());
    let down = Action::VolumeDown("master".to_string());
    let other_up = Action::VolumeUp("chrome".to_string());
    let mut debouncer = ActionDebouncer::new();
    assert!(debouncer.permit(&up, 1000));
    assert!(!debouncer.permit(&up, 1001));
    assert!(!debouncer.permit(&up, 1099));
    assert!(debouncer.permit(&down, 1001));
    assert!(debouncer.permit(&other_up, 1002));
    assert!(debouncer.permit(&up, 1100));
    assert!(!debouncer.permit(&up, 1150));
    assert!(debouncer.permit(&up, 1200));
    assert!(debouncer.permit(&Action::ToggleMixerWindow, 1200));
    assert!(!debouncer.permit(&Action::ToggleMixerWindow, 1250));
}

#[test]
fn a_dropped_request_does_not_extend_the_window() {
    let up = Action::VolumeUp("master".to_string());
    let mut debouncer = ActionDebouncer::new();
    assert!(debouncer.permit(&up, 0));
    assert!(!debouncer.permit(&up, 60));
    assert!(debouncer.permit(&up, 100));
}

#[test]
fn requests_are_filtered_in_order() {
    let mut debouncer = ActionDebouncer::new();
    let kept = debouncer.filter(
        vec![
            Action::VolumeUp("master".to_string()),
            Action::ToggleMixerWindow,
            Action::VolumeUp("master".to_string()),
            Action::ToggleMute("master".to_string()),
        ],
        500,
    );
    assert_eq!(kept.len(), 3);
    assert!(is_volume_up(&kept[0]));
    assert!(matches!(kept[1], Action::ToggleMixerWindow));
    assert!(matches!(kept[2], Action::ToggleMute(_)));
    assert!(debouncer.filter(vec![Action::ToggleMixerWindow], 599).is_empty());
    assert_eq!(debouncer.filter(vec![Action::ToggleMixerWindow], 600).len(), 1);
}

#[test]
fn actions_are_the_same_when_kind_and_session_agree() {
    let up = Action::VolumeUp("master".to_string());
    assert!(up.same(&up.clone()));
    assert!(!up.same(&Action::VolumeUp("Master".to_string())));
    assert!(!up.same(&Action::VolumeDown("master".to_string())));
    assert!(Action::ToggleMixerWindow.same(&Action::ToggleMixerWindow));
    assert!(matches!(Action::from_name("VolumeUp", "chrome"), Some(Action::VolumeUp(s)) if s == "chrome"));
    assert!(matches!(Action::from_name("VolumeDown", "chrome"), Some(Action::VolumeDown(_))));
    assert!(matches!(Action::from_name("ToggleMute", "chrome"), Some(Action::ToggleMute(_))));
    assert!(Action::from_name("volumeup", "chrome").is_none());
    assert!(Action::from_name("", "chrome").is_none());
}
