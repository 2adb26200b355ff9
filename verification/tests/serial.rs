use maestro::config::{ArduinoConfig, Config, MixerConfig, SessionConfig, SystemConfig};
use maestro::reconciler::{percent, session_key_of, LineError, SerialReconciler, Target};
use maestro::serial::SerialReader;

fn session(name: &str, encoder: Option<u32>) -> SessionConfig {
    SessionConfig { name: name.to_string(), keybinds: None, encoder }
}

fn config_of(sessions: Vec<SessionConfig>) -> Config {
    Config {
        arduino: ArduinoConfig { enabled: true, com_port: "COM3".to_string(), baud_rate: 9600 },
        sessions,
        mixer: MixerConfig { enabled: true, hotkey: None },
        system: SystemConfig { autostart: false, show_console: false },
    }
}

fn chrome_and_other() -> Config {
    config_of(vec![session("chrome", None), session("other", None)])
}

#[test]
fn first_line_primes_the_cache_and_the_next_announces_the_change() {
    let mut reconciler = SerialReconciler::new(&chrome_and_other());
    assert!(reconciler.is_first_line());
    assert_eq!(reconciler.cached_value("chrome"), 0);
    assert_eq!(reconciler.cached_value("other"), 0);

    let first = reconciler.reconcile_line("50|10").expect("a well-formed line");
    assert_eq!(first.len(), 2);
    assert!(first.iter().all(|u| !u.notify));
    assert_eq!((first[0].session.as_str(), first[0].volume, first[0].mute), ("chrome", 50, false));
    assert_eq!((first[1].session.as_str(), first[1].volume, first[1].mute), ("other", 10, false));
    assert_eq!(reconciler.cached_value("chrome"), 50);
    assert_eq!(reconciler.cached_value("other"), 10);
    assert!(!reconciler.is_first_line());

    let second = reconciler.reconcile_line("55|10").expect("a well-formed line");
    assert_eq!(second.len(), 1);
    assert_eq!(second[0].session, "chrome");
    assert_eq!(second[0].volume, 55);
    assert!(!second[0].mute);
    assert!(second[0].notify);
    assert_eq!(reconciler.cached_value("chrome"), 55);
    assert_eq!(reconciler.cached_value("other"), 10);
}

#[test]
fn the_same_line_twice_changes_nothing_the_second_time() {
    let mut reconciler = SerialReconciler::new(&chrome_and_other());
    reconciler.reconcile_line("1|2").expect("a well-formed line");
    let once = reconciler.reconcile_line("30|-20").expect("a well-formed line");
    assert_eq!(once.len(), 2);
    let twice = reconciler.reconcile_line("30|-20").expect("a well-formed line");
    assert!(twice.is_empty());
    assert_eq!(reconciler.cached_value("chrome"), 30);
    assert_eq!(reconciler.cached_value("other"), -20);
}

#[test]
fn the_first_line_is_never_announced_whatever_it_holds() {
    for line in ["0|0", "100|-100", "-1|7", "50|10"] {
        let mut reconciler = SerialReconciler::new(&chrome_and_other());
        let updates = reconciler.reconcile_line(line).expect("a well-formed line");
        assert!(updates.iter().all(|u| !u.notify), "{}", line);
    }
    let mut reconciler = SerialReconciler::new(&chrome_and_other());
    assert!(reconciler.reconcile_line("x|1").is_err());
    assert!(reconciler.is_first_line());
    let updates = reconciler.reconcile_line("5|6").expect("a well-formed line");
    assert_eq!(updates.len(), 2);
    assert!(updates.iter().all(|u| !u.notify));
}

#[test]
fn a_negative_value_mutes_and_the_positive_value_restores() {
    let mut reconciler = SerialReconciler::new(&config_of(vec![session("chrome", None)]));
    reconciler.reconcile_line("40").expect("a well-formed line");
    assert_eq!(reconciler.cached_value("chrome"), 40);

    let muted = reconciler.reconcile_line("-40").expect("a well-formed line");
    assert_eq!(muted.len(), 1);
    assert!(muted[0].mute);
    assert_eq!(muted[0].volume, 40);
    assert!(muted[0].notify);
    assert_eq!(reconciler.cached_value("chrome"), -40);

    let restored = reconciler.reconcile_line("40").expect("a well-formed line");
    assert_eq!(restored.len(), 1);
    assert!(!restored[0].mute);
    assert_eq!(restored[0].volume, 40);
    assert_eq!(reconciler.cached_value("chrome"), 40);
}

#[test]
fn a_line_with_a_field_that_is_no_number_is_skipped_as_a_whole() {
    let mut reconciler = SerialReconciler::new(&chrome_and_other());
    reconciler.reconcile_line("1|2").expect("a well-formed line");
    for (line, field) in [("50|x", 1), ("|10", 0), ("", 0), ("5 0|10", 0), ("50|1.5", 1), ("50|99999999999", 1)] {
        assert_eq!(reconciler.reconcile_line(line).err(), Some(LineError::NotANumber { field }), "{:?}", line);
        assert_eq!(reconciler.cached_value("chrome"), 1);
        assert_eq!(reconciler.cached_value("other"), 2);
    }
}

#[test]
fn a_line_with_more_fields_than_sessions_is_skipped_as_a_whole() {
    let mut reconciler = SerialReconciler::new(&chrome_and_other());
    assert_eq!(reconciler.reconcile_line("50|10|7").err(), Some(LineError::NoSession { field: 2 }));
    assert_eq!(reconciler.reconcile_line("50|10|x").err(), Some(LineError::NoSession { field: 2 }));
    assert_eq!(reconciler.reconcile_line("x|10|7").err(), Some(LineError::NotANumber { field: 0 }));
    assert_eq!(reconciler.cached_value("chrome"), 0);
    assert!(reconciler.is_first_line());
    let fewer = reconciler.reconcile_line("50").expect("one field for the first session");
    assert_eq!(fewer.len(), 1);
    assert_eq!(fewer[0].session, "chrome");
}

#[test]
fn fields_and_lines_may_carry_white_space() {
    let mut reconciler = SerialReconciler::new(&chrome_and_other());
    let updates = reconciler.reconcile_line("  50 | +10 \r").expect("a well-formed line");
    assert_eq!(updates.len(), 2);
    assert_eq!(reconciler.cached_value("chrome"), 50);
    assert_eq!(reconciler.cached_value("other"), 10);
}

#[test]
fn an_encoder_index_overrides_the_position() {
    let config = config_of(vec![session("chrome", Some(1)), session("spotify", Some(0))]);
    let mut reconciler = SerialReconciler::new(&config);
    assert_eq!(reconciler.read_line("5|6").ok(), Some(vec![
        Target { session: 1, value: 5 },
        Target { session: 0, value: 6 },
    ]));
    let updates = reconciler.reconcile_line("5|6").expect("a well-formed line");
    assert_eq!(updates[0].session, "spotify");
    assert_eq!(updates[0].volume, 5);
    assert_eq!(updates[1].session, "chrome");
    assert_eq!(updates[1].volume, 6);

    let claimed_twice = config_of(vec![session("a", Some(0)), session("b", None), session("c", Some(0))]);
    let reconciler = SerialReconciler::new(&claimed_twice);
    assert_eq!(reconciler.read_line("1|2").ok(), Some(vec![
        Target { session: 0, value: 1 },
        Target { session: 1, value: 2 },
    ]));
    assert_eq!(reconciler.read_line("1|2|3").err(), Some(LineError::NoSession { field: 2 }));
}

#[test]
fn session_names_are_cached_without_regard_to_case_or_space() {
    assert_eq!(session_key_of("  Chrome "), "chrome");
    let mut reconciler = SerialReconciler::new(&config_of(vec![session(" Chrome", None)]));
    let updates = reconciler.reconcile_line("9").expect("a well-formed line");
    assert_eq!(updates[0].session, " Chrome");
    assert_eq!(reconciler.cached_value("CHROME"), 9);
    assert_eq!(reconciler.cached_value("firefox"), 0);
}

#[test]
fn sessions_that_share_a_name_share_a_cached_value() {
    let mut reconciler = SerialReconciler::new(&config_of(vec![session("chrome", None), session("Chrome", None)]));
    reconciler.reconcile_line("1|2").expect("a well-formed line");
    assert_eq!(reconciler.cached_value("chrome"), 2);
    let again = reconciler.reconcile_line("1|2").expect("a well-formed line");
    assert_eq!(again.len(), 2);
}

#[test]
fn values_out_of_range_are_clamped_to_a_percentage() {
    assert_eq!(percent(0), 0);
    assert_eq!(percent(100), 100);
    assert_eq!(percent(101), 100);
    assert_eq!(percent(-100), 100);
    assert_eq!(percent(-40), 40);
    assert_eq!(percent(i32::MIN), 100);
    assert_eq!(percent(i32::MAX), 100);
    let mut reconciler = SerialReconciler::new(&config_of(vec![session("chrome", None)]));
    let updates = reconciler.reconcile_line("-250").expect("a well-formed line");
    assert!(updates[0].mute);
    assert_eq!(updates[0].volume, 100);
    assert_eq!(reconciler.cached_value("chrome"), -250);
}

#[test]
fn a_reset_forgets_the_cache_and_primes_again() {
    let mut reconciler = SerialReconciler::new(&chrome_and_other());
    reconciler.reconcile_line("50|10").expect("a well-formed line");
    reconciler.reset(&config_of(vec![session("spotify", None)]));
    assert!(reconciler.is_first_line());
    assert_eq!(reconciler.cached_value("chrome"), 0);
    let updates = reconciler.reconcile_line("7").expect("a well-formed line");
    assert_eq!(updates[0].session, "spotify");
    assert!(!updates[0].notify);
}

#[test]
fn of_two_lines_ten_milliseconds_apart_only_the_second_is_processed() {
    let mut reader = SerialReader::new();
    assert_eq!(reader.poll(900), None);
    assert_eq!(reader.push_bytes(b"50|10\n", 1000), None);
    assert_eq!(reader.poll(1005), None);
    assert_eq!(reader.push_bytes(b"55|10\n", 1010), None);
    assert_eq!(reader.poll(1050), None);
    assert_eq!(reader.poll(1059), None);
    assert_eq!(reader.poll(1060), Some(b"55|10".to_vec()));
    assert_eq!(reader.poll(1061), None);
    assert_eq!(reader.poll(5000), None);
}

#[test]
fn the_later_of_two_lines_wins_however_the_stream_is_cut() {
    let mut one_chunk = SerialReader::new();
    assert_eq!(one_chunk.push_bytes(b"A\nB\n", 1000), None);
    assert_eq!(one_chunk.poll(1050), Some(b"B".to_vec()));

    let mut two_chunks = SerialReader::new();
    assert_eq!(two_chunks.push_bytes(b"A\n", 1000), None);
    assert_eq!(two_chunks.push_bytes(b"B\n", 1000), None);
    assert_eq!(two_chunks.poll(1050), Some(b"B".to_vec()));

    let mut apart = SerialReader::new();
    assert_eq!(apart.push_bytes(b"A\n", 1000), None);
    assert_eq!(apart.push_bytes(b"B\n", 1049), None);
    assert_eq!(apart.poll(1098), None);
    assert_eq!(apart.poll(1099), Some(b"B".to_vec()));
}

#[test]
fn lines_that_are_far_enough_apart_are_all_handed_out_and_none_twice() {
    let mut reader = SerialReader::new();
    assert_eq!(reader.push_bytes(b"1\n", 0), None);
    assert_eq!(reader.push_bytes(b"2\n", 50), Some(b"1".to_vec()));
    assert_eq!(reader.push_bytes(b"", 99), None);
    assert_eq!(reader.push_bytes(b"", 100), Some(b"2".to_vec()));
    assert_eq!(reader.push_bytes(b"", 100), None);
    assert_eq!(reader.push_bytes(b"3\n", 500), None);
    assert_eq!(reader.push_bytes(b"4\n", 1000), Some(b"3".to_vec()));
    assert_eq!(reader.poll(1000), None);
    assert_eq!(reader.poll(900), None);
    assert_eq!(reader.poll(1050), Some(b"4".to_vec()));
    assert_eq!(reader.poll(1100), None);
}

#[test]
fn lines_are_joined_across_chunks_and_only_the_latest_waits() {
    let mut reader = SerialReader::new();
    reader.receive(b"5", 100);
    reader.receive(b"0|1", 100);
    assert_eq!(reader.poll(1000), None);
    reader.receive(b"0\n55|", 1000);
    reader.receive(b"10\n60|10\n7", 1000);
    assert_eq!(reader.poll(1050), Some(b"60|10".to_vec()));
    reader.receive(b"|8\n", 2000);
    assert_eq!(reader.poll(2050), Some(b"7|8".to_vec()));
    reader.receive(b"\n\n", 3000);
    assert_eq!(reader.poll(3050), Some(Vec::new()));
    reader.receive(b"9\r\n", 4000);
    assert_eq!(reader.poll(4050), Some(b"9\r".to_vec()));
}

#[test]
fn a_reset_discards_what_was_buffered_and_what_waited() {
    let mut reader = SerialReader::new();
    reader.receive(b"1\n2", 0);
    reader.reset();
    assert_eq!(reader.poll(10_000), None);
    assert_eq!(reader.push_bytes(b"3\n", 10_000), None);
    assert_eq!(reader.poll(10_049), None);
    assert_eq!(reader.poll(10_050), Some(b"3".to_vec()));
}
