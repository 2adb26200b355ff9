use maestro::config::{ArduinoConfig, Config, MixerConfig, SessionConfig, SystemConfig};
use maestro::logger::delete_old_log_files;
use maestro::reconciler::SerialReconciler;
use maestro::serial::SerialReader;
use maestro::text::{chars_of, parse_i32_span, split_span, trim_str, Span};

struct Lcg(u64);

impl Lcg {
    fn next(&mut self) -> u64 {
        self.0 = self.0.wrapping_mul(6364136223846793005).wrapping_add(1442695040888963407);
        self.0 >> 33
    }

    fn below(&mut self, n: u64) -> u64 {
        self.next() % n
    }

    fn text(&mut self, alphabet: &[char], max_len: u64) -> String {
        let len = self.below(max_len + 1);
        (0..len).map(|_| alphabet[self.below(alphabet.len() as u64) as usize]).collect()
    }
}

fn config_of(names: &[&str]) -> Config {
    Config {
        arduino: ArduinoConfig { enabled: true, com_port: "COM1".to_string(), baud_rate: 115200 },
        sessions: names
            .iter()
            .map(|name| SessionConfig { name: name.to_string(), keybinds: None, encoder: None })
            .collect(),
        mixer: MixerConfig { enabled: false, hotkey: None },
        system: SystemConfig { autostart: false, show_console: false },
    }
}

#[test]
fn random_texts_are_trimmed_split_and_read_as_the_standard_library_does() {
    let alphabet = ['0', '1', '9', '-', '+', '|', ' ', '\t', '\u{a0}', 'x', '\u{2003}', '5'];
    let mut random = Lcg(7);
    for _ in 0..3000 {
        let text = random.text(&alphabet, 12);
        assert_eq!(trim_str(&text), text.trim(), "{:?}", text);
        let chars = chars_of(&text);
        let whole = Span { start: 0, end: chars.len() };
        let pieces: Vec<String> = split_span(&chars, whole, '|')
            .iter()
            .map(|s| chars[s.start..s.end].iter().collect())
            .collect();
        let expected: Vec<String> = text.split('|').map(|s| s.to_string()).collect();
        assert_eq!(pieces, expected, "{:?}", text);
        assert_eq!(parse_i32_span(&chars, whole), text.parse::<i32>().ok(), "{:?}", text);
    }
}

#[test]
fn random_numbers_are_read_back_exactly() {
    let mut random = Lcg(11);
    for _ in 0..2000 {
        let value = (random.next() as i64 - (1 << 30)) * 5;
        let text = value.to_string();
        let chars = chars_of(&text);
        let whole = Span { start: 0, end: chars.len() };
        assert_eq!(parse_i32_span(&chars, whole), i32::try_from(value).ok(), "{}", text);
    }
}

#[test]
fn a_random_line_fed_twice_changes_nothing_the_second_time() {
    let alphabet = ['0', '1', '2', '7', '-', '|', '|', ' ', 'x'];
    let mut random = Lcg(23);
    let mut reconciler = SerialReconciler::new(&config_of(&["chrome", "spotify", "other"]));
    let mut well_formed = 0;
    for _ in 0..3000 {
        let line = random.text(&alphabet, 9);
        let before: Vec<i32> = ["chrome", "spotify", "other"].iter().map(|n| reconciler.cached_value(n)).collect();
        match reconciler.reconcile_line(&line) {
            Ok(_) => {
                well_formed += 1;
                let after: Vec<i32> = ["chrome", "spotify", "other"].iter().map(|n| reconciler.cached_value(n)).collect();
                let again = reconciler.reconcile_line(&line).expect("the line was read before");
                assert!(again.is_empty(), "{:?}", line);
                let still: Vec<i32> = ["chrome", "spotify", "other"].iter().map(|n| reconciler.cached_value(n)).collect();
                assert_eq!(after, still);
            }
            Err(_) => {
                let after: Vec<i32> = ["chrome", "spotify", "other"].iter().map(|n| reconciler.cached_value(n)).collect();
                assert_eq!(before, after, "{:?}", line);
            }
        }
    }
    assert!(well_formed > 100);
}

#[test]
fn a_change_is_asked_for_exactly_where_the_value_differs() {
    let mut random = Lcg(31);
    let names = ["a", "b", "c", "d"];
    let mut reconciler = SerialReconciler::new(&config_of(&names));
    let mut known = [0i32; 4];
    let mut first = true;
    for _ in 0..2000 {
        let values: Vec<i32> = (0..4).map(|_| random.below(7) as i32 - 3).collect();
        let line = values.iter().map(|v| v.to_string()).collect::<Vec<_>>().join("|");
        let updates = reconciler.reconcile_line(&line).expect("a well-formed line");
        let expected: Vec<usize> = (0..4).filter(|i| known[*i] != values[*i]).collect();
        assert_eq!(updates.len(), expected.len());
        for (update, i) in updates.iter().zip(expected) {
            assert_eq!(update.session, names[i]);
            assert_eq!(update.mute, values[i] < 0);
            assert_eq!(i32::from(update.volume), values[i].abs());
            assert_eq!(update.notify, !first);
        }
        known.copy_from_slice(&values);
        first = false;
    }
}

#[test]
fn the_stream_may_be_cut_into_chunks_anywhere() {
    let alphabet = [b'1', b'2', b'|', b'\n', b'\n', b'-', b' '];
    let mut random = Lcg(5);
    for _ in 0..500 {
        let stream: Vec<u8> = (0..random.below(40)).map(|_| alphabet[random.below(7) as usize]).collect();
        let expected = {
            let mut lines: Vec<&[u8]> = stream.split(|b| *b == b'\n').collect();
            lines.pop();
            lines.last().map(|line| line.to_vec())
        };
        let mut whole = SerialReader::new();
        assert_eq!(whole.push_bytes(&stream, 1000), None);

        let mut cut = SerialReader::new();
        let mut rest: &[u8] = &stream;
        while !rest.is_empty() {
            let take = 1 + random.below(rest.len() as u64) as usize;
            assert_eq!(cut.push_bytes(&rest[..take], 1000), None);
            rest = &rest[take..];
        }
        assert_eq!(whole.poll(1049), None);
        assert_eq!(cut.poll(1049), None);
        assert_eq!(whole.poll(1050), expected);
        assert_eq!(cut.poll(1050), expected);
        assert_eq!(whole.push_bytes(b"9\n", 5000), None);
        assert_eq!(cut.push_bytes(b"9\n", 5000), None);
        assert_eq!(whole.poll(6000), cut.poll(6000));
    }
}

#[test]
fn of_lines_in_quick_succession_only_the_last_is_handed_out() {
    let mut random = Lcg(17);
    for _ in 0..300 {
        let mut reader = SerialReader::new();
        let mut now = random.below(1000);
        let mut handed: Vec<(u64, Vec<u8>)> = Vec::new();
        let mut arrived: Vec<(u64, Vec<u8>)> = Vec::new();
        for number in 0..random.below(30) {
            now += random.below(120);
            if random.below(3) == 0 {
                if let Some(line) = reader.poll(now) {
                    handed.push((now, line));
                }
            } else {
                let line = number.to_string().into_bytes();
                let mut chunk = line.clone();
                chunk.push(b'\n');
                if let Some(out) = reader.push_bytes(&chunk, now) {
                    handed.push((now, out));
                }
                arrived.push((now, line));
            }
        }
        if let Some(line) = reader.poll(now + 50) {
            handed.push((now + 50, line));
        }
        let expected: Vec<Vec<u8>> = arrived
            .iter()
            .enumerate()
            .filter(|(i, (at, _))| arrived.get(i + 1).map_or(true, |(next, _)| next - at >= 50))
            .map(|(_, (_, line))| line.clone())
            .collect();
        let lines: Vec<Vec<u8>> = handed.iter().map(|(_, line)| line.clone()).collect();
        assert_eq!(lines, expected);
        for (at, line) in &handed {
            let arrival = arrived.iter().find(|(_, l)| l == line).expect("a line that arrived").0;
            assert!(*at >= arrival + 50);
        }
    }
}

#[test]
fn the_newest_log_files_stay_whatever_the_times() {
    let mut random = Lcg(3);
    for _ in 0..500 {
        let modified: Vec<u64> = (0..random.below(9)).map(|_| random.below(5)).collect();
        let keep = random.below(5) as usize;
        let stale = delete_old_log_files(&modified, keep);
        let mut order: Vec<usize> = (0..modified.len()).collect();
        order.sort_by(|a, b| modified[*b].cmp(&modified[*a]));
        let mut expected: Vec<usize> = order.into_iter().skip(keep).collect();
        expected.sort();
        assert_eq!(stale, expected);
    }
}
