use trs::prompt::Prompt;
use trs::scan::OutputScanner;

fn feed_one_by_one(
    scanner: &mut OutputScanner,
    prompt: &Prompt,
    bytes: &[u8],
    skip: usize,
    with_prompt: bool,
) -> Option<String> {
    for &b in bytes {
        if let Some(out) = scanner.feed(prompt, b, skip, with_prompt) {
            return Some(out);
        }
    }
    None
}

#[test]
fn prompt_compiles_only_valid_patterns() {
    assert!(Prompt::new("\\$ ").is_some());
    assert!(Prompt::new("qwerty").is_some());
    assert!(Prompt::new("(").is_none());
    assert!(Prompt::new("BADREGEX(").is_none());
}

#[test]
fn prompt_find_reports_char_offsets() {
    let p = Prompt::new("b+").unwrap();
    let text: Vec<char> = "abbc".chars().collect();
    assert_eq!(p.find(&text), Some((1, 3)));
    let none: Vec<char> = "xyz".chars().collect();
    assert_eq!(p.find(&none), None);
    // Offsets count characters, not bytes: a two-byte character before the
    // match must shift the offsets by one, not two.
    let q = Prompt::new("z").unwrap();
    let t2: Vec<char> = "\u{e9}z".chars().collect();
    assert_eq!(q.find(&t2), Some((1, 2)));
}

#[test]
fn scan_extracts_output_before_prompt() {
    let p = Prompt::new("\\$ ").unwrap();
    let mut s = OutputScanner::new();
    let out = s.feed_bytes(&p, b"hello\nuser@host$ ", 0, false);
    assert_eq!(out, Some(String::from("hello\nuser@host")));
}

#[test]
fn scan_skips_echoed_command() {
    // The caller skips the echoed command and its two terminator characters.
    let p = Prompt::new("qwerty").unwrap();
    let mut s = OutputScanner::new();
    let out = s.feed_bytes(&p, b"ls\r\nfile1\nqwerty", "ls".len() + 2, false);
    assert_eq!(out, Some(String::from("file1\n")));
}

#[test]
fn scan_keeps_prompt_when_asked() {
    let p = Prompt::new("qwerty").unwrap();
    let mut s = OutputScanner::new();
    let out = s.feed_bytes(&p, b"ls\r\nfile1\nqwerty", "ls".len() + 2, true);
    assert_eq!(out, Some(String::from("file1\nqwerty")));
}

#[test]
fn streaming_one_byte_at_a_time_matches_all_at_once() {
    let bytes = b"ls\r\nfile1\nfile2\nqwerty extra".to_vec();
    let p = Prompt::new("qwerty").unwrap();

    let mut s1 = OutputScanner::new();
    let all_at_once = s1.feed_bytes(&p, &bytes, 4, false);

    let mut s2 = OutputScanner::new();
    let one_by_one = feed_one_by_one(&mut s2, &p, &bytes, 4, false);

    assert_eq!(all_at_once, one_by_one);
    assert_eq!(all_at_once, Some(String::from("file1\nfile2\n")));
}

#[test]
fn streaming_split_anywhere_matches_whole() {
    let bytes = b"out line\nPROMPT>".to_vec();
    let p = Prompt::new("PROMPT>").unwrap();
    let mut whole = OutputScanner::new();
    let expected = whole.feed_bytes(&p, &bytes, 0, false);
    assert_eq!(expected, Some(String::from("out line\n")));

    for cut in 0..=bytes.len() {
        let mut s = OutputScanner::new();
        let first = s.feed_bytes(&p, &bytes[..cut], 0, false);
        let got = match first {
            Some(o) => Some(o),
            None => s.feed_bytes(&p, &bytes[cut..], 0, false),
        };
        assert_eq!(got, expected, "split at {}", cut);
    }
}

#[test]
fn prompt_spanning_decode_boundary_is_detected() {
    // The prompt is a two-byte character; its bytes arrive one at a time.
    let p = Prompt::new("\u{e9}").unwrap();
    let mut s = OutputScanner::new();
    assert_eq!(s.feed(&p, b'o', 0, false), None);
    assert_eq!(s.feed(&p, b'k', 0, false), None);
    assert_eq!(s.feed(&p, 0xC3, 0, false), None);
    assert_eq!(s.feed(&p, 0xA9, 0, false), Some(String::from("ok")));
}

#[test]
fn three_byte_character_decodes_once_complete() {
    // U+20AC (the euro sign) is 0xE2 0x82 0xAC.
    let p = Prompt::new("\u{20ac}").unwrap();
    let mut s = OutputScanner::new();
    assert_eq!(s.feed(&p, 0xE2, 0, true), None);
    assert_eq!(s.feed(&p, 0x82, 0, true), None);
    assert_eq!(s.feed(&p, 0xAC, 0, true), Some(String::from("\u{20ac}")));
}

#[test]
fn invalid_bytes_are_dropped() {
    let p = Prompt::new("\\$ ").unwrap();
    let mut s = OutputScanner::new();
    // 0xFF can begin no encoding; a lone continuation byte is dropped too.
    let out = s.feed_bytes(&p, &[0xFF, b'a', 0x80, b'$', b' '], 0, false);
    assert_eq!(out, Some(String::from("a")));
}

#[test]
fn abandoned_partial_sequence_restarts_on_fresh_byte() {
    let p = Prompt::new("ab").unwrap();
    let mut s = OutputScanner::new();
    // A two-byte lead arrives but a plain character follows: the lead is
    // dropped and scanning continues with the fresh bytes.
    let out = s.feed_bytes(&p, &[0xC3, b'a', b'b'], 0, false);
    assert_eq!(out, Some(String::from("")));
}

#[test]
fn empty_echo_and_empty_output_extract_cleanly() {
    let p = Prompt::new("qwerty").unwrap();
    let mut s = OutputScanner::new();
    let out = s.feed_bytes(&p, b"\r\nqwerty", 2, false);
    assert_eq!(out, Some(String::from("")));
}

#[test]
fn skip_beyond_match_start_yields_empty_output() {
    let p = Prompt::new("qwerty").unwrap();
    let mut s = OutputScanner::new();
    let out = s.feed_bytes(&p, b"qwerty", 10, false);
    assert_eq!(out, Some(String::from("")));
}

#[test]
fn zero_width_match_wins_immediately() {
    // The empty pattern matches at offset zero as soon as any text exists.
    let p = Prompt::new("").unwrap();
    let mut s = OutputScanner::new();
    let out = s.feed(&p, b'x', 0, false);
    assert_eq!(out, Some(String::from("")));
}

#[test]
fn no_match_consumes_everything_and_scanning_resumes() {
    let p = Prompt::new("zzz").unwrap();
    let mut s = OutputScanner::new();
    assert_eq!(s.feed_bytes(&p, b"abc", 0, false), None);
    assert_eq!(s.feed_bytes(&p, b"zz", 0, false), None);
    let out = s.feed_bytes(&p, b"z done", 0, false);
    assert_eq!(out, Some(String::from("abc")));
}
