use killfeed::census::parse_u64_digits;
use killfeed::sound::{choose_track, is_voicepack_choice, track_lines};

#[test]
fn track_lines_split_on_newlines() {
    let content = b"first.mp3\nsecond.mp3\nthird.mp3".to_vec();
    let lines = track_lines(&content);
    assert_eq!(lines, vec![b"first.mp3".to_vec(), b"second.mp3".to_vec(), b"third.mp3".to_vec()]);
}

#[test]
fn track_lines_drop_empty_segments() {
    let content = b"\na.mp3\n\n\nb.mp3\n".to_vec();
    let lines = track_lines(&content);
    assert_eq!(lines, vec![b"a.mp3".to_vec(), b"b.mp3".to_vec()]);
}

#[test]
fn track_lines_of_empty_content_are_empty() {
    assert!(track_lines(&Vec::new()).is_empty());
    assert!(track_lines(&b"\n\n\n".to_vec()).is_empty());
}

#[test]
fn track_lines_without_trailing_newline_keep_the_last_name() {
    let lines = track_lines(&b"only.mp3".to_vec());
    assert_eq!(lines, vec![b"only.mp3".to_vec()]);
}

#[test]
fn choose_track_of_empty_list_is_nothing() {
    assert_eq!(choose_track(&Vec::new()), None);
}

#[test]
fn choose_track_of_single_entry_returns_it() {
    let names = vec![b"cue.mp3".to_vec()];
    assert_eq!(choose_track(&names), Some(&names[0]));
}

#[test]
fn choose_track_returns_a_member() {
    let names = vec![b"a".to_vec(), b"b".to_vec(), b"c".to_vec()];
    let picked = choose_track(&names).unwrap();
    assert!(names.contains(picked));
}

#[test]
fn voicepack_choices_are_directories_other_than_the_template() {
    assert!(is_voicepack_choice(&"packA".to_string(), true));
    assert!(!is_voicepack_choice(&"TEMPLATE".to_string(), true));
    assert!(!is_voicepack_choice(&"notes.txt".to_string(), false));
    assert!(!is_voicepack_choice(&"TEMPLATE".to_string(), false));
}

#[test]
fn parse_u64_digits_reads_decimal_values() {
    assert_eq!(parse_u64_digits(b"0".as_slice()), Some(0));
    assert_eq!(parse_u64_digits(b"12345".as_slice()), Some(12345));
    assert_eq!(parse_u64_digits(b"0042".as_slice()), Some(42));
    assert_eq!(parse_u64_digits(b"5428010618035323201".as_slice()), Some(5428010618035323201));
}

#[test]
fn parse_u64_digits_handles_the_largest_value() {
    assert_eq!(parse_u64_digits(b"18446744073709551615".as_slice()), Some(u64::MAX));
    assert_eq!(parse_u64_digits(b"18446744073709551616".as_slice()), None);
    assert_eq!(parse_u64_digits(b"99999999999999999999999".as_slice()), None);
}

#[test]
fn parse_u64_digits_rejects_non_digits_and_empty_input() {
    assert_eq!(parse_u64_digits(b"".as_slice()), None);
    assert_eq!(parse_u64_digits(b"12a3".as_slice()), None);
    assert_eq!(parse_u64_digits(b"-5".as_slice()), None);
    assert_eq!(parse_u64_digits(b" 5".as_slice()), None);
}
