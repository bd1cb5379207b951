use tts::sentinel::{find, matches_at, signals_completion, SENTINEL};

#[test]
fn sentinel_is_the_phrase() {
    assert_eq!(&SENTINEL[..], b"Real-time");
}

#[test]
fn find_returns_first_offset() {
    assert_eq!(find(b"abcabc", b"bc"), Some(1));
    assert_eq!(find(b"abcabc", b"abc"), Some(0));
    assert_eq!(find(b"xxabc", b"abc"), Some(2));
}

#[test]
fn find_reports_absence() {
    assert_eq!(find(b"abcabc", b"cb"), None);
    assert_eq!(find(b"", b"a"), None);
    assert_eq!(find(b"ab", b"abc"), None);
}

#[test]
fn find_empty_needle_stands_at_zero() {
    assert_eq!(find(b"abc", b""), Some(0));
    assert_eq!(find(b"", b""), Some(0));
}

#[test]
fn find_whole_haystack() {
    assert_eq!(find(b"Real-time", b"Real-time"), Some(0));
}

#[test]
fn find_after_false_start() {
    assert_eq!(find(b"Real-Real-time", b"Real-time"), Some(5));
    assert_eq!(find(b"aaab", b"aab"), Some(1));
}

#[test]
fn matches_at_checks_one_offset() {
    assert!(matches_at(b"xxabc", b"abc", 2));
    assert!(!matches_at(b"xxabc", b"abc", 1));
    assert!(matches_at(b"abc", b"", 3));
}

#[test]
fn completion_line_is_detected_anywhere() {
    assert!(signals_completion(b"Real-time factor: 0.12"));
    assert!(signals_completion(b"[piper] Real-time factor: 0.12 (infer=0.5 sec)\n"));
    assert!(signals_completion(b"xReal-time"));
    assert!(signals_completion(b"Real-time"));
}

#[test]
fn chatter_is_not_completion() {
    assert!(!signals_completion(b"Loading model..."));
    assert!(!signals_completion(b"Synthesizing..."));
    assert!(!signals_completion(b""));
    assert!(!signals_completion(b"\n"));
}

#[test]
fn phrase_is_matched_exactly() {
    assert!(!signals_completion(b"real-time factor"));
    assert!(!signals_completion(b"Real time factor"));
    assert!(!signals_completion(b"Real-tim"));
    assert!(!signals_completion(b"Real-\ntime"));
}

#[test]
fn detection_works_on_bytes_that_are_no_text() {
    assert!(signals_completion(&[0xff, 0xfe, b'R', b'e', b'a', b'l', b'-', b't', b'i', b'm', b'e', 0x80]));
    assert!(!signals_completion(&[0xff, 0xfe, 0x80]));
}

#[test]
fn whole_stream_and_its_lines_agree() {
    let streams: [&[&[u8]]; 4] = [
        &[b"Loading model...\n", b"Synthesizing...\n", b"Real-time factor: 0.12\n"],
        &[b"Loading model...\n", b"Real-\n", b"time\n"],
        &[b"Loading model...\n", b"cut short Real-ti"],
        &[],
    ];
    let expected = [true, false, false, false];
    for (lines, want) in streams.iter().zip(expected.iter()) {
        let whole: Vec<u8> = lines.concat();
        let by_line = lines.iter().any(|line| signals_completion(line));
        assert_eq!(signals_completion(&whole), by_line);
        assert_eq!(by_line, *want);
    }
}
