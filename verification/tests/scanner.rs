use mediasync::scanner::{ends_with, is_playable, lex_le_exec, scan_files};

#[test]
fn scanner_filters_and_sorts() {
    let names = vec!["b.mp4".to_string(), "a.wav".to_string(), "c.txt".to_string()];
    let files = scan_files(&names);
    assert_eq!(files, vec!["a.wav".to_string(), "b.mp4".to_string()]);
}

#[test]
fn scanner_is_deterministic_whatever_the_input_order() {
    let one = vec!["b.mp4".to_string(), "a.wav".to_string(), "c.mkv".to_string()];
    let two = vec!["c.mkv".to_string(), "b.mp4".to_string(), "a.wav".to_string()];
    assert_eq!(scan_files(&one), scan_files(&two));
}

#[test]
fn scanner_keeps_duplicates() {
    let names = vec!["a.mp4".to_string(), "a.mp4".to_string()];
    let files = scan_files(&names);
    assert_eq!(files, vec!["a.mp4".to_string(), "a.mp4".to_string()]);
}

#[test]
fn scanner_of_nothing_playable_is_empty() {
    let names = vec!["notes.txt".to_string(), "mp4".to_string(), "clip.mp4.bak".to_string()];
    assert!(scan_files(&names).is_empty());
}

#[test]
fn extension_check() {
    assert!(is_playable("x.mp4"));
    assert!(is_playable("x.wav"));
    assert!(is_playable("dir/x.webm"));
    assert!(!is_playable("x.txt"));
    assert!(!is_playable("mp4"));
    assert!(!is_playable(""));
}

#[test]
fn suffix_check() {
    assert!(ends_with("a.mp4", ".mp4"));
    assert!(!ends_with("a.mp4", ".wav"));
    assert!(!ends_with("p4", ".mp4"));
}

#[test]
fn lexicographic_order() {
    assert!(lex_le_exec("a", "b"));
    assert!(!lex_le_exec("b", "a"));
    assert!(lex_le_exec("a", "a"));
    assert!(lex_le_exec("a", "ab"));
    assert!(!lex_le_exec("ab", "a"));
    assert!(lex_le_exec("", "a"));
    assert!(lex_le_exec("A.mp4", "a.mp4"));
}
