use mediasync::resolver::{
    basename, candidate_paths, parse_line, parse_list, pick_candidate, split_fields,
};

#[test]
fn parse_list_keeps_file_order_and_drops_bad_lines() {
    let text = "a.mp4|1|2|One\n\nnot enough fields\nb.mp4|1|2|Two\n";
    let entries = parse_list(text);
    assert_eq!(entries.len(), 2);
    assert_eq!(entries[0].raw_path, "a.mp4");
    assert_eq!(entries[0].label, "One");
    assert_eq!(entries[1].raw_path, "b.mp4");
    assert_eq!(entries[1].label, "Two");
}

#[test]
fn parse_list_of_empty_text_is_empty() {
    assert!(parse_list("").is_empty());
}

#[test]
fn parse_line_takes_path_and_label() {
    let entry = parse_line("media/one.mp4|0:00|0:05|Hello there|extra").unwrap();
    assert_eq!(entry.raw_path, "media/one.mp4");
    assert_eq!(entry.label, "Hello there");
}

#[test]
fn parse_line_normalizes_separators() {
    let entry = parse_line("media\\sub\\one.mp4|a|b|Label").unwrap();
    assert_eq!(entry.raw_path, "media/sub/one.mp4");
    assert_eq!(entry.label, "Label");
}

#[test]
fn parse_line_rejects_short_lines() {
    assert!(parse_line("media/one.mp4|a|b").is_none());
    assert!(parse_line("").is_none());
}

#[test]
fn parse_line_keeps_empty_fields() {
    let entry = parse_line("|a|b|").unwrap();
    assert_eq!(entry.raw_path, "");
    assert_eq!(entry.label, "");
}

#[test]
fn split_fields_counts_separators() {
    let fields = split_fields("a|b||d", '|');
    assert_eq!(fields, vec!["a", "b", "", "d"]);
    let fields = split_fields("plain", '|');
    assert_eq!(fields, vec!["plain"]);
}

#[test]
fn basename_takes_the_last_component() {
    assert_eq!(basename("media/sub/one.mp4"), "one.mp4");
    assert_eq!(basename("one.mp4"), "one.mp4");
    assert_eq!(basename(""), "");
}

#[test]
fn candidates_come_in_fallback_order() {
    let c = candidate_paths("/lists", "/root", "media/one.mp4");
    assert_eq!(
        c,
        vec![
            "/lists/media/one.mp4".to_string(),
            "/root/one.mp4".to_string(),
            "/root/media/one.mp4".to_string(),
        ]
    );
}

#[test]
fn pick_prefers_the_first_existing_candidate() {
    let c = candidate_paths("/lists", "/root", "media/one.mp4");
    // The file exists only under the search root's basename candidate.
    let exists = vec![false, true, false];
    let (idx, found) = pick_candidate(&c, &exists);
    assert!(found);
    assert_eq!(idx, 1);
    assert_eq!(c[idx], "/root/one.mp4");
}

#[test]
fn pick_keeps_the_item_when_nothing_exists() {
    let c = candidate_paths("/lists", "/root", "media/one.mp4");
    let exists = vec![false, false, false];
    let (idx, found) = pick_candidate(&c, &exists);
    assert!(!found);
    assert_eq!(idx, 2);
    assert_eq!(c[idx], "/root/media/one.mp4");
}

#[test]
fn pick_takes_the_list_relative_candidate_first() {
    let c = candidate_paths("/lists", "/root", "one.mp4");
    let exists = vec![true, true, true];
    let (idx, found) = pick_candidate(&c, &exists);
    assert!(found);
    assert_eq!(idx, 0);
    assert_eq!(c[idx], "/lists/one.mp4");
}
