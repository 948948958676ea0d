use activity_gist::truncate::truncate_string;

#[test]
fn short_text_is_kept() {
    assert_eq!(truncate_string("hello", 63), "hello");
}

#[test]
fn text_of_exact_length_is_kept() {
    assert_eq!(truncate_string("abcdef", 6), "abcdef");
}

#[test]
fn long_line_is_cut_to_the_bound() {
    let line: String = "x".repeat(70);
    let r = truncate_string(&line, 63);
    assert_eq!(r.chars().count(), 63);
    assert!(r.ends_with("..."));
    assert_eq!(&r[..60], &line[..60]);
}

#[test]
fn cut_keeps_prefix_and_marker() {
    assert_eq!(truncate_string("abcdefgh", 5), "ab...");
    assert_eq!(truncate_string("abcd", 3), "...");
}

#[test]
fn truncation_is_idempotent() {
    for s in ["", "abc", "abcdefghij", "🔓 Made octo/repo public!"] {
        for n in [3usize, 4, 7, 10, 30] {
            let once = truncate_string(s, n);
            assert_eq!(truncate_string(&once, n), once);
            assert!(once.chars().count() <= n);
        }
    }
}

#[test]
fn bound_below_marker_gives_marker_alone() {
    assert_eq!(truncate_string("abcdef", 2), "...");
    assert_eq!(truncate_string("abcdef", 0), "...");
    assert_eq!(truncate_string("ab", 2), "ab");
}

#[test]
fn length_counts_characters() {
    let r = truncate_string("🗣🗣🗣🗣🗣🗣", 5);
    assert_eq!(r, "🗣🗣...");
}
