use scissrs::graphemes::{grapheme_count, join_graphemes, split_graphemes};
use scissrs::truncate::{render_ordinary, truncate};

#[test]
fn short_line_is_unchanged() {
    // max length 80, input "hello": printed verbatim, no tail
    assert_eq!(render_ordinary("hello", 80, "..."), "hello");
}

#[test]
fn long_ascii_line_is_cut_with_tail() {
    // 100 ASCII characters, max length 80, tail "...": first 80 + tail
    let input = "x".repeat(100);
    let expected = format!("{}{}", "x".repeat(80), "...");
    assert_eq!(render_ordinary(&input, 80, "..."), expected);
}

#[test]
fn line_of_exactly_max_graphemes_is_verbatim() {
    // "a\u{310}" is one cluster of two code points; ten clusters in all
    let input = "a\u{310}bcdefghij";
    assert_eq!(grapheme_count(input), 10);
    assert_eq!(render_ordinary(input, 10, "..."), input);
}

#[test]
fn truncate_count_is_min_of_max_and_count() {
    let s = "a\u{310}e\u{301}o\u{308}\u{332}xyz";
    assert_eq!(grapheme_count(s), 6);
    for n in 0..9usize {
        let cut = truncate(s, n);
        assert_eq!(grapheme_count(&cut), n.min(6));
    }
}

#[test]
fn truncate_does_not_split_clusters() {
    let s = "a\u{310}e\u{301}o\u{308}\u{332}";
    assert_eq!(truncate(s, 2), "a\u{310}e\u{301}");
    assert_eq!(truncate(s, 1), "a\u{310}");
    // a multi-code-point emoji (flag) stays whole
    let flags = "\u{1F1F7}\u{1F1FA}\u{1F1F8}\u{1F1F9}";
    assert_eq!(grapheme_count(flags), 2);
    assert_eq!(truncate(flags, 1), "\u{1F1F7}\u{1F1FA}");
}

#[test]
fn truncate_of_short_input_is_identity() {
    assert_eq!(truncate("hello", 80), "hello");
    assert_eq!(truncate("hello", 5), "hello");
    assert_eq!(truncate("", 3), "");
}

#[test]
fn truncate_to_zero_is_empty() {
    assert_eq!(truncate("hello", 0), "");
    assert_eq!(truncate("", 0), "");
}

#[test]
fn split_and_join_round_trip() {
    let s = "na\u{308}i\u{308}ve \u{1F1F7}\u{1F1FA} text";
    let clusters = split_graphemes(s);
    assert_eq!(join_graphemes(&clusters), s);
}

#[test]
fn split_separates_clusters() {
    let clusters = split_graphemes("a\u{310}e\u{301}o\u{308}\u{332}");
    assert_eq!(clusters, vec!["a\u{310}", "e\u{301}", "o\u{308}\u{332}"]);
}
