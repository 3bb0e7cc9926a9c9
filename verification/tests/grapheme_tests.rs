use rq::graphemes::{grapheme_count, grapheme_substring, split_at_column};

#[test]
fn columns_count_grapheme_clusters_not_code_points() {
    assert_eq!(grapheme_count(""), 0);
    assert_eq!(grapheme_count("abc"), 3);
    // Three clusters built from seven scalars.
    assert_eq!(grapheme_count("a\u{310}e\u{301}o\u{308}\u{332}"), 3);
    // Two regional-indicator flags.
    assert_eq!(grapheme_count("\u{1f1f7}\u{1f1fa}\u{1f1f8}\u{1f1f9}"), 2);
}

#[test]
fn extraction_keeps_combined_characters_whole() {
    let line = "a\u{310}e\u{301}o\u{308}\u{332}";
    assert_eq!(grapheme_substring(line, 0, 1), "a\u{310}");
    assert_eq!(grapheme_substring(line, 1, 1), "e\u{301}");
    assert_eq!(grapheme_substring(line, 1, 2), "e\u{301}o\u{308}\u{332}");
    assert_eq!(grapheme_substring(line, 0, 3), line);
}

#[test]
fn extraction_clips_to_the_available_columns() {
    assert_eq!(grapheme_substring("abc", 1, 10), "bc");
    assert_eq!(grapheme_substring("abc", 3, 2), "");
    assert_eq!(grapheme_substring("abc", 100, 5), "");
    assert_eq!(grapheme_substring("abc", 1, 0), "");
    assert_eq!(grapheme_substring("", 0, 4), "");
}

#[test]
fn splitting_at_every_column_reproduces_the_line() {
    let lines = [
        "plain ascii",
        "a\u{310}e\u{301}o\u{308}\u{332}",
        "\u{1f1f7}\u{1f1fa}x\u{1f1f8}\u{1f1f9}",
        "mixed é\u{301} text",
        "",
    ];
    for line in lines {
        let columns = grapheme_count(line);
        for n in 0..=columns + 1 {
            let (head, tail) = split_at_column(line, n);
            let mut joined = head.clone();
            joined.push_str(&tail);
            assert_eq!(joined, line, "split at column {n}");
        }
    }
}
