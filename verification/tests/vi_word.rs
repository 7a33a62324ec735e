//! Vi word motions over grapheme clusters, in byte offsets.
use reedline::edit_mode::vi::word::{
    first_other_index, word_left_from, word_left_index, word_right_end_from, word_right_end_index,
    word_right_start_from, word_right_start_index, CharClass, WordKind,
};

#[test]
fn small_w() {
    let cases: Vec<(&str, usize, usize)> = vec![
        ("hello world", 0, 6),
        ("hello world", 4, 6),
        ("foo.bar", 0, 3),
        ("foo.bar", 3, 4),
        ("foo  bar", 0, 5),
        ("hello", 0, 5),
        ("", 0, 0),
        ("  hello", 0, 2),
        ("a_b foo", 0, 4),
        ("café foo", 0, 6),
        ("e\u{0301} foo", 0, 4),
        ("👨‍👩‍👧 foo", 0, 19),
    ];
    for (buffer, cursor, expected) in cases {
        assert_eq!(word_right_start_index(buffer, cursor, WordKind::Word), expected, "{:?} at {}", buffer, cursor);
    }
}

#[test]
fn big_w() {
    let cases: Vec<(&str, usize, usize)> = vec![
        ("foo.bar baz", 0, 8),
        ("foo bar", 0, 4),
        ("foo   bar", 0, 6),
        ("", 0, 0),
    ];
    for (buffer, cursor, expected) in cases {
        assert_eq!(word_right_start_index(buffer, cursor, WordKind::BigWord), expected, "{:?} at {}", buffer, cursor);
    }
}

#[test]
fn small_e() {
    let cases: Vec<(&str, usize, usize)> = vec![
        ("hello world", 0, 4),
        ("hello world", 4, 10),
        ("foo.bar", 0, 2),
        ("foo.bar", 2, 3),
        ("foo.bar", 3, 6),
        ("", 0, 0),
        ("  hello", 0, 6),
        ("café foo", 0, 3),
    ];
    for (buffer, cursor, expected) in cases {
        assert_eq!(word_right_end_index(buffer, cursor, WordKind::Word), expected, "{:?} at {}", buffer, cursor);
    }
}

#[test]
fn big_e() {
    let cases: Vec<(&str, usize, usize)> = vec![
        ("foo.bar baz", 0, 6),
        ("foo bar", 0, 2),
    ];
    for (buffer, cursor, expected) in cases {
        assert_eq!(word_right_end_index(buffer, cursor, WordKind::BigWord), expected, "{:?} at {}", buffer, cursor);
    }
}

#[test]
fn small_b() {
    let cases: Vec<(&str, usize, usize)> = vec![
        ("hello world", 6, 0),
        ("hello world", 10, 6),
        ("hello world", 0, 0),
        ("foo.bar", 4, 3),
        ("foo.bar", 3, 0),
        ("   abc", 6, 3),
        ("   ", 3, 0),
        ("café foo", 9, 6),
        ("café", 5, 0),
    ];
    for (buffer, cursor, expected) in cases {
        assert_eq!(word_left_index(buffer, cursor, WordKind::Word), expected, "{:?} at {}", buffer, cursor);
    }
}

#[test]
fn big_b() {
    let cases: Vec<(&str, usize, usize)> = vec![
        ("foo.bar baz", 8, 0),
        ("foo.bar", 4, 0),
    ];
    for (buffer, cursor, expected) in cases {
        assert_eq!(word_left_index(buffer, cursor, WordKind::BigWord), expected, "{:?} at {}", buffer, cursor);
    }
}

#[test]
fn motions_from_given_classes() {
    const K: CharClass = CharClass::Keyword;
    const P: CharClass = CharClass::Punctuation;
    const W: CharClass = CharClass::Whitespace;
    // "ab.. cd" from a cursor at byte 10: one grapheme per byte.
    let starts: Vec<usize> = (0..7).collect();
    let cls = vec![K, K, P, P, W, K, K];
    assert_eq!(first_other_index(&cls, 0, K), 2);
    assert_eq!(first_other_index(&cls, 5, K), 7);
    assert_eq!(word_right_start_from(&starts, &cls, 10, 17), 12);
    assert_eq!(word_right_start_from(&starts[..3].to_vec(), &cls[..3].to_vec(), 10, 13), 12);
    assert_eq!(word_right_start_from(&vec![0, 1], &vec![K, K], 10, 12), 12);
    assert_eq!(word_right_start_from(&vec![0, 1, 2], &vec![P, W, K], 0, 3), 2);
    assert_eq!(word_right_end_from(&starts, &cls, 10, 17), 11);
    assert_eq!(word_right_end_from(&vec![], &vec![], 4, 4), 4);
    assert_eq!(word_left_from(&starts, &cls), 5);
    assert_eq!(word_left_from(&starts[..5].to_vec(), &cls[..5].to_vec()), 2);
    assert_eq!(word_left_from(&vec![0, 1], &vec![W, W]), 0);
}
