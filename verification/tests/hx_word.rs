//! Word motion tables for the Helix word module, in byte offsets.
use reedline::core_editor::HxRange;
use reedline::edit_mode::hx::word::{word_left, word_right_end, word_right_start};

/// Run a motion function against a table of (sample, scenarios).
/// Each scenario is (count, begin_range, expected_range).
fn run_motion_tests(
    f: fn(&str, &HxRange, usize, bool) -> HxRange,
    big: bool,
    tests: &[(&str, Vec<(usize, HxRange, HxRange)>)],
) {
    for (sample, scenarios) in tests {
        for (count, begin, expected) in scenarios {
            let result = f(sample, begin, *count, big);
            assert_eq!(
                result, *expected,
                "\n  sample:   {:?}\n  count:    {}\n  begin:    ({}, {})",
                sample, count, begin.anchor, begin.head,
            );
        }
    }
}

fn r(anchor: usize, head: usize) -> HxRange {
    HxRange { anchor, head }
}

// ── w (next word start) ─────────────────────────────────────────────

#[test]
fn word_test_w() {
    run_motion_tests(word_right_start, false, &[
        ("Basic forward motion stops at the first space",
            vec![(1, r(0, 0), r(0, 6))]),
        (" Starting from a boundary advances the anchor",
            vec![(1, r(0, 0), r(1, 10))]),
        ("Long       whitespace gap is bridged by the head",
            vec![(1, r(0, 0), r(0, 11))]),
        ("Previous anchor is irrelevant for forward motions",
            vec![(1, r(12, 0), r(0, 9))]),
        ("    Starting from whitespace moves to last space in sequence",
            vec![(1, r(0, 0), r(0, 4))]),
        ("Starting from mid-word leaves anchor at start position and moves head",
            vec![(1, r(3, 3), r(3, 9))]),
        ("Identifiers_with_underscores are considered a single word",
            vec![(1, r(0, 0), r(0, 29))]),
        ("Jumping\n    into starting whitespace selects the spaces before 'into'",
            vec![(1, r(0, 7), r(8, 12))]),
        ("alphanumeric.!,and.?=punctuation are considered 'words' for the purposes of word motion",
            vec![
                (1, r(0, 0), r(0, 12)),
                (1, r(0, 12), r(12, 15)),
                (1, r(12, 15), r(15, 18)),
            ]),
        ("...   ... punctuation and spaces behave as expected",
            vec![
                (1, r(0, 0), r(0, 6)),
                (1, r(0, 6), r(6, 10)),
            ]),
        (".._.._ punctuation is not joined by underscores into a single block",
            vec![(1, r(0, 0), r(0, 2))]),
        ("Newlines\n\nare bridged seamlessly.",
            vec![
                (1, r(0, 0), r(0, 8)),
                (1, r(0, 8), r(10, 14)),
            ]),
        ("Jumping\n\n\n\n\n\n   from newlines to whitespace selects whitespace.",
            vec![(1, r(0, 9), r(13, 16))]),
        ("A failed motion does not modify the range",
            vec![(3, r(37, 41), r(37, 41))]),
        ("oh oh oh two character words!",
            vec![
                (1, r(0, 0), r(0, 3)),
                (1, r(0, 3), r(3, 6)),
                (1, r(0, 2), r(1, 3)),
            ]),
        ("Multiple motions at once resolve correctly",
            vec![(3, r(0, 0), r(17, 20))]),
        ("Excessive motions are performed partially",
            vec![(999, r(0, 0), r(32, 41))]),
        ("",
            vec![(1, r(0, 0), r(0, 0))]),
        ("\n\n\n\n\n",
            vec![(1, r(0, 0), r(5, 5))]),
        ("\n   \n   \n Jumping through alternated space blocks and newlines selects the space blocks",
            vec![
                (1, r(0, 0), r(1, 4)),
                (1, r(1, 4), r(5, 8)),
            ]),
    ]);
}

// ── W (next WORD start) ─────────────────────────────────────────────

#[test]
fn word_test_big_w() {
    run_motion_tests(word_right_start, true, &[
        ("Basic forward motion stops at the first space",
            vec![(1, r(0, 0), r(0, 6))]),
        (" Starting from a boundary advances the anchor",
            vec![(1, r(0, 0), r(1, 10))]),
        ("Long       whitespace gap is bridged by the head",
            vec![(1, r(0, 0), r(0, 11))]),
        ("Previous anchor is irrelevant for forward motions",
            vec![(1, r(12, 0), r(0, 9))]),
        ("    Starting from whitespace moves to last space in sequence",
            vec![(1, r(0, 0), r(0, 4))]),
        ("Starting from mid-word leaves anchor at start position and moves head",
            vec![(1, r(3, 3), r(3, 9))]),
        ("Identifiers_with_underscores are considered a single word",
            vec![(1, r(0, 0), r(0, 29))]),
        ("Jumping\n    into starting whitespace selects the spaces before 'into'",
            vec![(1, r(0, 7), r(8, 12))]),
        ("alphanumeric.!,and.?=punctuation are not treated any differently than alphanumerics",
            vec![(1, r(0, 0), r(0, 33))]),
        ("...   ... punctuation and spaces behave as expected",
            vec![
                (1, r(0, 0), r(0, 6)),
                (1, r(0, 6), r(6, 10)),
            ]),
        (".._.._ punctuation is joined by underscores into a single word, as it behaves like alphanumerics",
            vec![(1, r(0, 0), r(0, 7))]),
        ("Newlines\n\nare bridged seamlessly.",
            vec![
                (1, r(0, 0), r(0, 8)),
                (1, r(0, 8), r(10, 14)),
            ]),
        ("Jumping\n\n\n\n\n\n   from newlines to whitespace selects whitespace.",
            vec![(1, r(0, 9), r(13, 16))]),
        ("A failed motion does not modify the range",
            vec![(3, r(37, 41), r(37, 41))]),
        ("oh oh oh two character words!",
            vec![
                (1, r(0, 0), r(0, 3)),
                (1, r(0, 3), r(3, 6)),
                (1, r(0, 1), r(0, 3)),
            ]),
        ("Multiple motions at once resolve correctly",
            vec![(3, r(0, 0), r(17, 20))]),
        ("Excessive motions are performed partially",
            vec![(999, r(0, 0), r(32, 41))]),
        ("",
            vec![(1, r(0, 0), r(0, 0))]),
        ("\n\n\n\n\n",
            vec![(1, r(0, 0), r(5, 5))]),
        ("\n   \n   \n Jumping through alternated space blocks and newlines selects the space blocks",
            vec![
                (1, r(0, 0), r(1, 4)),
                (1, r(1, 4), r(5, 8)),
            ]),
    ]);
}

// ── b (previous word start) ─────────────────────────────────────────

#[test]
fn word_test_b() {
    run_motion_tests(word_left, false, &[
        ("Basic backward motion from the middle of a word",
            vec![(1, r(3, 3), r(4, 0))]),
        ("    Jump to start of a word preceded by whitespace",
            vec![(1, r(5, 5), r(6, 4))]),
        ("    Jump to start of line from start of word preceded by whitespace",
            vec![(1, r(4, 4), r(4, 0))]),
        ("Previous anchor is irrelevant for backward motions",
            vec![(1, r(12, 5), r(6, 0))]),
        ("    Starting from whitespace moves to first space in sequence",
            vec![(1, r(0, 4), r(4, 0))]),
        ("Identifiers_with_underscores are considered a single word",
            vec![(1, r(0, 20), r(20, 0))]),
        ("Jumping\n    \nback through a newline selects whitespace",
            vec![(1, r(0, 13), r(12, 8))]),
        ("Jumping to start of word from the end selects the word",
            vec![(1, r(6, 7), r(7, 0))]),
        ("alphanumeric.!,and.?=punctuation are considered 'words' for the purposes of word motion",
            vec![
                (1, r(29, 30), r(30, 21)),
                (1, r(30, 21), r(21, 18)),
                (1, r(21, 18), r(18, 15)),
            ]),
        ("...   ... punctuation and spaces behave as expected",
            vec![
                (1, r(0, 10), r(10, 6)),
                (1, r(10, 6), r(6, 0)),
            ]),
        (".._.._ punctuation is not joined by underscores into a single block",
            vec![(1, r(0, 6), r(5, 3))]),
        ("Newlines\n\nare bridged seamlessly.",
            vec![(1, r(0, 10), r(8, 0))]),
        ("Jumping    \n\n\n\n\nback from within a newline group selects previous block",
            vec![(1, r(0, 13), r(11, 0))]),
        ("Failed motions do not modify the range",
            vec![(0, r(3, 0), r(3, 0))]),
        ("Multiple motions at once resolve correctly",
            vec![(3, r(18, 18), r(9, 0))]),
        ("Excessive motions are performed partially",
            vec![(999, r(40, 40), r(10, 0))]),
        ("",
            vec![(1, r(0, 0), r(0, 0))]),
        ("\n\n\n\n\n",
            vec![(1, r(5, 5), r(0, 0))]),
        ("   \n   \nJumping back through alternated space blocks and newlines selects the space blocks",
            vec![
                (1, r(0, 8), r(7, 4)),
                (1, r(7, 4), r(3, 0)),
            ]),
    ]);
}

// ── B (previous WORD start) ─────────────────────────────────────────

#[test]
fn word_test_big_b() {
    run_motion_tests(word_left, true, &[
        ("Basic backward motion from the middle of a word",
            vec![(1, r(3, 3), r(4, 0))]),
        ("    Jump to start of a word preceded by whitespace",
            vec![(1, r(5, 5), r(6, 4))]),
        ("    Jump to start of line from start of word preceded by whitespace",
            vec![(1, r(3, 4), r(4, 0))]),
        ("Previous anchor is irrelevant for backward motions",
            vec![(1, r(12, 5), r(6, 0))]),
        ("    Starting from whitespace moves to first space in sequence",
            vec![(1, r(0, 4), r(4, 0))]),
        ("Identifiers_with_underscores are considered a single word",
            vec![(1, r(0, 20), r(20, 0))]),
        ("Jumping\n    \nback through a newline selects whitespace",
            vec![(1, r(0, 13), r(12, 8))]),
        ("Jumping to start of word from the end selects the word",
            vec![(1, r(6, 7), r(7, 0))]),
        ("alphanumeric.!,and.?=punctuation are treated exactly the same",
            vec![(1, r(29, 30), r(30, 0))]),
        ("...   ... punctuation and spaces behave as expected",
            vec![
                (1, r(0, 10), r(10, 6)),
                (1, r(10, 6), r(6, 0)),
            ]),
        (".._.._ punctuation is joined by underscores into a single block",
            vec![(1, r(0, 6), r(6, 0))]),
        ("Newlines\n\nare bridged seamlessly.",
            vec![(1, r(0, 10), r(8, 0))]),
        ("Jumping    \n\n\n\n\nback from within a newline group selects previous block",
            vec![(1, r(0, 13), r(11, 0))]),
        ("Failed motions do not modify the range",
            vec![(0, r(3, 0), r(3, 0))]),
        ("Multiple motions at once resolve correctly",
            vec![(3, r(19, 19), r(9, 0))]),
        ("Excessive motions are performed partially",
            vec![(999, r(40, 40), r(10, 0))]),
        ("",
            vec![(1, r(0, 0), r(0, 0))]),
        ("\n\n\n\n\n",
            vec![(1, r(5, 5), r(0, 0))]),
        ("   \n   \nJumping back through alternated space blocks and newlines selects the space blocks",
            vec![
                (1, r(0, 8), r(7, 4)),
                (1, r(7, 4), r(3, 0)),
            ]),
    ]);
}

// ── e (next word end) ───────────────────────────────────────────────

#[test]
fn word_test_e() {
    run_motion_tests(word_right_end, false, &[
        ("Basic forward motion from the start of a word to the end of it",
            vec![(1, r(0, 0), r(0, 5))]),
        ("Basic forward motion from the end of a word to the end of the next",
            vec![(1, r(0, 5), r(5, 13))]),
        ("Basic forward motion from the middle of a word to the end of it",
            vec![(1, r(2, 2), r(2, 5))]),
        ("    Jumping to end of a word preceded by whitespace",
            vec![(1, r(0, 0), r(0, 11))]),
        ("Previous anchor is irrelevant for end of word motion",
            vec![(1, r(12, 2), r(2, 8))]),
        ("Identifiers_with_underscores are considered a single word",
            vec![(1, r(0, 0), r(0, 28))]),
        ("Jumping\n    into starting whitespace selects up to the end of next word",
            vec![(1, r(0, 7), r(8, 16))]),
        ("alphanumeric.!,and.?=punctuation are considered 'words' for the purposes of word motion",
            vec![
                (1, r(0, 0), r(0, 12)),
                (1, r(0, 12), r(12, 15)),
                (1, r(12, 15), r(15, 18)),
            ]),
        ("...   ... punctuation and spaces behave as expected",
            vec![
                (1, r(0, 0), r(0, 3)),
                (1, r(0, 3), r(3, 9)),
            ]),
        (".._.._ punctuation is not joined by underscores into a single block",
            vec![(1, r(0, 0), r(0, 2))]),
        ("Newlines\n\nare bridged seamlessly.",
            vec![
                (1, r(0, 0), r(0, 8)),
                (1, r(0, 8), r(10, 13)),
            ]),
        ("Jumping\n\n\n\n\n\n   from newlines to whitespace selects to end of next word.",
            vec![(1, r(0, 8), r(13, 20))]),
        ("A failed motion does not modify the range",
            vec![(3, r(37, 41), r(37, 41))]),
        ("Multiple motions at once resolve correctly",
            vec![(3, r(0, 0), r(16, 19))]),
        ("Excessive motions are performed partially",
            vec![(999, r(0, 0), r(31, 41))]),
        ("",
            vec![(1, r(0, 0), r(0, 0))]),
        ("\n\n\n\n\n",
            vec![(1, r(0, 0), r(5, 5))]),
        ("\n   \n   \n Jumping through alternated space blocks and newlines selects the space blocks",
            vec![
                (1, r(0, 0), r(1, 4)),
                (1, r(1, 4), r(5, 8)),
            ]),
    ]);
}

// ── E (next WORD end) ───────────────────────────────────────────────

#[test]
fn word_test_big_e() {
    run_motion_tests(word_right_end, true, &[
        ("Basic forward motion from the start of a word to the end of it",
            vec![(1, r(0, 0), r(0, 5))]),
        ("Basic forward motion from the end of a word to the end of the next",
            vec![(1, r(0, 5), r(5, 13))]),
        ("Basic forward motion from the middle of a word to the end of it",
            vec![(1, r(2, 2), r(2, 5))]),
        ("    Jumping to end of a word preceded by whitespace",
            vec![(1, r(0, 0), r(0, 11))]),
        ("Previous anchor is irrelevant for end of word motion",
            vec![(1, r(12, 2), r(2, 8))]),
        ("Identifiers_with_underscores are considered a single word",
            vec![(1, r(0, 0), r(0, 28))]),
        ("Jumping\n    into starting whitespace selects up to the end of next word",
            vec![(1, r(0, 7), r(8, 16))]),
        ("alphanumeric.!,and.?=punctuation are treated the same way",
            vec![(1, r(0, 0), r(0, 32))]),
        ("...   ... punctuation and spaces behave as expected",
            vec![
                (1, r(0, 0), r(0, 3)),
                (1, r(0, 3), r(3, 9)),
            ]),
        (".._.._ punctuation is joined by underscores into a single block",
            vec![(1, r(0, 0), r(0, 6))]),
        ("Newlines\n\nare bridged seamlessly.",
            vec![
                (1, r(0, 0), r(0, 8)),
                (1, r(0, 8), r(10, 13)),
            ]),
        ("Jumping\n\n\n\n\n\n   from newlines to whitespace selects to end of next word.",
            vec![(1, r(0, 9), r(13, 20))]),
        ("A failed motion does not modify the range",
            vec![(3, r(37, 41), r(37, 41))]),
        ("Multiple motions at once resolve correctly",
            vec![(3, r(0, 0), r(16, 19))]),
        ("Excessive motions are performed partially",
            vec![(999, r(0, 0), r(31, 41))]),
        ("",
            vec![(1, r(0, 0), r(0, 0))]),
        ("\n\n\n\n\n",
            vec![(1, r(0, 0), r(5, 5))]),
        ("\n   \n   \n Jumping through alternated space blocks and newlines selects the space blocks",
            vec![
                (1, r(0, 0), r(1, 4)),
                (1, r(1, 4), r(5, 8)),
            ]),
    ]);
}

// ── Non-ASCII / multi-byte UTF-8 ──────────────────────────────────

#[test]
fn test_w_multibyte() {
    // "café world" — 'é' is 2 bytes (U+00E9), so byte offsets diverge from char indices.
    // char indices: c=0 a=1 f=2 é=3 ' '=4 w=5 o=6 r=7 l=8 d=9
    // byte offsets: c=0 a=1 f=2 é=3 ' '=5 w=6 o=7 r=8 l=9 d=10
    let buf = "café world";
    assert_eq!(buf.len(), 11); // 10 chars but 11 bytes

    // w from start: "café " → anchor=0, head at 'w' (byte 6)
    // In char indices: anchor=0, head=5 → byte: anchor=0, head=6
    // But word_right_start selects "café " as anchor=0, head=5 (chars) → bytes 0, 6
    let result = word_right_start(buf, &r(0, 0), 1, false);
    assert_eq!(result.anchor, 0); // byte offset of char 0
    assert_eq!(result.head, 6); // byte offset of char 5 ('w' = byte 6)
}

#[test]
fn test_b_multibyte() {
    let buf = "café world";
    // b from end (byte 10, char 9): should go to "world" start (byte 6)
    let result = word_left(buf, &r(10, 10), 1, false);
    assert_eq!(result.head, 6); // byte offset of 'w'
}

#[test]
fn test_e_multibyte() {
    let buf = "café world";
    // e from start: should go to end of "café" (byte 4 = end of 'é', char 3)
    // In Helix semantics, head goes past the word end so:
    // char anchor=0, head=4 → byte anchor=0, head=5
    let result = word_right_end(buf, &r(0, 0), 1, false);
    assert_eq!(result.anchor, 0);
    assert_eq!(result.head, 5); // byte offset past 'é' (byte 3+2=5)
}

#[test]
fn forward_motions_go_further_with_larger_counts() {
    let s = "alpha beta, gamma\n delta";
    for f in [word_right_start, word_right_end] {
        let mut last = 0;
        for count in 0..8 {
            let res = f(s, &r(0, 0), count, false);
            assert!(res.anchor <= res.head && res.head <= s.len());
            assert!(res.head >= last);
            assert!(s.is_char_boundary(res.head) && s.is_char_boundary(res.anchor));
            last = res.head;
        }
    }
    assert_eq!(word_right_start(s, &r(0, s.len()), 3, false), r(0, s.len()));
}

#[test]
fn backward_motions_go_further_with_larger_counts() {
    let s = "alpha beta, gamma\n delta";
    let start = r(s.len(), s.len());
    let mut last = s.len();
    for count in 1..8 {
        let res = word_left(s, &start, count, false);
        assert!(res.head <= res.anchor && res.anchor <= s.len());
        assert!(res.head < s.len());
        assert!(res.head <= last);
        last = res.head;
    }
    assert_eq!(word_left(s, &r(4, 0), 2, true), r(4, 0));
}
