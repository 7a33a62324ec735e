//! Word motions written in selection notation: `[` marks the anchor and
//! `]` the head, as byte offsets into the text without the marks.
use reedline::core_editor::HxRange;
use reedline::edit_mode::hx::word::word_move;
use reedline::enums::{EditCommand, Movement, WordMotionTarget};

/// Parse selection notation into (buffer, anchor, head).
fn parse_selection(s: &str) -> (String, usize, usize) {
    let mut buf = String::new();
    let mut anchor_pos: Option<usize> = None;
    let mut head_pos: Option<usize> = None;
    for ch in s.chars() {
        match ch {
            '[' => {
                assert!(anchor_pos.is_none(), "duplicate `[` in notation");
                anchor_pos = Some(buf.len());
            }
            ']' => {
                assert!(head_pos.is_none(), "duplicate `]` in notation");
                head_pos = Some(buf.len());
            }
            _ => buf.push(ch),
        }
    }
    let anchor = anchor_pos.expect("missing `[` in notation");
    let head = head_pos.expect("missing `]` in notation");
    (buf, anchor, head)
}

/// The block cursor of a selection: the character before the head of a
/// forward selection, the head itself otherwise.
fn cursor_of(buf: &str, anchor: usize, head: usize) -> usize {
    if anchor < head {
        buf[..head].char_indices().next_back().map(|(i, _)| i).unwrap_or(0)
    } else {
        head
    }
}

/// Run word motions from the cursor of `input` and compare with `expected`.
fn assert_sel(commands: &[EditCommand], input: &str, expected: &str) {
    let (buf, in_anchor, in_head) = parse_selection(input);
    let (exp_buf, exp_anchor, exp_head) = parse_selection(expected);
    assert_eq!(buf, exp_buf, "input/expected buffer mismatch");
    let cursor = cursor_of(&buf, in_anchor, in_head);
    let mut sel = HxRange { anchor: cursor, head: cursor };
    for cmd in commands {
        match cmd {
            EditCommand::HxWordMotion { target, movement, count } => {
                assert_eq!(*movement, Movement::Move);
                sel = word_move(&buf, &sel, *count, *target);
            }
            other => panic!("not a word motion: {other:?}"),
        }
    }
    assert_eq!(
        (sel.anchor, sel.head),
        (exp_anchor, exp_head),
        "\n  input:    {}\n  expected: {}",
        input,
        expected,
    );
}

// ── w (word right start) ────────────────────────────────────────────

#[test]
fn mod_test_w() {
    let w = [EditCommand::HxWordMotion {
        target: WordMotionTarget::NextWordStart,
        movement: Movement::Move,
        count: 1,
    }];

    assert_sel(&w, "[h]ello world", "[hello ]world");
    assert_sel(&w, "h[e]llo world", "h[ello ]world");
    assert_sel(&w, "[h]ello   world", "[hello   ]world");
    assert_sel(&w, "[h]ello   .world", "[hello   ].world");
    assert_sel(&w, "[h]ello.world", "[hello].world");
    assert_sel(&w, "hello[.]world", "hello.[world]");
    assert_sel(&w, "[h]ello_world test", "[hello_world ]test");
    assert_sel(&w, "test [.].. next", "test [... ]next");
}

// ── b (word left) ───────────────────────────────────────────────────

#[test]
fn mod_test_b() {
    let b = [EditCommand::HxWordMotion {
        target: WordMotionTarget::PrevWordStart,
        movement: Movement::Move,
        count: 1,
    }];

    assert_sel(&b, "hello worl[d]", "hello ]world[");
    assert_sel(&b, "hello [w]orld", "]hello [world");
    assert_sel(&b, "hello[.]world", "]hello[.world");
    assert_sel(&b, "hello_worl[d]", "]hello_world[");
    assert_sel(&b, "test ...[n]ext", "test ]...[next");
}

// ── e (word right end) ──────────────────────────────────────────────

#[test]
fn mod_test_e() {
    let e = [EditCommand::HxWordMotion {
        target: WordMotionTarget::NextWordEnd,
        movement: Movement::Move,
        count: 1,
    }];

    assert_sel(&e, "[h]ello world", "[hello] world");
    assert_sel(&e, "hell[o] world", "hello[ world]");
    assert_sel(&e, "[h]ello.world", "[hello].world");
    assert_sel(&e, "hello[.]world", "hello.[world]");
    assert_sel(&e, "[h]ello_world test", "[hello_world] test");
    assert_sel(&e, "[t]est... next", "[test]... next");
    assert_sel(&e, "test[...] next", "test...[ next]");
}

// ── W (WORD right start) ────────────────────────────────────────────

#[test]
fn mod_test_big_w() {
    let w = [EditCommand::HxWordMotion {
        target: WordMotionTarget::NextLongWordStart,
        movement: Movement::Move,
        count: 1,
    }];

    assert_sel(&w, "[h]ello.world test", "[hello.world ]test");
    assert_sel(&w, "[h]ello world", "[hello ]world");
    assert_sel(&w, "[h]ello.world", "[hello.world]");
    assert_sel(&w, "hello.world [t]est", "hello.world [test]");
    assert_sel(&w, "[h]ello_world.test next", "[hello_world.test ]next");
    assert_sel(&w, "[t]est... next", "[test... ]next");
}

// ── B (WORD left) ───────────────────────────────────────────────────

#[test]
fn mod_test_big_b() {
    let b = [EditCommand::HxWordMotion {
        target: WordMotionTarget::PrevLongWordStart,
        movement: Movement::Move,
        count: 1,
    }];

    assert_sel(&b, "hello.world tes[t]", "hello.world ]test[");
    assert_sel(&b, "hello.world [t]est", "]hello.world [test");
    assert_sel(&b, "hello.worl[d]", "]hello.world[");
    assert_sel(&b, "test...nex[t]", "]test...next[");
}

// ── E (WORD right end) ──────────────────────────────────────────────

#[test]
fn mod_test_big_e() {
    let e = [EditCommand::HxWordMotion {
        target: WordMotionTarget::NextLongWordEnd,
        movement: Movement::Move,
        count: 1,
    }];

    assert_sel(&e, "[h]ello.world test", "[hello.world] test");
    assert_sel(&e, "[hello.world] test", "hello.world[ test]");
    assert_sel(&e, "[h]ello world", "[hello] world");
    assert_sel(&e, "[t]est...next more", "[test...next] more");
}

// ── parse_selection unit tests ──────────────────────────────────────

#[test]
fn test_parse_selection_forward() {
    let (buf, anchor, head) = parse_selection("[hello] world");
    assert_eq!(buf, "hello world");
    assert_eq!(anchor, 0);
    assert_eq!(head, 5);
}

#[test]
fn test_parse_selection_backward() {
    let (buf, anchor, head) = parse_selection("]hello[ world");
    assert_eq!(buf, "hello world");
    assert_eq!(anchor, 5);
    assert_eq!(head, 0);
}

#[test]
fn test_parse_selection_one_wide() {
    let (buf, anchor, head) = parse_selection("[h]ello world");
    assert_eq!(buf, "hello world");
    assert_eq!(anchor, 0);
    assert_eq!(head, 1);
}

#[test]
fn test_parse_selection_mid_buffer() {
    let (buf, anchor, head) = parse_selection("hello [world]");
    assert_eq!(buf, "hello world");
    assert_eq!(anchor, 6);
    assert_eq!(head, 11);
}

#[test]
fn test_parse_selection_utf8() {
    let (buf, anchor, head) = parse_selection("[café] world");
    assert_eq!(buf, "café world");
    assert_eq!(anchor, 0);
    assert_eq!(head, 5); // 'é' is 2 bytes: c(1) a(1) f(1) é(2) = 5
}

// ── UTF-8 word motion tests ─────────────────────────────────────────

#[test]
fn test_w_utf8_cafe() {
    let w = [EditCommand::HxWordMotion {
        target: WordMotionTarget::NextWordStart,
        movement: Movement::Move,
        count: 1,
    }];
    // "café world" — é is 2 bytes, so "café" ends at byte 5
    assert_sel(&w, "[c]afé world", "[café ]world");
}

#[test]
fn test_b_utf8_uber() {
    let b = [EditCommand::HxWordMotion {
        target: WordMotionTarget::PrevWordStart,
        movement: Movement::Move,
        count: 1,
    }];
    // "über cool" — ü is 2 bytes
    assert_sel(&b, "über coo[l]", "über ]cool[");
}
