//! Helix-style word boundaries and word motions.
//!
//! Characters fall into four classes: word characters (alphanumeric and
//! underscore), punctuation, whitespace and line endings. Small-word
//! motions (`w`/`b`/`e`) stop at any class change; long-word motions
//! (`W`/`B`/`E`) treat word characters and punctuation alike.
//!
//! A motion takes a selection (anchor and head, in byte offsets) and
//! returns the new selection, with both ends adjusted.
use vstd::prelude::*;

use crate::core_editor::HxRange;
use crate::enums::WordMotionTarget;
use crate::text::{
    alphanumeric, byte_offset, bytes_len, char_index_at, is_alphanumeric, is_char_boundary_of,
    is_whitespace, is_whitespace_char, lemma_boundary_char, lemma_boundary_index,
    lemma_byte_offset_len, lemma_byte_offset_mono, lemma_byte_offset_strict,
    lemma_char_index_at_bounds, lemma_next_grapheme_index_bounds, lemma_prev_grapheme_index_bounds,
    next_grapheme_index, prev_grapheme_index, CharOffsets,
};

verus! {

/// Character classes for word boundaries.
#[derive(Clone, Copy, Debug, PartialEq, Eq, Structural)]
pub enum CharClass {
    Word,
    Punctuation,
    Whitespace,
    /// Line endings are apart from whitespace, so `\n` and a space next
    /// to it form a boundary.
    Eol,
}

pub open spec fn char_class(c: char) -> CharClass {
    if c == '\n' {
        CharClass::Eol
    } else if alphanumeric(c) || c == '_' {
        CharClass::Word
    } else if is_whitespace_char(c) {
        CharClass::Whitespace
    } else {
        CharClass::Punctuation
    }
}

/// A small-word boundary lies between characters of different classes.
pub open spec fn word_boundary(a: char, b: char) -> bool {
    char_class(a) != char_class(b)
}

/// A long-word boundary is a class change other than between word
/// characters and punctuation.
pub open spec fn long_word_boundary(a: char, b: char) -> bool {
    let (x, y) = (char_class(a), char_class(b));
    if (x == CharClass::Word && y == CharClass::Punctuation) || (x == CharClass::Punctuation && y
        == CharClass::Word) {
        false
    } else {
        x != y
    }
}

pub open spec fn boundary(big: bool, a: char, b: char) -> bool {
    if big {
        long_word_boundary(a, b)
    } else {
        word_boundary(a, b)
    }
}

/// A word start is reached between `prev` and `next` at a boundary where
/// `next` is not whitespace (a line ending counts).
pub open spec fn reached_start(big: bool, prev: char, next: char) -> bool {
    boundary(big, prev, next) && (next == '\n' || !is_whitespace_char(next))
}

/// A word end is reached between `prev` and `next` at a boundary where
/// `prev` is not whitespace (or `next` is a line ending).
pub open spec fn reached_end(big: bool, prev: char, next: char) -> bool {
    boundary(big, prev, next) && (!is_whitespace_char(prev) || next == '\n')
}

pub open spec fn reached(big: bool, end: bool, prev: char, next: char) -> bool {
    if end {
        reached_end(big, prev, next)
    } else {
        reached_start(big, prev, next)
    }
}

/// Classify a character.
pub fn categorize_char(ch: char) -> (r: CharClass)
    ensures
        r == char_class(ch),
{
    if ch == '\n' {
        CharClass::Eol
    } else if is_alphanumeric(ch) || ch == '_' {
        CharClass::Word
    } else if is_whitespace(ch) {
        CharClass::Whitespace
    } else {
        CharClass::Punctuation
    }
}

/// Whether a small-word boundary lies between `a` and `b`.
pub fn is_word_boundary(a: char, b: char) -> (r: bool)
    ensures
        r == word_boundary(a, b),
{
    categorize_char(a) != categorize_char(b)
}

/// Whether a long-word boundary lies between `a` and `b`.
pub fn is_long_word_boundary(a: char, b: char) -> (r: bool)
    ensures
        r == long_word_boundary(a, b),
{
    let x = categorize_char(a);
    let y = categorize_char(b);
    if (x == CharClass::Word && y == CharClass::Punctuation) || (x == CharClass::Punctuation && y
        == CharClass::Word) {
        false
    } else {
        x != y
    }
}

/// Whether a forward word-start motion stops between `prev` and `next`.
pub fn reached_word_start(big: bool, prev: char, next: char) -> (r: bool)
    ensures
        r == reached_start(big, prev, next),
{
    let b = if big {
        is_long_word_boundary(prev, next)
    } else {
        is_word_boundary(prev, next)
    };
    b && (next == '\n' || !is_whitespace(next))
}

/// Whether a word-end motion stops between `prev` and `next`.
pub fn reached_word_end(big: bool, prev: char, next: char) -> (r: bool)
    ensures
        r == reached_end(big, prev, next),
{
    let b = if big {
        is_long_word_boundary(prev, next)
    } else {
        is_word_boundary(prev, next)
    };
    b && (!is_whitespace(prev) || next == '\n')
}

fn reached_exec(big: bool, end: bool, prev: char, next: char) -> (r: bool)
    ensures
        r == reached(big, end, prev, next),
{
    if end {
        reached_word_end(big, prev, next)
    } else {
        reached_word_start(big, prev, next)
    }
}

// ── Forward motions ──────────────────────────────────────────────────
/// The first index at or after `h` that is not a line ending.
pub open spec fn skip_newlines_right(s: Seq<char>, h: int) -> int
    decreases s.len() - h,
{
    if 0 <= h < s.len() && s[h] == '\n' {
        skip_newlines_right(s, h + 1)
    } else {
        h
    }
}

/// The first index `h' >= h` at which the motion is reached between the
/// characters at `h' - 1` and `h'`, or the end of the buffer.
pub open spec fn scan_right(s: Seq<char>, big: bool, end: bool, h: int) -> int
    decreases s.len() - h,
{
    if h >= s.len() || h < 1 {
        s.len() as int
    } else if reached(big, end, s[h - 1], s[h]) {
        h
    } else {
        scan_right(s, big, end, h + 1)
    }
}

/// One forward word step from the selection `(a, h)` (character
/// indices): skip line endings, then run to the next stop. The anchor
/// moves to where the step begins when a boundary lies right there.
pub open spec fn step_right(s: Seq<char>, big: bool, end: bool, a: int, h: int) -> (int, int) {
    let h1 = skip_newlines_right(s, h);
    let prev: Option<char> = if h1 > h {
        Some('\n')
    } else if h > 0 {
        Some(s[h - 1])
    } else {
        None
    };
    let a1 = if prev == Some('\n') {
        h1
    } else {
        a
    };
    if h1 >= s.len() {
        (a1, h1)
    } else {
        let a2 = if prev is None || reached(big, end, prev->0, s[h1]) {
            h1
        } else {
            a1
        };
        (a2, scan_right(s, big, end, h1 + 1))
    }
}

/// `n` forward steps, stopping early at the end of the buffer.
pub open spec fn iterate_right(s: Seq<char>, big: bool, end: bool, n: nat, a: int, h: int) -> (
    int,
    int,
)
    decreases n,
{
    if n == 0 || h >= s.len() {
        (a, h)
    } else {
        let (a1, h1) = step_right(s, big, end, a, h);
        iterate_right(s, big, end, (n - 1) as nat, a1, h1)
    }
}

/// The forward motion on a buffer `s` from the selection `range`: the
/// head first becomes a block cursor, then `count` steps are taken.
pub open spec fn word_right_spec(s: Seq<char>, range: HxRange, count: nat, big: bool, end: bool) -> HxRange {
    let len = s.len() as int;
    let ra = char_index_at(s, range.anchor as int);
    let rh = char_index_at(s, range.head as int);
    if len == 0 || rh >= len {
        range
    } else {
        let a0 = if ra < rh {
            prev_grapheme_index(s, rh)
        } else {
            rh
        };
        let h0 = if ra < rh {
            rh
        } else {
            let n = next_grapheme_index(s, rh);
            if n < len {
                n
            } else {
                len
            }
        };
        let (a, h) = iterate_right(s, big, end, count, a0, h0);
        HxRange { anchor: byte_offset(s, a) as usize, head: byte_offset(s, h) as usize }
    }
}

proof fn lemma_skip_newlines_right(s: Seq<char>, h: int)
    requires
        0 <= h <= s.len(),
    ensures
        h <= skip_newlines_right(s, h) <= s.len(),
        forall|k: int| h <= k < skip_newlines_right(s, h) ==> s[k] == '\n',
        skip_newlines_right(s, h) < s.len() ==> s[skip_newlines_right(s, h)] != '\n',
    decreases s.len() - h,
{
    if h < s.len() && s[h] == '\n' {
        lemma_skip_newlines_right(s, h + 1);
    }
}

proof fn lemma_scan_right_bounds(s: Seq<char>, big: bool, end: bool, h: int)
    requires
        1 <= h,
    ensures
        scan_right(s, big, end, h) <= s.len(),
        h <= s.len() ==> h <= scan_right(s, big, end, h),
    decreases s.len() - h,
{
    if h < s.len() && !reached(big, end, s[h - 1], s[h]) {
        lemma_scan_right_bounds(s, big, end, h + 1);
    }
}

/// Forward steps keep the head within the buffer and never move it
/// back; a step taken before the end moves it on, and an anchor that does
/// not lie past the head stays at or before it.
proof fn lemma_iterate_right_bounds(s: Seq<char>, big: bool, end: bool, n: nat, a: int, h: int)
    requires
        0 <= h <= s.len(),
    ensures
        h <= iterate_right(s, big, end, n, a, h).1 <= s.len(),
        n >= 1 && h < s.len() ==> h < iterate_right(s, big, end, n, a, h).1,
        0 <= a <= h ==> 0 <= iterate_right(s, big, end, n, a, h).0 <= iterate_right(
            s,
            big,
            end,
            n,
            a,
            h,
        ).1,
    decreases n,
{
    if n > 0 && h < s.len() {
        lemma_skip_newlines_right(s, h);
        let h1 = skip_newlines_right(s, h);
        if h1 < s.len() {
            lemma_scan_right_bounds(s, big, end, h1 + 1);
        }
        let (a1, h2) = step_right(s, big, end, a, h);
        lemma_iterate_right_bounds(s, big, end, (n - 1) as nat, a1, h2);
    }
}

/// More forward steps from the same selection leave the head no further
/// back.
proof fn lemma_iterate_right_mono(s: Seq<char>, big: bool, end: bool, n: nat, m: nat, a: int, h: int)
    requires
        0 <= h <= s.len(),
        n <= m,
    ensures
        iterate_right(s, big, end, n, a, h).1 <= iterate_right(s, big, end, m, a, h).1,
    decreases n,
{
    if n == 0 {
        lemma_iterate_right_bounds(s, big, end, m, a, h);
    } else if h < s.len() {
        lemma_skip_newlines_right(s, h);
        let h1 = skip_newlines_right(s, h);
        if h1 < s.len() {
            lemma_scan_right_bounds(s, big, end, h1 + 1);
        }
        let (a1, h2) = step_right(s, big, end, a, h);
        lemma_iterate_right_mono(s, big, end, (n - 1) as nat, (m - 1) as nat, a1, h2);
    }
}

/// On a character boundary, a head at the end of `s` has the index of
/// its length, any other head the index of a character whose offset it is.
proof fn lemma_head_index(s: Seq<char>, b: int)
    ensures
        is_char_boundary_of(s, b) && b == bytes_len(s) ==> char_index_at(s, b) == s.len(),
        is_char_boundary_of(s, b) && b < bytes_len(s) ==> char_index_at(s, b) < s.len() && byte_offset(
            s,
            char_index_at(s, b),
        ) == b,
        is_char_boundary_of(s, b) ==> byte_offset(s, char_index_at(s, b)) == b,
        is_char_boundary_of(s, b) ==> 0 <= b <= bytes_len(s),
{
    lemma_byte_offset_len(s);
    if is_char_boundary_of(s, b) {
        let i = choose|i: int| 0 <= i <= s.len() && #[trigger] byte_offset(s, i) == b;
        lemma_boundary_index(s, b, i);
        lemma_byte_offset_mono(s, i, s.len() as int);
        if i < s.len() {
            lemma_byte_offset_strict(s, i, s.len() as int);
        }
    }
}

/// What a forward motion promises of its result `r` on `s` from `range`,
/// where the head stands on a character boundary: at the end of the
/// buffer, or in an empty one, nothing moves; otherwise the head does not
/// move back, moves on when a step is taken, stays within the buffer,
/// and both ends land on character boundaries with the anchor not past
/// the head.
pub open spec fn moves_forward(s: Seq<char>, range: HxRange, count: nat, r: HxRange) -> bool {
    is_char_boundary_of(s, range.head as int) ==> if s.len() == 0 || range.head == bytes_len(s) {
        r == range
    } else {
        &&& range.head <= r.head <= bytes_len(s)
        &&& count >= 1 ==> range.head < r.head
        &&& r.anchor <= r.head
        &&& is_char_boundary_of(s, r.anchor as int)
        &&& is_char_boundary_of(s, r.head as int)
    }
}

/// A forward word motion from the same selection goes no less far with a
/// larger count.
pub proof fn word_right_monotone(
    s: Seq<char>,
    range: HxRange,
    count: nat,
    more: nat,
    big: bool,
    end: bool,
)
    requires
        count <= more,
        bytes_len(s) <= usize::MAX,
    ensures
        word_right_spec(s, range, count, big, end).head <= word_right_spec(
            s,
            range,
            more,
            big,
            end,
        ).head,
{
    let len = s.len() as int;
    let ra = char_index_at(s, range.anchor as int);
    let rh = char_index_at(s, range.head as int);
    lemma_char_index_at_bounds(s, range.head as int);
    if !(len == 0 || rh >= len) {
        let a0 = if ra < rh {
            prev_grapheme_index(s, rh)
        } else {
            rh
        };
        let h0 = if ra < rh {
            rh
        } else {
            let n = next_grapheme_index(s, rh);
            if n < len {
                n
            } else {
                len
            }
        };
        lemma_next_grapheme_index_bounds(s, rh);
        lemma_iterate_right_mono(s, big, end, count, more, a0, h0);
        lemma_iterate_right_bounds(s, big, end, count, a0, h0);
        lemma_iterate_right_bounds(s, big, end, more, a0, h0);
        let h1 = iterate_right(s, big, end, count, a0, h0).1;
        let h2 = iterate_right(s, big, end, more, a0, h0).1;
        lemma_byte_offset_mono(s, h1, h2);
        lemma_byte_offset_mono(s, h2, len);
        lemma_byte_offset_len(s);
    }
}

/// The shared forward motion of `w`/`W` (`end == false`) and `e`/`E`
/// (`end == true`).
fn word_right(buf: &str, range: &HxRange, count: usize, big: bool, end: bool) -> (r: HxRange)
    requires
        bytes_len(buf@) <= usize::MAX,
    ensures
        r == word_right_spec(buf@, *range, count as nat, big, end),
        moves_forward(buf@, *range, count as nat, r),
{
    let co = CharOffsets::new(buf);
    let len = co.len();
    let range_anchor = co.to_char(range.anchor);
    let range_head = co.to_char(range.head);
    proof {
        lemma_head_index(buf@, range.head as int);
    }
    if len == 0 || range_head >= len {
        return *range;
    }
    let mut anchor: usize;
    let mut head: usize;
    if range_anchor < range_head {
        anchor = co.prev_grapheme_char_idx(range_head);
        head = range_head;
    } else {
        anchor = range_head;
        let n = co.next_grapheme_char_idx(range_head);
        head = if n < len {
            n
        } else {
            len
        };
    }
    let ghost s = co.chars@;
    let ghost a0 = anchor as int;
    let ghost h0 = head as int;
    let ghost goal = iterate_right(s, big, end, count as nat, anchor as int, head as int);
    proof {
        lemma_iterate_right_bounds(s, big, end, count as nat, a0, h0);
    }
    let mut k: usize = 0;
    while k < count && head < len
        invariant
            co.wf(),
            s == co.chars@,
            s == buf@,
            len == s.len(),
            k <= count,
            anchor <= len,
            head <= len,
            iterate_right(s, big, end, (count - k) as nat, anchor as int, head as int) == goal,
        decreases count - k,
    {
        let ghost a_in = anchor as int;
        let ghost h_in = head as int;
        let mut prev_ch: Option<char> = if head > 0 {
            Some(co.char_at(head - 1))
        } else {
            None
        };
        proof {
            lemma_skip_newlines_right(s, h_in);
        }
        while head < len && co.char_at(head) == '\n'
            invariant
                co.wf(),
                s == co.chars@,
                len == s.len(),
                h_in <= head <= len,
                h_in < len,
                skip_newlines_right(s, head as int) == skip_newlines_right(s, h_in),
                forall|j: int| h_in <= j < head ==> s[j] == '\n',
                prev_ch == (if head > h_in {
                    Some('\n')
                } else if h_in > 0 {
                    Some(s[h_in - 1])
                } else {
                    None::<char>
                }),
            decreases len - head,
        {
            prev_ch = Some(co.char_at(head));
            head = head + 1;
        }
        proof {
            lemma_skip_newlines_right(s, head as int);
        }
        if prev_ch == Some('\n') {
            anchor = head;
        }
        let head_start = head;
        let ghost a1 = anchor as int;
        if head < len {
            let next_ch = co.char_at(head);
            let hit = match prev_ch {
                Some(p) => reached_exec(big, end, p, next_ch),
                None => true,
            };
            if hit {
                anchor = head;
            }
            prev_ch = Some(next_ch);
            head = head + 1;
            proof {
                lemma_scan_right_bounds(s, big, end, head as int);
            }
            while head < len
                invariant
                    co.wf(),
                    s == co.chars@,
                    len == s.len(),
                    1 <= head <= len,
                    prev_ch == Some(s[head - 1]),
                    scan_right(s, big, end, head as int) == scan_right(
                        s,
                        big,
                        end,
                        head_start + 1,
                    ),
                ensures
                    head as int == scan_right(s, big, end, head_start + 1),
                decreases len - head,
            {
                let next_ch = co.char_at(head);
                let p = match prev_ch {
                    Some(p) => p,
                    None => next_ch,
                };
                if reached_exec(big, end, p, next_ch) {
                    break;
                }
                prev_ch = Some(next_ch);
                head = head + 1;
            }
        }
        proof {
            assert((anchor as int, head as int) == step_right(s, big, end, a_in, h_in));
        }
        k = k + 1;
    }
    proof {
        assert((anchor as int, head as int) == goal);
        lemma_byte_offset_mono(s, range_head as int, head as int);
        lemma_byte_offset_mono(s, anchor as int, head as int);
        lemma_byte_offset_mono(s, head as int, len as int);
        lemma_byte_offset_len(s);
        if count >= 1 {
            lemma_byte_offset_strict(s, range_head as int, head as int);
        }
    }
    co.to_byte_range(anchor, head)
}

// ── Backward motions ─────────────────────────────────────────────────
/// The first index at or before `h` that does not follow a line ending.
pub open spec fn skip_newlines_left(s: Seq<char>, h: int) -> int
    decreases h,
{
    if 0 < h <= s.len() && s[h - 1] == '\n' {
        skip_newlines_left(s, h - 1)
    } else {
        h
    }
}

/// The last index `h' <= h` at which the backward motion is reached
/// between the characters at `h'` and `h' - 1`, or the buffer start.
pub open spec fn scan_left(s: Seq<char>, big: bool, h: int) -> int
    decreases h,
{
    if h <= 0 || h >= s.len() {
        0
    } else if reached_end(big, s[h], s[h - 1]) {
        h
    } else {
        scan_left(s, big, h - 1)
    }
}

/// One backward word step from the selection `(a, h)`.
pub open spec fn step_left(s: Seq<char>, big: bool, a: int, h: int) -> (int, int) {
    let h1 = skip_newlines_left(s, h);
    let prev: Option<char> = if h1 < h {
        Some('\n')
    } else if h < s.len() {
        Some(s[h])
    } else {
        None
    };
    let a1 = if prev == Some('\n') {
        h1
    } else {
        a
    };
    if h1 <= 0 {
        (a1, h1)
    } else {
        let a2 = if prev is None || reached_end(big, prev->0, s[h1 - 1]) {
            h1
        } else {
            a1
        };
        (a2, scan_left(s, big, h1 - 1))
    }
}

/// `n` backward steps, stopping early at the buffer start.
pub open spec fn iterate_left(s: Seq<char>, big: bool, n: nat, a: int, h: int) -> (int, int)
    decreases n,
{
    if n == 0 || h <= 0 {
        (a, h)
    } else {
        let (a1, h1) = step_left(s, big, a, h);
        iterate_left(s, big, (n - 1) as nat, a1, h1)
    }
}

/// The backward motion `b`/`B` on `s` from the selection `range`.
pub open spec fn word_left_spec(s: Seq<char>, range: HxRange, count: nat, big: bool) -> HxRange {
    let len = s.len() as int;
    let ra = char_index_at(s, range.anchor as int);
    let rh = char_index_at(s, range.head as int);
    if len == 0 || rh == 0 {
        range
    } else {
        let a0 = if ra < rh {
            rh
        } else {
            let n = next_grapheme_index(s, rh);
            if n < len {
                n
            } else {
                len
            }
        };
        let h0 = if ra < rh {
            prev_grapheme_index(s, rh)
        } else {
            rh
        };
        let (a, h) = iterate_left(s, big, count, a0, h0);
        HxRange { anchor: byte_offset(s, a) as usize, head: byte_offset(s, h) as usize }
    }
}

proof fn lemma_skip_newlines_left(s: Seq<char>, h: int)
    requires
        0 <= h <= s.len(),
    ensures
        0 <= skip_newlines_left(s, h) <= h,
        forall|k: int| skip_newlines_left(s, h) <= k < h ==> s[k] == '\n',
        skip_newlines_left(s, h) > 0 ==> s[skip_newlines_left(s, h) - 1] != '\n',
    decreases h,
{
    if h > 0 && s[h - 1] == '\n' {
        lemma_skip_newlines_left(s, h - 1);
    }
}

proof fn lemma_scan_left_bounds(s: Seq<char>, big: bool, h: int)
    ensures
        0 <= scan_left(s, big, h),
        0 <= h ==> scan_left(s, big, h) <= h,
    decreases h,
{
    if 0 < h < s.len() && !reached_end(big, s[h], s[h - 1]) {
        lemma_scan_left_bounds(s, big, h - 1);
    }
}

/// Backward steps keep the head within the buffer and never move it
/// on; a step taken after the start moves it back, and an anchor that
/// does not lie before the head stays at or after it, within the buffer.
proof fn lemma_iterate_left_bounds(s: Seq<char>, big: bool, n: nat, a: int, h: int)
    requires
        0 <= h <= s.len(),
    ensures
        0 <= iterate_left(s, big, n, a, h).1 <= h,
        n >= 1 && h > 0 ==> iterate_left(s, big, n, a, h).1 < h,
        h <= a <= s.len() ==> iterate_left(s, big, n, a, h).1 <= iterate_left(s, big, n, a, h).0
            <= s.len(),
    decreases n,
{
    if n > 0 && h > 0 {
        lemma_skip_newlines_left(s, h);
        let h1 = skip_newlines_left(s, h);
        lemma_scan_left_bounds(s, big, h1 - 1);
        let (a1, h2) = step_left(s, big, a, h);
        lemma_iterate_left_bounds(s, big, (n - 1) as nat, a1, h2);
    }
}

/// More backward steps from the same selection leave the head no further
/// on.
proof fn lemma_iterate_left_mono(s: Seq<char>, big: bool, n: nat, m: nat, a: int, h: int)
    requires
        0 <= h <= s.len(),
        n <= m,
    ensures
        iterate_left(s, big, m, a, h).1 <= iterate_left(s, big, n, a, h).1,
    decreases n,
{
    if n == 0 {
        lemma_iterate_left_bounds(s, big, m, a, h);
    } else if h > 0 {
        lemma_skip_newlines_left(s, h);
        let h1 = skip_newlines_left(s, h);
        lemma_scan_left_bounds(s, big, h1 - 1);
        let (a1, h2) = step_left(s, big, a, h);
        lemma_iterate_left_mono(s, big, (n - 1) as nat, (m - 1) as nat, a1, h2);
    }
}

/// What a backward motion promises of its result `r` on `s` from `range`,
/// where the head stands on a character boundary: at the start of the
/// buffer, or in an empty one, nothing moves; otherwise the head does not
/// move on, moves back when a step is taken, and both ends land on
/// character boundaries within the buffer with the anchor not before the
/// head.
pub open spec fn moves_backward(s: Seq<char>, range: HxRange, count: nat, r: HxRange) -> bool {
    is_char_boundary_of(s, range.head as int) ==> if s.len() == 0 || range.head == 0 {
        r == range
    } else {
        &&& r.head <= range.head
        &&& count >= 1 ==> r.head < range.head
        &&& r.head <= r.anchor <= bytes_len(s)
        &&& is_char_boundary_of(s, r.anchor as int)
        &&& is_char_boundary_of(s, r.head as int)
    }
}

/// A backward word motion from the same selection goes no less far with a
/// larger count.
pub proof fn word_left_monotone(s: Seq<char>, range: HxRange, count: nat, more: nat, big: bool)
    requires
        count <= more,
        bytes_len(s) <= usize::MAX,
    ensures
        word_left_spec(s, range, more, big).head <= word_left_spec(s, range, count, big).head,
{
    let len = s.len() as int;
    let ra = char_index_at(s, range.anchor as int);
    let rh = char_index_at(s, range.head as int);
    lemma_char_index_at_bounds(s, range.head as int);
    if !(len == 0 || rh == 0) {
        let a0 = if ra < rh {
            rh
        } else {
            let n = next_grapheme_index(s, rh);
            if n < len {
                n
            } else {
                len
            }
        };
        let h0 = if ra < rh {
            prev_grapheme_index(s, rh)
        } else {
            rh
        };
        lemma_prev_grapheme_index_bounds(s, rh);
        lemma_iterate_left_mono(s, big, count, more, a0, h0);
        lemma_iterate_left_bounds(s, big, count, a0, h0);
        lemma_iterate_left_bounds(s, big, more, a0, h0);
        let h1 = iterate_left(s, big, count, a0, h0).1;
        let h2 = iterate_left(s, big, more, a0, h0).1;
        lemma_byte_offset_mono(s, h2, h1);
        lemma_byte_offset_mono(s, h1, len);
        lemma_byte_offset_len(s);
    }
}

/// `b` / `B`: move to the start of the previous word. It keeps the
/// promises of [`moves_backward`]; [`word_left_monotone`] relates two
/// counts.
pub fn word_left(buf: &str, range: &HxRange, count: usize, big: bool) -> (r: HxRange)
    requires
        bytes_len(buf@) <= usize::MAX,
    ensures
        r == word_left_spec(buf@, *range, count as nat, big),
        moves_backward(buf@, *range, count as nat, r),
{
    let co = CharOffsets::new(buf);
    let len = co.len();
    let range_anchor = co.to_char(range.anchor);
    let range_head = co.to_char(range.head);
    proof {
        lemma_head_index(buf@, range.head as int);
    }
    if len == 0 || range_head == 0 {
        return *range;
    }
    let mut anchor: usize;
    let mut head: usize;
    if range_anchor < range_head {
        anchor = range_head;
        head = co.prev_grapheme_char_idx(range_head);
    } else {
        let n = co.next_grapheme_char_idx(range_head);
        anchor = if n < len {
            n
        } else {
            len
        };
        head = range_head;
    }
    let ghost s = co.chars@;
    let ghost goal = iterate_left(s, big, count as nat, anchor as int, head as int);
    proof {
        lemma_iterate_left_bounds(s, big, count as nat, anchor as int, head as int);
    }
    let mut k: usize = 0;
    while k < count && head > 0
        invariant
            co.wf(),
            s == co.chars@,
            s == buf@,
            len == s.len(),
            k <= count,
            anchor <= len,
            head <= len,
            iterate_left(s, big, (count - k) as nat, anchor as int, head as int) == goal,
        decreases count - k,
    {
        let ghost a_in = anchor as int;
        let ghost h_in = head as int;
        let mut prev_ch: Option<char> = if head < len {
            Some(co.char_at(head))
        } else {
            None
        };
        proof {
            lemma_skip_newlines_left(s, h_in);
        }
        while head > 0 && co.char_at(head - 1) == '\n'
            invariant
                co.wf(),
                s == co.chars@,
                len == s.len(),
                0 <= head <= h_in,
                h_in <= len,
                skip_newlines_left(s, head as int) == skip_newlines_left(s, h_in),
                prev_ch == (if head < h_in {
                    Some('\n')
                } else if h_in < len {
                    Some(s[h_in])
                } else {
                    None::<char>
                }),
            decreases head,
        {
            head = head - 1;
            prev_ch = Some(co.char_at(head));
        }
        if prev_ch == Some('\n') {
            anchor = head;
        }
        let head_start = head;
        if head > 0 {
            let next_ch = co.char_at(head - 1);
            let hit = match prev_ch {
                Some(p) => reached_word_end(big, p, next_ch),
                None => true,
            };
            if hit {
                anchor = head;
            }
            prev_ch = Some(next_ch);
            head = head - 1;
            proof {
                lemma_scan_left_bounds(s, big, head as int);
            }
            while head > 0
                invariant
                    co.wf(),
                    s == co.chars@,
                    len == s.len(),
                    head < len,
                    prev_ch == Some(s[head as int]),
                    scan_left(s, big, head as int) == scan_left(s, big, head_start - 1),
                ensures
                    head as int == scan_left(s, big, head_start - 1),
                decreases head,
            {
                let next_ch = co.char_at(head - 1);
                let p = match prev_ch {
                    Some(p) => p,
                    None => next_ch,
                };
                if reached_word_end(big, p, next_ch) {
                    break;
                }
                prev_ch = Some(next_ch);
                head = head - 1;
            }
        }
        proof {
            assert((anchor as int, head as int) == step_left(s, big, a_in, h_in));
        }
        k = k + 1;
    }
    proof {
        assert((anchor as int, head as int) == goal);
        lemma_byte_offset_mono(s, head as int, range_head as int);
        lemma_byte_offset_mono(s, head as int, anchor as int);
        lemma_byte_offset_mono(s, anchor as int, len as int);
        lemma_byte_offset_len(s);
        if count >= 1 {
            lemma_byte_offset_strict(s, head as int, range_head as int);
        }
    }
    co.to_byte_range(anchor, head)
}

/// `w` / `W`: the forward word-start motion. It keeps the promises of
/// [`moves_forward`]; [`word_right_monotone`] relates two counts.
pub fn word_right_start(buf: &str, range: &HxRange, count: usize, big: bool) -> (r: HxRange)
    requires
        bytes_len(buf@) <= usize::MAX,
    ensures
        r == word_right_spec(buf@, *range, count as nat, big, false),
        moves_forward(buf@, *range, count as nat, r),
{
    word_right(buf, range, count, big, false)
}

/// `e` / `E`: the forward word-end motion. It keeps the promises of
/// [`moves_forward`]; [`word_right_monotone`] relates two counts.
pub fn word_right_end(buf: &str, range: &HxRange, count: usize, big: bool) -> (r: HxRange)
    requires
        bytes_len(buf@) <= usize::MAX,
    ensures
        r == word_right_spec(buf@, *range, count as nat, big, true),
        moves_forward(buf@, *range, count as nat, r),
{
    word_right(buf, range, count, big, true)
}

pub open spec fn is_long_target(t: WordMotionTarget) -> bool {
    t == WordMotionTarget::NextLongWordStart || t == WordMotionTarget::NextLongWordEnd || t
        == WordMotionTarget::PrevLongWordStart
}

/// The selection a Helix word motion to `target` produces.
pub open spec fn word_move_spec(s: Seq<char>, range: HxRange, count: nat, target: WordMotionTarget) -> HxRange {
    let big = is_long_target(target);
    match target {
        WordMotionTarget::NextWordStart | WordMotionTarget::NextLongWordStart => word_right_spec(
            s,
            range,
            count,
            big,
            false,
        ),
        WordMotionTarget::NextWordEnd | WordMotionTarget::NextLongWordEnd => word_right_spec(
            s,
            range,
            count,
            big,
            true,
        ),
        WordMotionTarget::PrevWordStart | WordMotionTarget::PrevLongWordStart => word_left_spec(
            s,
            range,
            count,
            big,
        ),
    }
}

/// Dispatch a word motion by target; the target also tells small from
/// long words.
pub fn word_move(buf: &str, range: &HxRange, count: usize, target: WordMotionTarget) -> (r: HxRange)
    requires
        bytes_len(buf@) <= usize::MAX,
    ensures
        r == word_move_spec(buf@, *range, count as nat, target),
{
    let big = target == WordMotionTarget::NextLongWordStart || target
        == WordMotionTarget::NextLongWordEnd || target == WordMotionTarget::PrevLongWordStart;
    match target {
        WordMotionTarget::NextWordStart | WordMotionTarget::NextLongWordStart => word_right(
            buf,
            range,
            count,
            big,
            false,
        ),
        WordMotionTarget::NextWordEnd | WordMotionTarget::NextLongWordEnd => word_right(
            buf,
            range,
            count,
            big,
            true,
        ),
        WordMotionTarget::PrevWordStart | WordMotionTarget::PrevLongWordStart => word_left(
            buf,
            range,
            count,
            big,
        ),
    }
}

} // verus!
