//! Vi word segmentation.
//!
//! Vi sorts characters into keyword characters (alphanumeric and
//! underscore), punctuation and whitespace; a word boundary is any change
//! of class. Big-word motions merge keywords and punctuation, so only
//! whitespace separates them. The motions walk grapheme clusters, each
//! classed by its first character.
use vstd::prelude::*;

use crate::text::{
    alphanumeric, byte_offset, bytes_len, char_index_at, grapheme_starts, grapheme_starts_of,
    is_alphanumeric, is_char_boundary_of, is_whitespace, is_whitespace_char, lemma_byte_offset_len,
    lemma_boundary_char, lemma_boundary_index, lemma_byte_offset_strict, lemma_bytes_len_split, lemma_char_index_at,
    CharOffsets,
};
use vstd::string::StrSliceExecFns;

verus! {

/// The classes of a grapheme.
#[derive(Clone, Copy, Debug, PartialEq, Eq, Structural)]
pub enum CharClass {
    Keyword,
    Punctuation,
    Whitespace,
}

/// Small words, or big words that only whitespace separates.
#[derive(Clone, Copy, Debug, PartialEq, Eq, Structural)]
pub enum WordKind {
    Word,
    BigWord,
}

/// The class of a grapheme whose first character is `c`.
pub open spec fn char_class(c: char, kind: WordKind) -> CharClass {
    if is_whitespace_char(c) {
        CharClass::Whitespace
    } else if kind == WordKind::BigWord || alphanumeric(c) || c == '_' {
        CharClass::Keyword
    } else {
        CharClass::Punctuation
    }
}

/// The class of the character starting at byte `b` of `t`.
#[verifier::opaque]
pub open spec fn class_at(t: Seq<char>, b: int, kind: WordKind) -> CharClass {
    char_class(t[char_index_at(t, b)], kind)
}

/// The class of grapheme `k` of `t`.
pub open spec fn grapheme_class(t: Seq<char>, k: int, kind: WordKind) -> CharClass {
    class_at(t, grapheme_starts_of(t)[k] as int, kind)
}

/// The first grapheme at or after `k` whose class is not `c`, or the
/// number of graphemes when there is none.
pub open spec fn first_other(t: Seq<char>, k: int, c: CharClass, kind: WordKind) -> int
    decreases grapheme_starts_of(t).len() - k,
{
    if k < 0 || k >= grapheme_starts_of(t).len() {
        grapheme_starts_of(t).len() as int
    } else if grapheme_class(t, k, kind) != c {
        k
    } else {
        first_other(t, k + 1, c, kind)
    }
}

/// The last grapheme at or before `k` whose class is not whitespace, or
/// -1 when there is none.
pub open spec fn last_visible(t: Seq<char>, k: int, kind: WordKind) -> int
    decreases k + 1,
{
    if k < 0 {
        -1
    } else if grapheme_class(t, k, kind) != CharClass::Whitespace {
        k
    } else {
        last_visible(t, k - 1, kind)
    }
}

/// The first grapheme of the run of class `c` that ends at `k`.
pub open spec fn run_start(t: Seq<char>, k: int, c: CharClass, kind: WordKind) -> int
    decreases k,
{
    if k > 0 && grapheme_class(t, k - 1, kind) == c {
        run_start(t, k - 1, c, kind)
    } else {
        k
    }
}

/// The text from `cursor` on.
pub open spec fn rest_of(buffer: Seq<char>, cursor: int) -> Seq<char> {
    buffer.skip(char_index_at(buffer, cursor))
}

/// `w`/`W`: the start of the next segment after the one at the cursor,
/// past any whitespace; the buffer's end when there is none.
pub open spec fn word_right_start_spec(buffer: Seq<char>, cursor: int, kind: WordKind) -> int {
    let t = rest_of(buffer, cursor);
    let g = grapheme_starts_of(t);
    if g.len() == 0 {
        bytes_len(buffer) as int
    } else {
        let k = first_other(t, 1, grapheme_class(t, 0, kind), kind);
        if k >= g.len() {
            bytes_len(buffer) as int
        } else if grapheme_class(t, k, kind) != CharClass::Whitespace {
            cursor + g[k]
        } else {
            let j = first_other(t, k + 1, CharClass::Whitespace, kind);
            if j >= g.len() {
                bytes_len(buffer) as int
            } else {
                cursor + g[j]
            }
        }
    }
}

/// `e`/`E`: the last grapheme of the first segment that starts after the
/// cursor's grapheme, whitespace skipped; the buffer's end when there is
/// none.
pub open spec fn word_right_end_spec(buffer: Seq<char>, cursor: int, kind: WordKind) -> int {
    let t = rest_of(buffer, cursor);
    let g = grapheme_starts_of(t);
    if g.len() == 0 {
        bytes_len(buffer) as int
    } else {
        let k = first_other(t, 1, CharClass::Whitespace, kind);
        if k >= g.len() {
            bytes_len(buffer) as int
        } else {
            cursor + g[first_other(t, k + 1, grapheme_class(t, k, kind), kind) - 1]
        }
    }
}

/// `b`/`B`: the start of the last segment before the cursor, whitespace
/// skipped; 0 when there is none.
pub open spec fn word_left_spec(buffer: Seq<char>, cursor: int, kind: WordKind) -> int {
    if cursor == 0 {
        0
    } else {
        let t = buffer.take(char_index_at(buffer, cursor));
        let g = grapheme_starts_of(t);
        let k = last_visible(t, g.len() - 1, kind);
        if k < 0 {
            0
        } else {
            g[run_start(t, k, grapheme_class(t, k, kind), kind)] as int
        }
    }
}

/// The class of a character.
pub fn class_of_char(c: char, kind: WordKind) -> (r: CharClass)
    ensures
        r == char_class(c, kind),
{
    if is_whitespace(c) {
        CharClass::Whitespace
    } else if kind == WordKind::BigWord || is_alphanumeric(c) || c == '_' {
        CharClass::Keyword
    } else {
        CharClass::Punctuation
    }
}

/// The class of a grapheme cluster, by its first character.
pub fn class_of(grapheme: &str, kind: WordKind) -> (r: CharClass)
    requires
        grapheme@.len() > 0,
    ensures
        r == char_class(grapheme@[0], kind),
{
    class_of_char(grapheme.get_char(0), kind)
}

/// The class of the character at the boundary `b`.
fn class_at_offset(co: &CharOffsets, b: usize, kind: WordKind) -> (r: CharClass)
    requires
        co.wf(),
        is_char_boundary_of(co.chars@, b as int),
        b < bytes_len(co.chars@),
    ensures
        r == class_at(co.chars@, b as int, kind),
{
    let i = co.to_char(b);
    proof {
        lemma_boundary_char(co.chars@, b as int);
        reveal(class_at);
    }
    class_of_char(co.char_at(i), kind)
}

/// The grapheme classes of `t`, computed once.
fn classes(t: &str, kind: WordKind) -> (r: (Vec<usize>, Vec<CharClass>))
    requires
        bytes_len(t@) <= usize::MAX,
    ensures
        r.0@ == grapheme_starts_of(t@),
        r.1@.len() == r.0@.len(),
        forall|k: int| 0 <= k < r.1@.len() ==> #[trigger] r.1@[k] == grapheme_class(t@, k, kind),
        forall|k: int| 0 <= k < r.0@.len() ==> (#[trigger] r.0@[k] as int) < bytes_len(t@),
{
    let starts = grapheme_starts(t);
    let co = CharOffsets::new(t);
    let mut cls: Vec<CharClass> = Vec::new();
    let mut k: usize = 0;
    while k < starts.len()
        invariant
            co.wf(),
            co.chars@ == t@,
            starts@ == grapheme_starts_of(t@),
            k <= starts@.len(),
            cls@.len() == k,
            forall|j: int| 0 <= j < k ==> #[trigger] cls@[j] == grapheme_class(t@, j, kind),
            forall|j: int| 0 <= j < starts@.len() ==> (#[trigger] starts@[j] as int) < bytes_len(
                t@,
            ),
            forall|j: int| 0 <= j < starts@.len() ==> is_char_boundary_of(
                t@,
                #[trigger] starts@[j] as int,
            ),
        decreases starts.len() - k,
    {
        let c = class_at_offset(&co, starts[k], kind);
        cls.push(c);
        k = k + 1;
    }
    (starts, cls)
}

// ── Scans over grapheme classes ──────────────────────────────────────
/// The first index at or after `k` whose class in `cls` is not `c`, or
/// the length of `cls` when there is none.
pub open spec fn first_other_in(cls: Seq<CharClass>, k: int, c: CharClass) -> int
    decreases cls.len() - k,
{
    if k < 0 || k >= cls.len() {
        cls.len() as int
    } else if cls[k] != c {
        k
    } else {
        first_other_in(cls, k + 1, c)
    }
}

/// The last index at or before `k` whose class in `cls` is not
/// whitespace, or -1 when there is none.
pub open spec fn last_visible_in(cls: Seq<CharClass>, k: int) -> int
    decreases k + 1,
{
    if k < 0 {
        -1
    } else if cls[k] != CharClass::Whitespace {
        k
    } else {
        last_visible_in(cls, k - 1)
    }
}

/// The first index of the run of class `c` in `cls` that ends at `k`.
pub open spec fn run_start_in(cls: Seq<CharClass>, k: int, c: CharClass) -> int
    decreases k,
{
    if k > 0 && cls[k - 1] == c {
        run_start_in(cls, k - 1, c)
    } else {
        k
    }
}

/// `w`/`W` over the grapheme offsets `starts` (relative to `cursor`) and
/// classes `cls` of the text from the cursor on, in a buffer of `len`
/// bytes.
pub open spec fn right_start_in(starts: Seq<usize>, cls: Seq<CharClass>, cursor: int, len: int) -> int {
    if starts.len() == 0 {
        len
    } else {
        let k = first_other_in(cls, 1, cls[0]);
        if k >= starts.len() {
            len
        } else if cls[k] != CharClass::Whitespace {
            cursor + starts[k]
        } else {
            let j = first_other_in(cls, k + 1, CharClass::Whitespace);
            if j >= starts.len() {
                len
            } else {
                cursor + starts[j]
            }
        }
    }
}

/// `e`/`E` over the grapheme offsets and classes of the text from the
/// cursor on, in a buffer of `len` bytes.
pub open spec fn right_end_in(starts: Seq<usize>, cls: Seq<CharClass>, cursor: int, len: int) -> int {
    if starts.len() == 0 {
        len
    } else {
        let k = first_other_in(cls, 1, CharClass::Whitespace);
        if k >= starts.len() {
            len
        } else {
            cursor + starts[first_other_in(cls, k + 1, cls[k]) - 1]
        }
    }
}

/// `b`/`B` over the grapheme offsets and classes of the text before the
/// cursor.
pub open spec fn left_in(starts: Seq<usize>, cls: Seq<CharClass>) -> int {
    let k = last_visible_in(cls, starts.len() - 1);
    if k < 0 {
        0
    } else {
        starts[run_start_in(cls, k, cls[k])] as int
    }
}

/// The classes in `cls` are those of the graphemes of `t`.
pub open spec fn classes_of(cls: Seq<CharClass>, t: Seq<char>, kind: WordKind) -> bool {
    &&& cls.len() == grapheme_starts_of(t).len()
    &&& forall|k: int| 0 <= k < cls.len() ==> #[trigger] cls[k] == grapheme_class(t, k, kind)
}

proof fn lemma_first_other_in(cls: Seq<CharClass>, t: Seq<char>, kind: WordKind, k: int, c: CharClass)
    requires
        classes_of(cls, t, kind),
        0 <= k,
    ensures
        first_other_in(cls, k, c) == first_other(t, k, c, kind),
        first_other_in(cls, k, c) <= cls.len(),
        k <= cls.len() ==> k <= first_other_in(cls, k, c),
    decreases cls.len() - k,
{
    if k < cls.len() && cls[k] == c {
        lemma_first_other_in(cls, t, kind, k + 1, c);
    }
}

proof fn lemma_last_visible_in(cls: Seq<CharClass>, t: Seq<char>, kind: WordKind, k: int)
    requires
        classes_of(cls, t, kind),
        k < cls.len(),
    ensures
        last_visible_in(cls, k) == last_visible(t, k, kind),
        -1 <= last_visible_in(cls, k),
        k >= 0 ==> last_visible_in(cls, k) <= k,
    decreases k + 1,
{
    if k >= 0 && cls[k] == CharClass::Whitespace {
        lemma_last_visible_in(cls, t, kind, k - 1);
    }
}

proof fn lemma_run_start_in(cls: Seq<CharClass>, t: Seq<char>, kind: WordKind, k: int, c: CharClass)
    requires
        classes_of(cls, t, kind),
        k <= cls.len(),
    ensures
        run_start_in(cls, k, c) == run_start(t, k, c, kind),
        k >= 0 ==> 0 <= run_start_in(cls, k, c) <= k,
    decreases k,
{
    if k > 0 && cls[k - 1] == c {
        lemma_run_start_in(cls, t, kind, k - 1, c);
    }
}

/// The first index at or after `from` whose class in `cls` is not `c`.
pub fn first_other_index(cls: &Vec<CharClass>, from: usize, c: CharClass) -> (r: usize)
    requires
        from <= cls@.len(),
    ensures
        r == first_other_in(cls@, from as int, c),
        from <= r <= cls@.len(),
{
    let mut k = from;
    while k < cls.len() && cls[k] == c
        invariant
            from <= k <= cls@.len(),
            first_other_in(cls@, k as int, c) == first_other_in(cls@, from as int, c),
        decreases cls.len() - k,
    {
        k = k + 1;
    }
    k
}

/// `w`/`W` from the grapheme offsets `starts` (relative to `cursor`) and
/// classes `cls` of the text from the cursor on, in a buffer of `len`
/// bytes.
pub fn word_right_start_from(starts: &Vec<usize>, cls: &Vec<CharClass>, cursor: usize, len: usize) -> (r: usize)
    requires
        cls@.len() == starts@.len(),
        forall|k: int| 0 <= k < starts@.len() ==> cursor + #[trigger] starts@[k] <= usize::MAX,
    ensures
        r == right_start_in(starts@, cls@, cursor as int, len as int),
{
    if starts.len() == 0 {
        return len;
    }
    let k = first_other_index(cls, 1, cls[0]);
    if k >= starts.len() {
        return len;
    }
    if cls[k] != CharClass::Whitespace {
        return cursor + starts[k];
    }
    let j = first_other_index(cls, k + 1, CharClass::Whitespace);
    if j >= starts.len() {
        len
    } else {
        cursor + starts[j]
    }
}

/// `e`/`E` from the grapheme offsets and classes of the text from the
/// cursor on, in a buffer of `len` bytes.
pub fn word_right_end_from(starts: &Vec<usize>, cls: &Vec<CharClass>, cursor: usize, len: usize) -> (r: usize)
    requires
        cls@.len() == starts@.len(),
        forall|k: int| 0 <= k < starts@.len() ==> cursor + #[trigger] starts@[k] <= usize::MAX,
    ensures
        r == right_end_in(starts@, cls@, cursor as int, len as int),
{
    if starts.len() == 0 {
        return len;
    }
    let k = first_other_index(cls, 1, CharClass::Whitespace);
    if k >= starts.len() {
        return len;
    }
    let m = first_other_index(cls, k + 1, cls[k]);
    cursor + starts[m - 1]
}

/// `b`/`B` from the grapheme offsets and classes of the text before the
/// cursor.
pub fn word_left_from(starts: &Vec<usize>, cls: &Vec<CharClass>) -> (r: usize)
    requires
        cls@.len() == starts@.len(),
    ensures
        r == left_in(starts@, cls@),
        starts@.len() > 0 && r != 0 ==> exists|k: int| 0 <= k < starts@.len() && r == #[trigger] starts@[k],
{
    let n = starts.len();
    if n == 0 {
        return 0;
    }
    let mut i: usize = n;
    while i > 0 && cls[i - 1] == CharClass::Whitespace
        invariant
            i <= n,
            n == cls@.len(),
            last_visible_in(cls@, i - 1) == last_visible_in(cls@, n - 1),
        decreases i,
    {
        i = i - 1;
    }
    if i == 0 {
        proof {
            assert(last_visible_in(cls@, -1) == -1);
        }
        return 0;
    }
    let k = i - 1;
    let c = cls[k];
    let mut m = k;
    while m > 0 && cls[m - 1] == c
        invariant
            m <= k < n,
            n == cls@.len(),
            run_start_in(cls@, m as int, c) == run_start_in(cls@, k as int, c),
        decreases m,
    {
        m = m - 1;
    }
    starts[m]
}

/// The text of `buffer` from the character boundary `cursor` on, with
/// its grapheme offsets and classes.
fn suffix_classes<'a>(buffer: &'a str, cursor: usize, kind: WordKind) -> (r: (Vec<usize>, Vec<CharClass>, usize))
    requires
        bytes_len(buffer@) <= usize::MAX,
        is_char_boundary_of(buffer@, cursor as int),
    ensures
        r.2 == bytes_len(buffer@),
        r.0@ == grapheme_starts_of(rest_of(buffer@, cursor as int)),
        r.1@.len() == r.0@.len(),
        forall|k: int| 0 <= k < r.1@.len() ==> #[trigger] r.1@[k] == grapheme_class(
            rest_of(buffer@, cursor as int),
            k,
            kind,
        ),
        forall|k: int| 0 <= k < r.0@.len() ==> cursor + (#[trigger] r.0@[k] as int) < bytes_len(
            buffer@,
        ),
{
    let co = CharOffsets::new(buffer);
    let ci = co.to_char(cursor);
    let n = co.len();
    let ghost s = buffer@;
    proof {
        let i = choose|i: int| 0 <= i <= s.len() && #[trigger] byte_offset(s, i) == cursor;
        lemma_boundary_index(s, cursor as int, i);
        lemma_bytes_len_split(s, ci as int);
        assert(s.subrange(ci as int, s.len() as int) == s.skip(ci as int));
    }
    let rest = buffer.substring_char(ci, n);
    proof {
        assert(rest@ == s.skip(ci as int));
        lemma_byte_offset_len(s);
    }
    let total = co.to_byte(n);
    let (starts, cls) = classes(rest, kind);
    (starts, cls, total)
}

/// `w`/`W`: the byte offset of the next segment's start.
pub fn word_right_start_index(buffer: &str, cursor: usize, kind: WordKind) -> (r: usize)
    requires
        bytes_len(buffer@) <= usize::MAX,
        is_char_boundary_of(buffer@, cursor as int),
    ensures
        r == word_right_start_spec(buffer@, cursor as int, kind),
{
    let (starts, cls, len) = suffix_classes(buffer, cursor, kind);
    let ghost t = rest_of(buffer@, cursor as int);
    proof {
        if starts@.len() > 0 {
            let c0 = cls@[0];
            lemma_first_other_in(cls@, t, kind, 1, c0);
            let k = first_other_in(cls@, 1, c0);
            lemma_first_other_in(cls@, t, kind, k + 1, CharClass::Whitespace);
        }
    }
    word_right_start_from(&starts, &cls, cursor, len)
}

/// `e`/`E`: the byte offset of the last grapheme of the next segment.
pub fn word_right_end_index(buffer: &str, cursor: usize, kind: WordKind) -> (r: usize)
    requires
        bytes_len(buffer@) <= usize::MAX,
        is_char_boundary_of(buffer@, cursor as int),
    ensures
        r == word_right_end_spec(buffer@, cursor as int, kind),
{
    let (starts, cls, len) = suffix_classes(buffer, cursor, kind);
    let ghost t = rest_of(buffer@, cursor as int);
    // The scan steps past the cursor's grapheme first, so that standing
    // at a word's end goes to the end of the next one.
    proof {
        if starts@.len() > 0 {
            lemma_first_other_in(cls@, t, kind, 1, CharClass::Whitespace);
            let k = first_other_in(cls@, 1, CharClass::Whitespace);
            if k < starts@.len() {
                lemma_first_other_in(cls@, t, kind, k + 1, cls@[k]);
            }
        }
    }
    word_right_end_from(&starts, &cls, cursor, len)
}

/// `b`/`B`: the byte offset of the start of the segment before the
/// cursor.
pub fn word_left_index(buffer: &str, cursor: usize, kind: WordKind) -> (r: usize)
    requires
        bytes_len(buffer@) <= usize::MAX,
        is_char_boundary_of(buffer@, cursor as int),
    ensures
        r == word_left_spec(buffer@, cursor as int, kind),
        r <= cursor,
        cursor > 0 ==> r < cursor,
{
    if cursor == 0 {
        return 0;
    }
    let co = CharOffsets::new(buffer);
    let ci = co.to_char(cursor);
    let ghost s = buffer@;
    proof {
        let i = choose|i: int| 0 <= i <= s.len() && #[trigger] byte_offset(s, i) == cursor;
        lemma_boundary_index(s, cursor as int, i);
        assert(s.take(ci as int) =~= s.subrange(0, ci as int));
        assert(bytes_len(s.take(ci as int)) == byte_offset(s, ci as int));
        lemma_byte_offset_len(s);
        if ci < s.len() {
            lemma_byte_offset_strict(s, ci as int, s.len() as int);
        }
    }
    let head = buffer.substring_char(0, ci);
    proof {
        assert(head@ == s.take(ci as int));
    }
    let ghost t = s.take(ci as int);
    let (starts, cls) = classes(head, kind);
    proof {
        let n = starts@.len() as int;
        lemma_last_visible_in(cls@, t, kind, n - 1);
        let k = last_visible_in(cls@, n - 1);
        if k >= 0 {
            lemma_run_start_in(cls@, t, kind, k, cls@[k]);
        }
    }
    word_left_from(&starts, &cls)
}

} // verus!
