//! Characters, their UTF-8 widths, character classes and grapheme
//! boundaries: the text geometry that word motions walk over.
use vstd::prelude::*;

use unicode_segmentation::UnicodeSegmentation;
use vstd::string::StrSliceExecFns;

use crate::core_editor::HxRange;

verus! {

/// Number of bytes in the UTF-8 encoding of `c`.
pub open spec fn char_width(c: char) -> nat {
    if (c as u32) < 0x80 {
        1
    } else if (c as u32) < 0x800 {
        2
    } else if (c as u32) < 0x10000 {
        3
    } else {
        4
    }
}

/// Number of bytes in the UTF-8 encoding of `s`.
pub open spec fn bytes_len(s: Seq<char>) -> nat
    decreases s.len(),
{
    if s.len() == 0 {
        0
    } else {
        bytes_len(s.drop_last()) + char_width(s.last())
    }
}

/// The byte offset of the character with index `i` in `s`.
pub open spec fn byte_offset(s: Seq<char>, i: int) -> nat {
    bytes_len(s.take(i))
}

/// The character index that byte offset `b` falls on: the first index
/// whose byte offset is at least `b`, or the length of `s` when `b` lies
/// past the end. On a character boundary this is the index of the
/// character starting there.
pub open spec fn char_index_at(s: Seq<char>, b: int) -> int {
    if b > bytes_len(s) {
        s.len() as int
    } else {
        choose|i: int|
            0 <= i <= s.len() && #[trigger] byte_offset(s, i) >= b && (i == 0 || byte_offset(s, i - 1)
                < b)
    }
}

/// `b` is the byte offset of a character boundary of `s` (the end
/// included).
pub open spec fn is_char_boundary_of(s: Seq<char>, b: int) -> bool {
    exists|i: int| 0 <= i <= s.len() && #[trigger] byte_offset(s, i) == b
}

/// Every character takes at least one byte.
pub proof fn lemma_char_width_pos(c: char)
    ensures
        1 <= char_width(c) <= 4,
{
}

/// Byte offsets grow by the width of each character.
pub proof fn lemma_byte_offset_step(s: Seq<char>, i: int)
    requires
        0 <= i < s.len(),
    ensures
        byte_offset(s, i + 1) == byte_offset(s, i) + char_width(s[i]),
{
    assert(s.take(i + 1).drop_last() == s.take(i));
    assert(s.take(i + 1).last() == s[i]);
}

/// Byte offsets strictly increase with the character index.
pub proof fn lemma_byte_offset_strict(s: Seq<char>, i: int, j: int)
    requires
        0 <= i < j <= s.len(),
    ensures
        byte_offset(s, i) < byte_offset(s, j),
    decreases j - i,
{
    lemma_byte_offset_step(s, j - 1);
    lemma_char_width_pos(s[j - 1]);
    if i < j - 1 {
        lemma_byte_offset_strict(s, i, j - 1);
    }
}

/// The whole string ends at the byte offset of its length.
pub proof fn lemma_byte_offset_len(s: Seq<char>)
    ensures
        byte_offset(s, s.len() as int) == bytes_len(s),
        byte_offset(s, 0) == 0,
{
    assert(s.take(s.len() as int) == s);
    assert(s.take(0).len() == 0);
}

/// The character index of a byte offset is the unique index meeting the
/// defining condition.
pub proof fn lemma_char_index_at(s: Seq<char>, b: int, i: int)
    requires
        0 <= i <= s.len(),
        byte_offset(s, i) >= b,
        i == 0 || byte_offset(s, i - 1) < b,
    ensures
        char_index_at(s, b) == i,
{
    lemma_byte_offset_len(s);
    if b > bytes_len(s) {
        if i < s.len() {
            lemma_byte_offset_strict(s, i, s.len() as int);
        }
        assert(false);
    } else {
        let j = choose|j: int|
            0 <= j <= s.len() && #[trigger] byte_offset(s, j) >= b && (j == 0 || byte_offset(s, j - 1) < b);
        assert(0 <= j <= s.len() && byte_offset(s, j) >= b && (j == 0 || byte_offset(s, j - 1)
            < b));
        if j < i {
            if j <= i - 1 {
                if j < i - 1 {
                    lemma_byte_offset_strict(s, j, i - 1);
                }
            }
        } else if i < j {
            if i < j - 1 {
                lemma_byte_offset_strict(s, i, j - 1);
            }
        }
    }
}

/// On a character boundary, the character index of a byte offset is
/// the index whose offset it is.
pub proof fn lemma_boundary_index(s: Seq<char>, b: int, i: int)
    requires
        0 <= i <= s.len(),
        byte_offset(s, i) == b,
    ensures
        char_index_at(s, b) == i,
{
    if i > 0 {
        lemma_byte_offset_strict(s, i - 1, i);
    }
    lemma_char_index_at(s, b, i);
}

/// A character index no lower than `k` whose byte offset is at least `b`
/// meets the defining condition of `char_index_at`, or a lower one does.
proof fn lemma_char_index_witness(s: Seq<char>, b: int, k: int)
    requires
        0 <= k <= s.len(),
        byte_offset(s, k) >= b,
    ensures
        exists|i: int|
            0 <= i <= s.len() && #[trigger] byte_offset(s, i) >= b && (i == 0 || byte_offset(s, i - 1)
                < b),
    decreases k,
{
    if k > 0 && byte_offset(s, k - 1) >= b {
        lemma_char_index_witness(s, b, k - 1);
    } else {
        assert(0 <= k <= s.len() && byte_offset(s, k) >= b && (k == 0 || byte_offset(s, k - 1) < b));
    }
}

/// The character index of any byte offset lies within `s`, and within the
/// string it is the first index whose offset reaches `b`.
pub proof fn lemma_char_index_at_bounds(s: Seq<char>, b: int)
    ensures
        0 <= char_index_at(s, b) <= s.len(),
        b <= bytes_len(s) ==> byte_offset(s, char_index_at(s, b)) >= b,
        b <= bytes_len(s) ==> (char_index_at(s, b) == 0 || byte_offset(s, char_index_at(s, b) - 1)
            < b),
{
    if b <= bytes_len(s) {
        lemma_byte_offset_len(s);
        lemma_char_index_witness(s, b, s.len() as int);
    }
}

/// Byte offsets do not decrease with the character index.
pub proof fn lemma_byte_offset_mono(s: Seq<char>, i: int, j: int)
    requires
        0 <= i <= j <= s.len(),
    ensures
        byte_offset(s, i) <= byte_offset(s, j),
{
    if i < j {
        lemma_byte_offset_strict(s, i, j);
    }
}

/// A byte offset inside `t` on a character boundary falls on a
/// character of `t`.
#[verifier::spinoff_prover]
pub proof fn lemma_boundary_char(t: Seq<char>, b: int)
    requires
        is_char_boundary_of(t, b),
        b < bytes_len(t),
    ensures
        0 <= char_index_at(t, b) < t.len(),
        byte_offset(t, char_index_at(t, b)) == b,
{
    let i = choose|i: int| 0 <= i <= t.len() && #[trigger] byte_offset(t, i) == b;
    lemma_byte_offset_len(t);
    assert(i < t.len());
    lemma_boundary_index(t, b, i);
}

/// Number of UTF-8 bytes of `c`.
pub fn len_utf8(c: char) -> (r: usize)
    ensures
        r == char_width(c),
{
    let u = c as u32;
    if u < 0x80 {
        1
    } else if u < 0x800 {
        2
    } else if u < 0x10000 {
        3
    } else {
        4
    }
}

/// The characters of `s`, in order.
pub fn chars_of(s: &str) -> (r: Vec<char>)
    ensures
        r@ == s@,
{
    let mut r: Vec<char> = Vec::new();
    for c in it: s.chars()
        invariant
            r@ == it.seq().take(it.index() as int),
            it.seq() == s@,
    {
        r.push(c);
        proof {
            assert(it.seq().take(it.index() + 1) == it.seq().take(it.index() as int).push(c));
        }
    }
    r
}

/// Byte lengths add up over concatenation.
pub proof fn lemma_bytes_len_add(a: Seq<char>, b: Seq<char>)
    ensures
        bytes_len(a + b) == bytes_len(a) + bytes_len(b),
    decreases b.len(),
{
    if b.len() == 0 {
        assert(a + b == a);
    } else {
        lemma_bytes_len_add(a, b.drop_last());
        assert((a + b).drop_last() == a + b.drop_last());
        assert((a + b).last() == b.last());
    }
}

/// The bytes after character `i` are the bytes of the rest of the string.
pub proof fn lemma_bytes_len_split(s: Seq<char>, i: int)
    requires
        0 <= i <= s.len(),
    ensures
        bytes_len(s) == byte_offset(s, i) + bytes_len(s.subrange(i, s.len() as int)),
{
    assert(s == s.take(i) + s.subrange(i, s.len() as int));
    lemma_bytes_len_add(s.take(i), s.subrange(i, s.len() as int));
}

/// Characters with the Unicode `White_Space` property.
pub open spec fn is_whitespace_char(c: char) -> bool {
    let u = c as u32;
    (0x9 <= u && u <= 0xD) || u == 0x20 || u == 0x85 || u == 0xA0 || u == 0x1680 || (0x2000 <= u
        && u <= 0x200A) || u == 0x2028 || u == 0x2029 || u == 0x202F || u == 0x205F || u == 0x3000
}

/// Whether `c` has the Unicode `White_Space` property (as
/// `char::is_whitespace`).
pub fn is_whitespace(c: char) -> (r: bool)
    ensures
        r == is_whitespace_char(c),
{
    let u = c as u32;
    (0x9 <= u && u <= 0xD) || u == 0x20 || u == 0x85 || u == 0xA0 || u == 0x1680 || (0x2000 <= u
        && u <= 0x200A) || u == 0x2028 || u == 0x2029 || u == 0x202F || u == 0x205F || u == 0x3000
}

pub open spec fn is_ascii_digit_char(c: char) -> bool {
    '0' <= c && c <= '9'
}

pub open spec fn is_ascii_lowercase_char(c: char) -> bool {
    'a' <= c && c <= 'z'
}

pub open spec fn is_ascii_uppercase_char(c: char) -> bool {
    'A' <= c && c <= 'Z'
}

pub open spec fn ascii_uppercase(c: char) -> char {
    if is_ascii_lowercase_char(c) {
        ((c as u32) - 32) as char
    } else {
        c
    }
}

pub open spec fn ascii_lowercase(c: char) -> char {
    if is_ascii_uppercase_char(c) {
        ((c as u32) + 32) as char
    } else {
        c
    }
}

/// Whether `c` is `'0'..='9'`.
pub fn is_ascii_digit(c: char) -> (r: bool)
    ensures
        r == is_ascii_digit_char(c),
{
    '0' <= c && c <= '9'
}

/// Whether `c` is `'a'..='z'`.
pub fn is_ascii_lowercase(c: char) -> (r: bool)
    ensures
        r == is_ascii_lowercase_char(c),
{
    'a' <= c && c <= 'z'
}

/// Whether `c` is `'A'..='Z'`.
pub fn is_ascii_uppercase(c: char) -> (r: bool)
    ensures
        r == is_ascii_uppercase_char(c),
{
    'A' <= c && c <= 'Z'
}

/// `c` with an ASCII lowercase letter mapped to uppercase.
pub fn to_ascii_uppercase(c: char) -> (r: char)
    ensures
        r == ascii_uppercase(c),
{
    if 'a' <= c && c <= 'z' {
        let u: u32 = (c as u32) - 32;
        proof {
            assert(u == (c as u32) - 32);
        }
        char_from_ascii(u)
    } else {
        c
    }
}

/// `c` with an ASCII uppercase letter mapped to lowercase.
pub fn to_ascii_lowercase(c: char) -> (r: char)
    ensures
        r == ascii_lowercase(c),
{
    if 'A' <= c && c <= 'Z' {
        let u: u32 = (c as u32) + 32;
        char_from_ascii(u)
    } else {
        c
    }
}

/// The character with ASCII code `u`.
fn char_from_ascii(u: u32) -> (r: char)
    requires
        u < 128,
    ensures
        r == u as char,
        r as u32 == u,
{
    let b: u8 = u as u8;
    b as char
}

/// Whether `c` is alphabetic or numeric in the Unicode sense, as
/// `char::is_alphanumeric` decides it.
pub uninterp spec fn alphanumeric(c: char) -> bool;

/// Calls `char::is_alphanumeric`; the contract only names its answer.
#[verifier::external_body]
pub(crate) fn is_alphanumeric(c: char) -> (r: bool)
    ensures
        r == alphanumeric(c),
{
    c.is_alphanumeric()
}

/// The byte offsets at which the extended grapheme clusters of a string
/// start, in order, as `unicode_segmentation` segments it.
pub uninterp spec fn grapheme_starts_of(s: Seq<char>) -> Seq<usize>;

/// Calls `UnicodeSegmentation::grapheme_indices(s, true)` and keeps the
/// offsets. The contract names the result and states what the iterator
/// plainly gives: the clusters are consecutive slices of `s` from its
/// start, so their offsets begin at zero, increase, lie inside `s` on
/// character boundaries, and there is one iff `s` is not empty. Where
/// the boundaries fall is left to the name.
#[verifier::external_body]
pub(crate) fn grapheme_starts(s: &str) -> (r: Vec<usize>)
    ensures
        r@ == grapheme_starts_of(s@),
        (r@.len() == 0) == (s@.len() == 0),
        r@.len() > 0 ==> r@[0] == 0,
        forall|k: int| 0 <= k < r@.len() ==> (#[trigger] r@[k] as int) < bytes_len(s@),
        forall|k: int| 0 <= k < r@.len() ==> is_char_boundary_of(s@, #[trigger] r@[k] as int),
        forall|i: int, j: int| 0 <= i < j < r@.len() ==> #[trigger] r@[i] < #[trigger] r@[j],
{
    s.grapheme_indices(true).map(|(i, _)| i).collect()
}

/// Where the grapheme cluster containing character `i` of `s` ends: the
/// character index of the second grapheme start of `s[i..]`, or the end
/// of `s` when there is only one.
pub open spec fn next_grapheme_index(s: Seq<char>, i: int) -> int {
    if i >= s.len() {
        s.len() as int
    } else {
        let sub = s.subrange(i, s.len() as int);
        let g = grapheme_starts_of(sub);
        let first_len = if g.len() > 1 {
            g[1] as int
        } else {
            bytes_len(sub) as int
        };
        char_index_at(s, byte_offset(s, i) + first_len)
    }
}

/// Where the last grapheme cluster of `s[..i]` starts, as a character
/// index (0 when there is none).
pub open spec fn prev_grapheme_index(s: Seq<char>, i: int) -> int {
    if i <= 0 {
        0
    } else {
        let g = grapheme_starts_of(s.take(i));
        if g.len() > 0 {
            char_index_at(s, g.last() as int)
        } else {
            0
        }
    }
}

/// The end of the grapheme cluster at `i` lies within `s`.
pub proof fn lemma_next_grapheme_index_bounds(s: Seq<char>, i: int)
    ensures
        0 <= next_grapheme_index(s, i) <= s.len(),
{
    if i < s.len() {
        let sub = s.subrange(i, s.len() as int);
        let g = grapheme_starts_of(sub);
        let first_len = if g.len() > 1 {
            g[1] as int
        } else {
            bytes_len(sub) as int
        };
        lemma_char_index_at_bounds(s, byte_offset(s, i) + first_len);
    }
}

/// The start of the grapheme cluster before `i` lies within `s`.
pub proof fn lemma_prev_grapheme_index_bounds(s: Seq<char>, i: int)
    ensures
        0 <= prev_grapheme_index(s, i) <= s.len(),
{
    if i > 0 {
        let g = grapheme_starts_of(s.take(i));
        if g.len() > 0 {
            lemma_char_index_at_bounds(s, g.last() as int);
        }
    }
}

/// A table between character indices and byte offsets of a string.
///
/// Motions walk characters by index while the editor speaks byte
/// offsets; `offsets[i]` is the byte offset of character `i`, and
/// `offsets[len]` the byte length of the string.
pub struct CharOffsets<'a> {
    pub buf: &'a str,
    pub chars: Vec<char>,
    pub offsets: Vec<usize>,
}

impl<'a> CharOffsets<'a> {
    /// The table agrees with the string it was built from.
    pub open spec fn wf(&self) -> bool {
        &&& self.chars@ == self.buf@
        &&& self.offsets@.len() == self.chars@.len() + 1
        &&& forall|i: int|
            0 <= i <= self.chars@.len() ==> #[trigger] self.offsets@[i] as int == byte_offset(
                self.chars@,
                i,
            )
    }

    /// Builds the table for `buf`.
    pub fn new(buf: &'a str) -> (r: Self)
        requires
            bytes_len(buf@) <= usize::MAX,
        ensures
            r.wf(),
            r.buf == buf,
    {
        let chars = chars_of(buf);
        let mut offsets: Vec<usize> = Vec::new();
        let mut off: usize = 0;
        let mut i: usize = 0;
        proof {
            lemma_byte_offset_len(chars@);
        }
        while i < chars.len()
            invariant
                chars@ == buf@,
                bytes_len(buf@) <= usize::MAX,
                i <= chars.len(),
                offsets@.len() == i,
                off as int == byte_offset(chars@, i as int),
                forall|k: int| 0 <= k < i ==> #[trigger] offsets@[k] as int == byte_offset(chars@, k),
            decreases chars.len() - i,
        {
            offsets.push(off);
            proof {
                lemma_byte_offset_step(chars@, i as int);
                lemma_byte_offset_len(chars@);
                if i + 1 < chars.len() {
                    lemma_byte_offset_strict(chars@, i + 1, chars@.len() as int);
                }
            }
            off = off + len_utf8(chars[i]);
            i = i + 1;
        }
        offsets.push(off);
        CharOffsets { buf, chars, offsets }
    }

    /// Number of characters.
    pub fn len(&self) -> (r: usize)
        requires
            self.wf(),
        ensures
            r == self.chars@.len(),
    {
        self.chars.len()
    }

    /// The character with index `i`.
    pub fn char_at(&self, i: usize) -> (r: char)
        requires
            self.wf(),
            i < self.chars@.len(),
        ensures
            r == self.chars@[i as int],
    {
        self.chars[i]
    }

    /// The byte offset of character index `i` (the byte length for the
    /// index one past the end).
    pub fn to_byte(&self, i: usize) -> (r: usize)
        requires
            self.wf(),
            i <= self.chars@.len(),
        ensures
            r == byte_offset(self.chars@, i as int),
    {
        self.offsets[i]
    }

    /// The selection with character indices `anchor` and `head` turned
    /// into byte offsets.
    pub fn to_byte_range(&self, anchor: usize, head: usize) -> (r: HxRange)
        requires
            self.wf(),
            anchor <= self.chars@.len(),
            head <= self.chars@.len(),
        ensures
            r.anchor == byte_offset(self.chars@, anchor as int),
            r.head == byte_offset(self.chars@, head as int),
    {
        HxRange { anchor: self.to_byte(anchor), head: self.to_byte(head) }
    }

    /// The character index that byte offset `b` falls on.
    pub fn to_char(&self, b: usize) -> (r: usize)
        requires
            self.wf(),
        ensures
            r == char_index_at(self.chars@, b as int),
            r <= self.chars@.len(),
            0 < b <= bytes_len(self.chars@) ==> r > 0,
    {
        let n = self.chars.len();
        proof {
            lemma_byte_offset_len(self.chars@);
        }
        if self.offsets[n] < b {
            return n;
        }
        // The answer lies in [lo, hi]: offsets before lo are below b and
        // offsets[hi] >= b.
        let mut lo: usize = 0;
        let mut hi: usize = n;
        while lo < hi
            invariant
                self.wf(),
                n == self.chars@.len(),
                lo <= hi <= n,
                self.offsets@[hi as int] >= b,
                lo == 0 || self.offsets@[lo - 1] < b,
            decreases hi - lo,
        {
            let mid = lo + (hi - lo) / 2;
            if self.offsets[mid] < b {
                lo = mid + 1;
            } else {
                hi = mid;
            }
        }
        proof {
            lemma_char_index_at(self.chars@, b as int, lo as int);
        }
        lo
    }

    /// The character index of the next grapheme boundary after character
    /// `i`.
    pub fn next_grapheme_char_idx(&self, i: usize) -> (r: usize)
        requires
            self.wf(),
            bytes_len(self.chars@) <= usize::MAX,
        ensures
            r == next_grapheme_index(self.chars@, i as int),
            r <= self.chars@.len(),
            (i as int) < self.chars@.len() ==> r > i,
    {
        let n = self.len();
        if i >= n {
            return n;
        }
        let byte_start = self.to_byte(i);
        let slice = self.buf.substring_char(i, n);
        let starts = grapheme_starts(slice);
        proof {
            lemma_bytes_len_split(self.chars@, i as int);
            lemma_byte_offset_len(self.chars@);
        }
        let slice_len = self.offsets[n] - byte_start;
        let first_len = if starts.len() > 1 {
            starts[1]
        } else {
            slice_len
        };
        proof {
            lemma_byte_offset_strict(self.chars@, i as int, n as int);
            if starts.len() > 1 {
                assert(starts@[0] < starts@[1]);
            }
        }
        let r = self.to_char(byte_start + first_len);
        proof {
            let b = byte_start + first_len;
            lemma_char_index_at_bounds(self.chars@, b as int);
            if r <= i {
                lemma_byte_offset_mono(self.chars@, r as int, i as int);
            }
        }
        r
    }

    /// The character index of the previous grapheme boundary before
    /// character `i`.
    pub fn prev_grapheme_char_idx(&self, i: usize) -> (r: usize)
        requires
            self.wf(),
            i <= self.chars@.len(),
        ensures
            r == prev_grapheme_index(self.chars@, i as int),
            r <= i,
            i > 0 ==> r < i,
    {
        if i == 0 {
            return 0;
        }
        let slice = self.buf.substring_char(0, i);
        proof {
            assert(self.buf@.subrange(0, i as int) == self.chars@.take(i as int));
        }
        let starts = grapheme_starts(slice);
        if starts.len() > 0 {
            let b = starts[starts.len() - 1];
            let ghost t = self.chars@.take(i as int);
            proof {
                let k = choose|k: int| 0 <= k <= t.len() && #[trigger] byte_offset(t, k) == b;
                assert(t.take(k) == self.chars@.take(k));
                lemma_byte_offset_len(t);
                assert(byte_offset(t, t.len() as int) == byte_offset(self.chars@, i as int)) by {
                    assert(t.take(t.len() as int) == self.chars@.take(i as int));
                }
                if k == t.len() {
                    assert(false);
                }
                lemma_boundary_index(self.chars@, b as int, k);
            }
            self.to_char(b)
        } else {
            0
        }
    }
}

/// Whether `a` and `b` hold the same characters.
pub fn str_equals(a: &str, b: &str) -> (r: bool)
    ensures
        r == (a@ == b@),
{
    let x = chars_of(a);
    let y = chars_of(b);
    if x.len() != y.len() {
        return false;
    }
    let mut i: usize = 0;
    while i < x.len()
        invariant
            x@ == a@,
            y@ == b@,
            x@.len() == y@.len(),
            i <= x@.len(),
            forall|j: int| 0 <= j < i ==> x@[j] == y@[j],
        decreases x.len() - i,
    {
        if x[i] != y[i] {
            return false;
        }
        i = i + 1;
    }
    assert(x@ =~= y@);
    true
}

} // verus!
