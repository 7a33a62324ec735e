//! Abbreviations: the word before the cursor replaced by its expansion
//! when a space or the submit key ends it.
use vstd::prelude::*;

use crate::enums::{EditCommand, ReedlineEvent};
use crate::text::{
    byte_offset, bytes_len, char_index_at, is_whitespace, is_whitespace_char, lemma_byte_offset_len,
    str_equals, CharOffsets,
};
use vstd::string::{StrSliceExecFns, StringExecFns};

verus! {

/// The index just after the last whitespace character before index
/// `end` of `s`, or 0 when there is none: where the word ending at `end`
/// starts.
pub open spec fn word_start_before(s: Seq<char>, end: int) -> int
    decreases end,
{
    if end <= 0 {
        0
    } else if is_whitespace_char(s[end - 1]) {
        end
    } else {
        word_start_before(s, end - 1)
    }
}

/// The index of the character that byte `b` of `s` falls in: its start
/// is the nearest character boundary at or before `b`. Past the end it is
/// the length of `s`.
pub open spec fn floor_index(s: Seq<char>, b: int) -> int {
    if b >= bytes_len(s) {
        s.len() as int
    } else {
        char_index_at(s, b + 1) - 1
    }
}

/// The word an abbreviation would replace, as character indices, with
/// the cursor at byte `cursor`: it ends at the cursor on submit and one
/// byte before it (the space just typed) otherwise, each taken down to a
/// character boundary, and starts after the last whitespace before its
/// end. There is none with the cursor at the start of the line, for an
/// empty word, or, on submit, in the middle of a word.
pub open spec fn abbreviation_span(s: Seq<char>, cursor: int, submitted: bool) -> Option<(int, int)> {
    if cursor == 0 {
        None
    } else {
        let end = floor_index(
            s,
            if submitted {
                cursor
            } else {
                cursor - 1
            },
        );
        let start = word_start_before(s, end);
        if start >= end {
            None
        } else if submitted && end < s.len() && !is_whitespace_char(s[end]) {
            None
        } else {
            Some((start, end))
        }
    }
}

/// The expansion of `word`: the value of the first entry whose key it is.
pub open spec fn abbreviation_of(list: Seq<(String, String)>, word: Seq<char>) -> Option<Seq<char>>
    decreases list.len(),
{
    if list.len() == 0 {
        None
    } else if list[0].0@ == word {
        Some(list[0].1@)
    } else {
        abbreviation_of(list.drop_first(), word)
    }
}

/// `r` selects from byte `start` through byte `cursor` and types `text`
/// over it.
pub open spec fn replaces_with(r: Option<ReedlineEvent>, start: int, cursor: int, text: Seq<char>) -> bool {
    match r {
        Some(ReedlineEvent::Edit(v)) => {
            &&& v@.len() == 3
            &&& v@[0] == EditCommand::MoveToPosition { position: start as usize, select: false }
            &&& v@[1] == EditCommand::MoveToPosition { position: cursor as usize, select: true }
            &&& v@[2] matches EditCommand::InsertString(t) && t@ == text
        },
        _ => false,
    }
}

/// What expanding the word from `start` to `end` of `s` gives, once
/// `allowed` says whether expanding there is allowed.
pub open spec fn expansion_outcome(
    r: Option<ReedlineEvent>,
    allowed: bool,
    s: Seq<char>,
    start: int,
    end: int,
    cursor: int,
    submitted: bool,
    abbreviations: Seq<(String, String)>,
) -> bool {
    if !allowed {
        r is None
    } else {
        match abbreviation_of(abbreviations, s.subrange(start, end)) {
            None => r is None,
            Some(t) => replaces_with(r, byte_offset(s, start) as int, cursor, t + expansion_suffix(submitted)),
        }
    }
}

/// What is typed after the expansion: a space when a space triggered it.
pub open spec fn expansion_suffix(submitted: bool) -> Seq<char> {
    if submitted {
        Seq::empty()
    } else {
        seq![' ']
    }
}

/// The expansion of `word` among `abbreviations`, if it has one.
fn find_abbreviation(abbreviations: &Vec<(String, String)>, word: &str) -> (r: Option<String>)
    ensures
        match abbreviation_of(abbreviations@, word@) {
            Some(t) => r matches Some(x) && x@ == t,
            None => r is None,
        },
{
    let mut i: usize = 0;
    proof {
        assert(abbreviations@.skip(0) == abbreviations@);
    }
    while i < abbreviations.len()
        invariant
            i <= abbreviations@.len(),
            abbreviation_of(abbreviations@.skip(i as int), word@) == abbreviation_of(
                abbreviations@,
                word@,
            ),
        decreases abbreviations.len() - i,
    {
        let ghost rest = abbreviations@.skip(i as int);
        proof {
            assert(rest[0] == abbreviations@[i as int]);
            assert(rest.drop_first() == abbreviations@.skip(i + 1));
        }
        if str_equals(abbreviations[i].0.as_str(), word) {
            return Some(abbreviations[i].1.clone());
        }
        i = i + 1;
    }
    None
}

/// The word before the cursor at byte `cursor`, as `abbreviation_span`
/// gives it.
fn word_span(offsets: &CharOffsets, cursor: usize, submitted: bool) -> (r: Option<(usize, usize)>)
    requires
        offsets.wf(),
    ensures
        match abbreviation_span(offsets.chars@, cursor as int, submitted) {
            None => r is None,
            Some((a, b)) => 0 <= a < b <= offsets.chars@.len() && r == Some((a as usize, b as usize)),
        },
{
    let ghost s = offsets.chars@;
    if cursor == 0 {
        return None;
    }
    let idx = if submitted {
        cursor
    } else {
        cursor - 1
    };
    let n = offsets.len();
    proof {
        lemma_byte_offset_len(s);
    }
    let total = offsets.to_byte(n);
    let end = if idx >= total {
        n
    } else {
        offsets.to_char(idx + 1) - 1
    };
    let mut start = end;
    while start > 0 && !is_whitespace(offsets.char_at(start - 1))
        invariant
            offsets.wf(),
            offsets.chars@ == s,
            start <= end <= s.len(),
            word_start_before(s, start as int) == word_start_before(s, end as int),
        decreases start,
    {
        start = start - 1;
    }
    proof {
        assert(word_start_before(s, start as int) == start);
    }
    if start >= end {
        return None;
    }
    if submitted && end < offsets.len() && !is_whitespace(offsets.char_at(end)) {
        return None;
    }
    Some((start, end))
}

/// The edit that selects from byte `start` through byte `cursor` and
/// types the expansion, followed by a space when a space triggered it.
fn expansion_event(start: usize, cursor: usize, expansion: String, submitted: bool) -> (r: Option<ReedlineEvent>)
    ensures
        replaces_with(r, start as int, cursor as int, expansion@ + expansion_suffix(submitted)),
{
    let ghost t = expansion@;
    let mut text = expansion;
    if !submitted {
        let space = " ";
        proof {
            reveal_strlit(" ");
        }
        text.append(space);
        proof {
            assert(space@ == seq![' ']);
        }
    } else {
        proof {
            assert(t + Seq::<char>::empty() =~= t);
        }
    }
    let ghost typed = text@;
    proof {
        assert(typed == t + expansion_suffix(submitted));
    }
    let cmds = vec![
        EditCommand::MoveToPosition { position: start, select: false },
        EditCommand::MoveToPosition { position: cursor, select: true },
        EditCommand::InsertString(text),
    ];
    proof {
        assert(cmds@.len() == 3);
        assert(cmds@[0] == EditCommand::MoveToPosition { position: start, select: false });
        assert(cmds@[1] == EditCommand::MoveToPosition { position: cursor, select: true });
        assert(cmds@[2] matches EditCommand::InsertString(x) && x@ == typed);
    }
    Some(ReedlineEvent::Edit(cmds))
}

/// Expands the abbreviation of the word before the cursor at byte
/// `cursor`, after a space (`submitted` false) or on submit. The cursor
/// may lie anywhere, inside a character or past the end.
/// `should_expand` is asked, with the byte where the word starts,
/// whether expanding there is allowed; it is asked only when there is a
/// word.
pub fn try_expand_abbreviation_at_cursor<F: Fn(usize) -> bool>(
    buffer: &str,
    cursor: usize,
    submitted: bool,
    abbreviations: &Vec<(String, String)>,
    should_expand: F,
) -> (r: Option<ReedlineEvent>)
    requires
        bytes_len(buffer@) <= usize::MAX,
        forall|b: usize| call_requires(should_expand, (b,)),
    ensures
        ({
            let s = buffer@;
            match abbreviation_span(s, cursor as int, submitted) {
                None => r is None,
                Some((start, end)) => exists|allowed: bool|
                    call_ensures(should_expand, (byte_offset(s, start) as usize,), allowed)
                        && #[trigger] expansion_outcome(
                        r,
                        allowed,
                        s,
                        start,
                        end,
                        cursor as int,
                        submitted,
                        abbreviations@,
                    ),
            }
        }),
{
    let offsets = CharOffsets::new(buffer);
    let ghost s = buffer@;
    proof {
        assert(offsets.chars@ == s);
    }
    let span = word_span(&offsets, cursor, submitted);
    let (start, end) = match span {
        Some(span) => span,
        None => {
            return None;
        },
    };
    proof {
        let sp = abbreviation_span(s, cursor as int, submitted);
        assert(sp is Some);
        let (a, b) = sp->0;
        assert(0 <= a < b <= s.len());
        assert(start == a && end == b);
    }
    let word_start = offsets.to_byte(start);
    let allowed = should_expand(word_start);
    proof {
        assert(byte_offset(s, start as int) as usize == word_start);
    }
    if !allowed {
        proof {
            assert(expansion_outcome(None, allowed, s, start as int, end as int, cursor as int, submitted, abbreviations@));
        }
        return None;
    }
    let word = buffer.substring_char(start, end);
    match find_abbreviation(abbreviations, word) {
        Some(expansion) => {
            let r = expansion_event(word_start, cursor, expansion, submitted);
            proof {
                assert(word@ == s.subrange(start as int, end as int));
                assert(expansion_outcome(r, allowed, s, start as int, end as int, cursor as int, submitted, abbreviations@));
            }
            r
        },
        None => {
            proof {
                assert(expansion_outcome(None, allowed, s, start as int, end as int, cursor as int, submitted, abbreviations@));
            }
            None
        },
    }
}

} // verus!
