//! Motions of the older Helix mode's key parser, and its character
//! searches.
use vstd::prelude::*;

use crate::edit_mode::vi::parser::{options_of, CharStream, OptionView, ParseResult, ReedlineOption};
use crate::enums::{events_view, lemma_events_view_len, EditCommand, EventView, ReedlineEvent};

verus! {

/// A motion.
#[derive(Clone, Copy, Debug, PartialEq, Eq, Structural)]
pub enum Motion {
    Left,
    Right,
    Up,
    Down,
    NextWord,
    NextBigWord,
    NextWordEnd,
    NextBigWordEnd,
    PreviousWord,
    PreviousBigWord,
    Line,
    Start,
    End,
    RightUntil(char),
    RightBefore(char),
    LeftUntil(char),
    LeftBefore(char),
}

/// A search to or till a character, left or right, which `;` and `,`
/// repeat.
#[derive(Clone, Copy, Debug, PartialEq, Eq, Structural)]
pub enum HxCharSearch {
    /// `f`
    ToRight(char),
    /// `F`
    ToLeft(char),
    /// `t`
    TillRight(char),
    /// `T`
    TillLeft(char),
}

/// The state the key parser's commands and motions read and update.
pub struct Hx {
    /// The last recorded insertion, which `.` replays.
    pub previous: Option<ReedlineEvent>,
    /// The last character search.
    pub last_char_search: Option<HxCharSearch>,
}

/// The motions typed as one character.
pub open spec fn single_char_motion(c: char) -> Option<Motion> {
    if c == 'h' {
        Some(Motion::Left)
    } else if c == 'l' {
        Some(Motion::Right)
    } else if c == 'j' {
        Some(Motion::Down)
    } else if c == 'k' {
        Some(Motion::Up)
    } else if c == 'b' {
        Some(Motion::PreviousWord)
    } else if c == 'B' {
        Some(Motion::PreviousBigWord)
    } else if c == 'w' {
        Some(Motion::NextWord)
    } else if c == 'W' {
        Some(Motion::NextBigWord)
    } else if c == 'e' {
        Some(Motion::NextWordEnd)
    } else if c == 'E' {
        Some(Motion::NextBigWordEnd)
    } else {
        None
    }
}

pub open spec fn find_motion(key: char, x: char) -> Option<Motion> {
    if key == 'f' {
        Some(Motion::RightUntil(x))
    } else if key == 't' {
        Some(Motion::RightBefore(x))
    } else if key == 'F' {
        Some(Motion::LeftUntil(x))
    } else if key == 'T' {
        Some(Motion::LeftBefore(x))
    } else {
        None
    }
}

/// The motion at the front of `s` and how many characters it takes;
/// the operator's own key doubled selects the line.
pub open spec fn motion_parse(s: Seq<char>, command_char: Option<char>) -> (ParseResult<Motion>, nat) {
    if s.len() == 0 {
        (ParseResult::Incomplete, 0)
    } else if single_char_motion(s[0]) is Some {
        (ParseResult::Valid(single_char_motion(s[0])->0), 1)
    } else if find_motion(s[0], 'x') is Some {
        if s.len() > 1 {
            (ParseResult::Valid(find_motion(s[0], s[1])->0), 2)
        } else {
            (ParseResult::Incomplete, 1)
        }
    } else if command_char == Some(s[0]) {
        (ParseResult::Valid(Motion::Line), 1)
    } else {
        (ParseResult::Invalid, 0)
    }
}

/// Reads a motion from `input`.
pub fn parse_motion(input: &mut CharStream, command_char: Option<char>) -> (r: ParseResult<Motion>)
    requires
        old(input).wf(),
    ensures
        final(input).wf(),
        r == motion_parse(old(input)@, command_char).0,
        final(input)@ == old(input)@.skip(motion_parse(old(input)@, command_char).1 as int),
{
    let ghost s = input@;
    proof {
        assert(s.skip(0) == s);
    }
    let c = match input.peek() {
        Some(c) => c,
        None => {
            return ParseResult::Incomplete;
        },
    };
    let single = if c == 'h' {
        Some(Motion::Left)
    } else if c == 'l' {
        Some(Motion::Right)
    } else if c == 'j' {
        Some(Motion::Down)
    } else if c == 'k' {
        Some(Motion::Up)
    } else if c == 'b' {
        Some(Motion::PreviousWord)
    } else if c == 'B' {
        Some(Motion::PreviousBigWord)
    } else if c == 'w' {
        Some(Motion::NextWord)
    } else if c == 'W' {
        Some(Motion::NextBigWord)
    } else if c == 'e' {
        Some(Motion::NextWordEnd)
    } else if c == 'E' {
        Some(Motion::NextBigWordEnd)
    } else {
        None
    };
    if let Some(m) = single {
        let _ = input.next();
        return ParseResult::Valid(m);
    }
    if c == 'f' || c == 't' || c == 'F' || c == 'T' {
        let _ = input.next();
        return match input.next() {
            Some(x) => {
                proof {
                    assert(s.skip(1).skip(1) == s.skip(2));
                }
                ParseResult::Valid(
                    if c == 'f' {
                        Motion::RightUntil(x)
                    } else if c == 't' {
                        Motion::RightBefore(x)
                    } else if c == 'F' {
                        Motion::LeftUntil(x)
                    } else {
                        Motion::LeftBefore(x)
                    },
                )
            },
            None => ParseResult::Incomplete,
        };
    }
    if command_char == Some(c) {
        let _ = input.next();
        return ParseResult::Valid(Motion::Line);
    }
    ParseResult::Invalid
}

/// The search a character-search motion makes.
pub open spec fn search_of(m: Motion) -> Option<HxCharSearch> {
    match m {
        Motion::RightUntil(c) => Some(HxCharSearch::ToRight(c)),
        Motion::RightBefore(c) => Some(HxCharSearch::TillRight(c)),
        Motion::LeftUntil(c) => Some(HxCharSearch::ToLeft(c)),
        Motion::LeftBefore(c) => Some(HxCharSearch::TillLeft(c)),
        _ => None,
    }
}

/// The edit a motion makes on its own, for the motions that edit.
pub open spec fn motion_edit(m: Motion) -> Option<EditCommand> {
    match m {
        Motion::NextWord => Some(EditCommand::MoveWordRightStart { select: false }),
        Motion::NextBigWord => Some(EditCommand::MoveBigWordRightStart { select: false }),
        Motion::NextWordEnd => Some(EditCommand::MoveWordRightEnd { select: false }),
        Motion::NextBigWordEnd => Some(EditCommand::MoveBigWordRightEnd { select: false }),
        Motion::PreviousWord => Some(EditCommand::MoveWordLeft { select: false }),
        Motion::PreviousBigWord => Some(EditCommand::MoveBigWordLeft { select: false }),
        Motion::Start => Some(EditCommand::MoveToLineStart { select: false }),
        Motion::End => Some(EditCommand::MoveToLineEnd { select: false }),
        Motion::RightUntil(c) => Some(EditCommand::MoveRightUntil { c, select: false }),
        Motion::RightBefore(c) => Some(EditCommand::MoveRightBefore { c, select: false }),
        Motion::LeftUntil(c) => Some(EditCommand::MoveLeftUntil { c, select: false }),
        Motion::LeftBefore(c) => Some(EditCommand::MoveLeftBefore { c, select: false }),
        _ => None,
    }
}

/// What a motion produces on its own.
pub open spec fn motion_options(m: Motion) -> Seq<OptionView> {
    match m {
        Motion::Left => seq![
            OptionView::Event(EventView::UntilFound(seq![EventView::MenuLeft, EventView::Left])),
        ],
        Motion::Right => seq![
            OptionView::Event(
                EventView::UntilFound(
                    seq![EventView::HistoryHintComplete, EventView::MenuRight, EventView::Right],
                ),
            ),
        ],
        Motion::Up => seq![
            OptionView::Event(EventView::UntilFound(seq![EventView::MenuUp, EventView::Up])),
        ],
        Motion::Down => seq![
            OptionView::Event(EventView::UntilFound(seq![EventView::MenuDown, EventView::Down])),
        ],
        Motion::Line => Seq::empty(),
        _ => seq![OptionView::Edit(motion_edit(m)->0)],
    }
}

impl Motion {
    /// What the motion produces on its own; a character search is
    /// remembered.
    pub fn to_reedline(&self, hx_state: &mut Hx) -> (r: Vec<ReedlineOption>)
        ensures
            options_of(r@) == motion_options(*self),
            final(hx_state).last_char_search == (match search_of(*self) {
                Some(s) => Some(s),
                None => old(hx_state).last_char_search,
            }),
            final(hx_state).previous == old(hx_state).previous,
    {
        let r = match self {
            Motion::Left => {
                let v = vec![ReedlineEvent::MenuLeft, ReedlineEvent::Left];
                proof {
                    lemma_events_view_len(v@);
                    assert(events_view(v@) =~= seq![EventView::MenuLeft, EventView::Left]);
                }
                vec![ReedlineOption::Event(ReedlineEvent::UntilFound(v))]
            },
            Motion::Right => {
                let v = vec![
                    ReedlineEvent::HistoryHintComplete,
                    ReedlineEvent::MenuRight,
                    ReedlineEvent::Right,
                ];
                proof {
                    lemma_events_view_len(v@);
                    assert(events_view(v@) =~= seq![
                        EventView::HistoryHintComplete,
                        EventView::MenuRight,
                        EventView::Right,
                    ]);
                }
                vec![ReedlineOption::Event(ReedlineEvent::UntilFound(v))]
            },
            Motion::Up => {
                let v = vec![ReedlineEvent::MenuUp, ReedlineEvent::Up];
                proof {
                    lemma_events_view_len(v@);
                    assert(events_view(v@) =~= seq![EventView::MenuUp, EventView::Up]);
                }
                vec![ReedlineOption::Event(ReedlineEvent::UntilFound(v))]
            },
            Motion::Down => {
                let v = vec![ReedlineEvent::MenuDown, ReedlineEvent::Down];
                proof {
                    lemma_events_view_len(v@);
                    assert(events_view(v@) =~= seq![EventView::MenuDown, EventView::Down]);
                }
                vec![ReedlineOption::Event(ReedlineEvent::UntilFound(v))]
            },
            Motion::NextWord => vec![
                ReedlineOption::Edit(EditCommand::MoveWordRightStart { select: false }),
            ],
            Motion::NextBigWord => vec![
                ReedlineOption::Edit(EditCommand::MoveBigWordRightStart { select: false }),
            ],
            Motion::NextWordEnd => vec![
                ReedlineOption::Edit(EditCommand::MoveWordRightEnd { select: false }),
            ],
            Motion::NextBigWordEnd => vec![
                ReedlineOption::Edit(EditCommand::MoveBigWordRightEnd { select: false }),
            ],
            Motion::PreviousWord => vec![
                ReedlineOption::Edit(EditCommand::MoveWordLeft { select: false }),
            ],
            Motion::PreviousBigWord => vec![
                ReedlineOption::Edit(EditCommand::MoveBigWordLeft { select: false }),
            ],
            Motion::Line => vec![],
            Motion::Start => vec![
                ReedlineOption::Edit(EditCommand::MoveToLineStart { select: false }),
            ],
            Motion::End => vec![ReedlineOption::Edit(EditCommand::MoveToLineEnd { select: false })],
            Motion::RightUntil(ch) => {
                hx_state.last_char_search = Some(HxCharSearch::ToRight(*ch));
                vec![ReedlineOption::Edit(EditCommand::MoveRightUntil { c: *ch, select: false })]
            },
            Motion::RightBefore(ch) => {
                hx_state.last_char_search = Some(HxCharSearch::TillRight(*ch));
                vec![ReedlineOption::Edit(EditCommand::MoveRightBefore { c: *ch, select: false })]
            },
            Motion::LeftUntil(ch) => {
                hx_state.last_char_search = Some(HxCharSearch::ToLeft(*ch));
                vec![ReedlineOption::Edit(EditCommand::MoveLeftUntil { c: *ch, select: false })]
            },
            Motion::LeftBefore(ch) => {
                hx_state.last_char_search = Some(HxCharSearch::TillLeft(*ch));
                vec![ReedlineOption::Edit(EditCommand::MoveLeftBefore { c: *ch, select: false })]
            },
        };
        proof {
            assert(options_of(r@) =~= motion_options(*self));
        }
        r
    }
}

/// The same search in the other direction.
pub open spec fn reversed_search(s: HxCharSearch) -> HxCharSearch {
    match s {
        HxCharSearch::ToRight(c) => HxCharSearch::ToLeft(c),
        HxCharSearch::ToLeft(c) => HxCharSearch::ToRight(c),
        HxCharSearch::TillRight(c) => HxCharSearch::TillLeft(c),
        HxCharSearch::TillLeft(c) => HxCharSearch::TillRight(c),
    }
}

/// The move to the searched character.
pub open spec fn search_move(s: HxCharSearch) -> EditCommand {
    match s {
        HxCharSearch::ToRight(c) => EditCommand::MoveRightUntil { c, select: false },
        HxCharSearch::ToLeft(c) => EditCommand::MoveLeftUntil { c, select: false },
        HxCharSearch::TillRight(c) => EditCommand::MoveRightBefore { c, select: false },
        HxCharSearch::TillLeft(c) => EditCommand::MoveLeftBefore { c, select: false },
    }
}

/// The cut up to the searched character.
pub open spec fn search_cut(s: HxCharSearch) -> EditCommand {
    match s {
        HxCharSearch::ToRight(c) => EditCommand::CutRightUntil(c),
        HxCharSearch::ToLeft(c) => EditCommand::CutLeftUntil(c),
        HxCharSearch::TillRight(c) => EditCommand::CutRightBefore(c),
        HxCharSearch::TillLeft(c) => EditCommand::CutLeftBefore(c),
    }
}

impl HxCharSearch {
    /// The search in the other direction, for `,`.
    pub fn reverse(&self) -> (r: Self)
        ensures
            r == reversed_search(*self),
    {
        match self {
            HxCharSearch::ToRight(c) => HxCharSearch::ToLeft(*c),
            HxCharSearch::ToLeft(c) => HxCharSearch::ToRight(*c),
            HxCharSearch::TillRight(c) => HxCharSearch::TillLeft(*c),
            HxCharSearch::TillLeft(c) => HxCharSearch::TillRight(*c),
        }
    }

    /// Move to the searched character.
    pub fn to_move(&self) -> (r: EditCommand)
        ensures
            r == search_move(*self),
    {
        match self {
            HxCharSearch::ToRight(c) => EditCommand::MoveRightUntil { c: *c, select: false },
            HxCharSearch::ToLeft(c) => EditCommand::MoveLeftUntil { c: *c, select: false },
            HxCharSearch::TillRight(c) => EditCommand::MoveRightBefore { c: *c, select: false },
            HxCharSearch::TillLeft(c) => EditCommand::MoveLeftBefore { c: *c, select: false },
        }
    }

    /// Cut up to the searched character.
    pub fn to_cut(&self) -> (r: EditCommand)
        ensures
            r == search_cut(*self),
    {
        match self {
            HxCharSearch::ToRight(c) => EditCommand::CutRightUntil(*c),
            HxCharSearch::ToLeft(c) => EditCommand::CutLeftUntil(*c),
            HxCharSearch::TillRight(c) => EditCommand::CutRightBefore(*c),
            HxCharSearch::TillLeft(c) => EditCommand::CutLeftBefore(*c),
        }
    }
}

/// Reversing a search twice gives it back.
pub proof fn lemma_reverse_involution(s: HxCharSearch)
    ensures
        reversed_search(reversed_search(s)) == s,
{
}

} // verus!
