//! Vi motions: how they are typed and what they move to.
use vstd::prelude::*;

use super::parser::{options_of, CharStream, OptionView, ParseResult, ReedlineOption};
use super::{Vi, ViMode};
use crate::enums::{
    events_view, lemma_events_view_len, Direction, EditCommand, EventView, FindStop, MotionTarget, ReedlineEvent, WordEdge, WordKind,
};

verus! {

/// A Vi motion.
#[derive(Clone, Copy, Debug, PartialEq, Eq, Structural)]
pub enum Motion {
    Left,
    Right,
    Up,
    Down,
    NextWord,
    NextBigWord,
    NextWordEnd,
    NextBigWordEnd,
    PreviousWord,
    PreviousBigWord,
    Line,
    Start,
    NonBlankStart,
    End,
    FirstLine,
    LastLine,
    RightUntil(char),
    RightBefore(char),
    LeftUntil(char),
    LeftBefore(char),
    ReplayCharSearch,
    ReverseCharSearch,
}

/// The motions typed as one character.
pub open spec fn single_char_motion(c: char) -> Option<Motion> {
    if c == 'h' {
        Some(Motion::Left)
    } else if c == 'l' {
        Some(Motion::Right)
    } else if c == 'j' {
        Some(Motion::Down)
    } else if c == 'k' {
        Some(Motion::Up)
    } else if c == 'b' {
        Some(Motion::PreviousWord)
    } else if c == 'B' {
        Some(Motion::PreviousBigWord)
    } else if c == 'w' {
        Some(Motion::NextWord)
    } else if c == 'W' {
        Some(Motion::NextBigWord)
    } else if c == 'e' {
        Some(Motion::NextWordEnd)
    } else if c == 'E' {
        Some(Motion::NextBigWordEnd)
    } else if c == '0' {
        Some(Motion::Start)
    } else if c == '^' {
        Some(Motion::NonBlankStart)
    } else if c == '$' {
        Some(Motion::End)
    } else if c == ';' {
        Some(Motion::ReplayCharSearch)
    } else if c == ',' {
        Some(Motion::ReverseCharSearch)
    } else if c == 'G' {
        Some(Motion::LastLine)
    } else {
        None
    }
}

/// `f`, `t`, `F` and `T`: a character search for the character typed next.
pub open spec fn is_find_key(c: char) -> bool {
    c == 'f' || c == 't' || c == 'F' || c == 'T'
}

pub open spec fn find_motion(key: char, x: char) -> Motion {
    if key == 'f' {
        Motion::RightUntil(x)
    } else if key == 't' {
        Motion::RightBefore(x)
    } else if key == 'F' {
        Motion::LeftUntil(x)
    } else {
        Motion::LeftBefore(x)
    }
}

/// The motion at the front of `s`, and how many characters it takes.
/// `command_char` is the operator's own key, which doubled selects the
/// whole line (`dd`, `cc`, `yy`).
pub open spec fn motion_parse(s: Seq<char>, command_char: Option<char>) -> (ParseResult<Motion>, nat) {
    if s.len() == 0 {
        (ParseResult::Incomplete, 0)
    } else if single_char_motion(s[0]) is Some {
        (ParseResult::Valid(single_char_motion(s[0])->0), 1)
    } else if is_find_key(s[0]) {
        if s.len() > 1 {
            (ParseResult::Valid(find_motion(s[0], s[1])), 2)
        } else {
            (ParseResult::Incomplete, 1)
        }
    } else if s[0] == 'g' {
        if s.len() == 1 {
            (ParseResult::Incomplete, 1)
        } else if s[1] == 'g' {
            (ParseResult::Valid(Motion::FirstLine), 2)
        } else {
            (ParseResult::Invalid, 1)
        }
    } else if command_char == Some(s[0]) {
        (ParseResult::Valid(Motion::Line), 1)
    } else {
        (ParseResult::Invalid, 0)
    }
}

/// Reads a motion from `input`.
pub fn parse_motion(input: &mut CharStream, command_char: Option<char>) -> (r: ParseResult<Motion>)
    requires
        old(input).wf(),
    ensures
        final(input).wf(),
        r == motion_parse(old(input)@, command_char).0,
        final(input)@ == old(input)@.skip(motion_parse(old(input)@, command_char).1 as int),
{
    let ghost s = input@;
    proof {
        assert(s.skip(0) == s);
    }
    match input.peek() {
        None => ParseResult::Incomplete,
        Some(c) => {
            let single = if c == 'h' {
                Some(Motion::Left)
            } else if c == 'l' {
                Some(Motion::Right)
            } else if c == 'j' {
                Some(Motion::Down)
            } else if c == 'k' {
                Some(Motion::Up)
            } else if c == 'b' {
                Some(Motion::PreviousWord)
            } else if c == 'B' {
                Some(Motion::PreviousBigWord)
            } else if c == 'w' {
                Some(Motion::NextWord)
            } else if c == 'W' {
                Some(Motion::NextBigWord)
            } else if c == 'e' {
                Some(Motion::NextWordEnd)
            } else if c == 'E' {
                Some(Motion::NextBigWordEnd)
            } else if c == '0' {
                Some(Motion::Start)
            } else if c == '^' {
                Some(Motion::NonBlankStart)
            } else if c == '$' {
                Some(Motion::End)
            } else if c == ';' {
                Some(Motion::ReplayCharSearch)
            } else if c == ',' {
                Some(Motion::ReverseCharSearch)
            } else if c == 'G' {
                Some(Motion::LastLine)
            } else {
                None
            };
            if let Some(m) = single {
                let _ = input.next();
                return ParseResult::Valid(m);
            }
            if c == 'f' || c == 't' || c == 'F' || c == 'T' {
                let _ = input.next();
                return match input.next() {
                    Some(x) => {
                        proof {
                            assert(s.skip(1).skip(1) == s.skip(2));
                        }
                        ParseResult::Valid(
                            if c == 'f' {
                                Motion::RightUntil(x)
                            } else if c == 't' {
                                Motion::RightBefore(x)
                            } else if c == 'F' {
                                Motion::LeftUntil(x)
                            } else {
                                Motion::LeftBefore(x)
                            },
                        )
                    },
                    None => ParseResult::Incomplete,
                };
            }
            if c == 'g' {
                let _ = input.next();
                return match input.peek() {
                    Some('g') => {
                        let _ = input.next();
                        proof {
                            assert(s.skip(1).skip(1) == s.skip(2));
                        }
                        ParseResult::Valid(Motion::FirstLine)
                    },
                    Some(_) => ParseResult::Invalid,
                    None => ParseResult::Incomplete,
                };
            }
            if command_char == Some(c) {
                let _ = input.next();
                return ParseResult::Valid(Motion::Line);
            }
            ParseResult::Invalid
        },
    }
}

pub open spec fn word_target(kind: WordKind, edge: WordEdge, direction: Direction) -> MotionTarget {
    MotionTarget::Word { kind, edge, direction }
}

/// The target a motion resolves to, for the motions with a fixed one.
pub open spec fn motion_target(m: Motion) -> Option<MotionTarget> {
    match m {
        Motion::NextWord => Some(word_target(WordKind::Word, WordEdge::Start, Direction::Forward)),
        Motion::NextBigWord => Some(
            word_target(WordKind::LongWord, WordEdge::Start, Direction::Forward),
        ),
        Motion::NextWordEnd => Some(word_target(WordKind::Word, WordEdge::End, Direction::Forward)),
        Motion::NextBigWordEnd => Some(
            word_target(WordKind::LongWord, WordEdge::End, Direction::Forward),
        ),
        Motion::PreviousWord => Some(
            word_target(WordKind::Word, WordEdge::Start, Direction::Backward),
        ),
        Motion::PreviousBigWord => Some(
            word_target(WordKind::LongWord, WordEdge::Start, Direction::Backward),
        ),
        Motion::Start => Some(MotionTarget::LineEdge(Direction::Backward)),
        Motion::End => Some(MotionTarget::LineEdge(Direction::Forward)),
        Motion::RightUntil(c) => Some(
            MotionTarget::Find { ch: c, direction: Direction::Forward, stop: FindStop::On },
        ),
        Motion::RightBefore(c) => Some(
            MotionTarget::Find { ch: c, direction: Direction::Forward, stop: FindStop::Before },
        ),
        Motion::LeftUntil(c) => Some(
            MotionTarget::Find { ch: c, direction: Direction::Backward, stop: FindStop::On },
        ),
        Motion::LeftBefore(c) => Some(
            MotionTarget::Find { ch: c, direction: Direction::Backward, stop: FindStop::Before },
        ),
        Motion::FirstLine => Some(MotionTarget::BufferEdge(Direction::Backward)),
        Motion::LastLine => Some(MotionTarget::BufferEdge(Direction::Forward)),
        Motion::Down => Some(MotionTarget::Line(Direction::Forward)),
        Motion::Up => Some(MotionTarget::Line(Direction::Backward)),
        _ => None,
    }
}

/// The character searches `f`, `t`, `F`, `T`.
pub open spec fn is_char_search(m: Motion) -> bool {
    m is RightUntil || m is RightBefore || m is LeftUntil || m is LeftBefore
}

/// Move to `target`, or extend the selection to it in Visual mode.
pub open spec fn move_or_extend(select: bool, target: MotionTarget) -> EditCommand {
    if select {
        EditCommand::Extend(target)
    } else {
        EditCommand::Move(target)
    }
}

/// What a motion typed on its own produces, given whether Visual mode
/// selects and the last character search.
pub open spec fn motion_options(m: Motion, select: bool, last: Option<MotionTarget>) -> Seq<OptionView> {
    match m {
        Motion::Left => seq![
            OptionView::Event(
                EventView::UntilFound(
                    seq![
                        EventView::MenuLeft,
                        EventView::Edit(seq![EditCommand::MoveLeft { select }]),
                    ],
                ),
            ),
        ],
        Motion::Right => seq![
            OptionView::Event(
                EventView::UntilFound(
                    seq![
                        EventView::HistoryHintComplete,
                        EventView::MenuRight,
                        EventView::Edit(seq![EditCommand::MoveRight { select }]),
                    ],
                ),
            ),
        ],
        Motion::Up => seq![
            if select {
                OptionView::Edit(EditCommand::MoveLineUp { select: true })
            } else {
                OptionView::Event(EventView::UntilFound(seq![EventView::MenuUp, EventView::Up]))
            },
        ],
        Motion::Down => seq![
            if select {
                OptionView::Edit(EditCommand::MoveLineDown { select: true })
            } else {
                OptionView::Event(EventView::UntilFound(seq![EventView::MenuDown, EventView::Down]))
            },
        ],
        Motion::Line => Seq::empty(),
        Motion::NonBlankStart => seq![
            OptionView::Edit(EditCommand::MoveToLineNonBlankStart { select }),
        ],
        Motion::ReplayCharSearch => match last {
            Some(t) => seq![OptionView::Edit(move_or_extend(select, t))],
            None => Seq::empty(),
        },
        Motion::ReverseCharSearch => match last {
            Some(t) => seq![OptionView::Edit(move_or_extend(select, crate::enums::reverse_target(t)))],
            None => Seq::empty(),
        },
        _ => seq![OptionView::Edit(move_or_extend(select, motion_target(m)->0))],
    }
}

impl Motion {
    /// The target this motion resolves to, for motions with a fixed one:
    /// words, line and buffer edges, character searches, and `j`/`k` as
    /// the adjacent line for operators.
    pub fn target(&self) -> (r: Option<MotionTarget>)
        ensures
            r == motion_target(*self),
    {
        match self {
            Motion::NextWord => Some(
                MotionTarget::Word {
                    kind: WordKind::Word,
                    edge: WordEdge::Start,
                    direction: Direction::Forward,
                },
            ),
            Motion::NextBigWord => Some(
                MotionTarget::Word {
                    kind: WordKind::LongWord,
                    edge: WordEdge::Start,
                    direction: Direction::Forward,
                },
            ),
            Motion::NextWordEnd => Some(
                MotionTarget::Word {
                    kind: WordKind::Word,
                    edge: WordEdge::End,
                    direction: Direction::Forward,
                },
            ),
            Motion::NextBigWordEnd => Some(
                MotionTarget::Word {
                    kind: WordKind::LongWord,
                    edge: WordEdge::End,
                    direction: Direction::Forward,
                },
            ),
            Motion::PreviousWord => Some(
                MotionTarget::Word {
                    kind: WordKind::Word,
                    edge: WordEdge::Start,
                    direction: Direction::Backward,
                },
            ),
            Motion::PreviousBigWord => Some(
                MotionTarget::Word {
                    kind: WordKind::LongWord,
                    edge: WordEdge::Start,
                    direction: Direction::Backward,
                },
            ),
            Motion::Start => Some(MotionTarget::LineEdge(Direction::Backward)),
            Motion::End => Some(MotionTarget::LineEdge(Direction::Forward)),
            Motion::RightUntil(c) => Some(
                MotionTarget::Find { ch: *c, direction: Direction::Forward, stop: FindStop::On },
            ),
            Motion::RightBefore(c) => Some(
                MotionTarget::Find { ch: *c, direction: Direction::Forward, stop: FindStop::Before },
            ),
            Motion::LeftUntil(c) => Some(
                MotionTarget::Find { ch: *c, direction: Direction::Backward, stop: FindStop::On },
            ),
            Motion::LeftBefore(c) => Some(
                MotionTarget::Find {
                    ch: *c,
                    direction: Direction::Backward,
                    stop: FindStop::Before,
                },
            ),
            Motion::FirstLine => Some(MotionTarget::BufferEdge(Direction::Backward)),
            Motion::LastLine => Some(MotionTarget::BufferEdge(Direction::Forward)),
            Motion::Down => Some(MotionTarget::Line(Direction::Forward)),
            Motion::Up => Some(MotionTarget::Line(Direction::Backward)),
            _ => None,
        }
    }

    /// The motion typed on its own: move the cursor, or extend the
    /// selection in Visual mode. A character search is remembered for `;`
    /// and `,`.
    pub fn to_reedline(&self, vi_state: &mut Vi) -> (r: Vec<ReedlineOption>)
        ensures
            options_of(r@) == motion_options(
                *self,
                old(vi_state).mode == ViMode::Visual,
                old(vi_state).last_char_search,
            ),
            final(vi_state).last_char_search == (if is_char_search(*self) {
                motion_target(*self)
            } else {
                old(vi_state).last_char_search
            }),
            final(vi_state).mode == old(vi_state).mode,
            final(vi_state).previous == old(vi_state).previous,
            final(vi_state).cache == old(vi_state).cache,
            final(vi_state).insert_keybindings == old(vi_state).insert_keybindings,
            final(vi_state).normal_keybindings == old(vi_state).normal_keybindings,
    {
        let select_mode = vi_state.mode == ViMode::Visual;
        let r = match self {
            Motion::Left => {
                let edit = vec![EditCommand::MoveLeft { select: select_mode }];
                assert(edit@ == seq![EditCommand::MoveLeft { select: select_mode }]);
                let inner = vec![
                    ReedlineEvent::MenuLeft,
                    ReedlineEvent::Edit(edit),
                ];
                proof {
                    lemma_events_view_len(inner@);
                    assert(events_view(inner@) =~= seq![
                        EventView::MenuLeft,
                        EventView::Edit(seq![EditCommand::MoveLeft { select: select_mode }]),
                    ]);
                }
                vec![ReedlineOption::Event(ReedlineEvent::UntilFound(inner))]
            },
            Motion::Right => {
                let edit = vec![EditCommand::MoveRight { select: select_mode }];
                assert(edit@ == seq![EditCommand::MoveRight { select: select_mode }]);
                let inner = vec![
                    ReedlineEvent::HistoryHintComplete,
                    ReedlineEvent::MenuRight,
                    ReedlineEvent::Edit(edit),
                ];
                proof {
                    lemma_events_view_len(inner@);
                    assert(events_view(inner@) =~= seq![
                        EventView::HistoryHintComplete,
                        EventView::MenuRight,
                        EventView::Edit(seq![EditCommand::MoveRight { select: select_mode }]),
                    ]);
                }
                vec![ReedlineOption::Event(ReedlineEvent::UntilFound(inner))]
            },
            Motion::Up => {
                if select_mode {
                    vec![ReedlineOption::Edit(EditCommand::MoveLineUp { select: true })]
                } else {
                    let inner = vec![ReedlineEvent::MenuUp, ReedlineEvent::Up];
                    proof {
                        lemma_events_view_len(inner@);
                        assert(events_view(inner@) =~= seq![EventView::MenuUp, EventView::Up]);
                    }
                    vec![ReedlineOption::Event(ReedlineEvent::UntilFound(inner))]
                }
            },
            Motion::Down => {
                if select_mode {
                    vec![ReedlineOption::Edit(EditCommand::MoveLineDown { select: true })]
                } else {
                    let inner = vec![ReedlineEvent::MenuDown, ReedlineEvent::Down];
                    proof {
                        lemma_events_view_len(inner@);
                        assert(events_view(inner@) =~= seq![EventView::MenuDown, EventView::Down]);
                    }
                    vec![ReedlineOption::Event(ReedlineEvent::UntilFound(inner))]
                }
            },
            Motion::Line => vec![],
            Motion::NonBlankStart => vec![
                ReedlineOption::Edit(EditCommand::MoveToLineNonBlankStart { select: select_mode }),
            ],
            Motion::ReplayCharSearch => match vi_state.last_char_search {
                Some(target) => vec![
                    ReedlineOption::Edit(
                        if select_mode {
                            EditCommand::Extend(target)
                        } else {
                            EditCommand::Move(target)
                        },
                    ),
                ],
                None => vec![],
            },
            Motion::ReverseCharSearch => match vi_state.last_char_search {
                Some(target) => {
                    let t = target.reversed();
                    vec![
                        ReedlineOption::Edit(
                            if select_mode {
                                EditCommand::Extend(t)
                            } else {
                                EditCommand::Move(t)
                            },
                        ),
                    ]
                },
                None => vec![],
            },
            _ => {
                let target = match self.target() {
                    Some(t) => t,
                    None => {
                        return vec![];
                    },
                };
                if matches!(
                    self,
                    Motion::RightUntil(_) | Motion::RightBefore(_) | Motion::LeftUntil(_)
                        | Motion::LeftBefore(_)
                ) {
                    vi_state.last_char_search = Some(target);
                }
                vec![
                    ReedlineOption::Edit(
                        if select_mode {
                            EditCommand::Extend(target)
                        } else {
                            EditCommand::Move(target)
                        },
                    ),
                ]
            },
        };
        proof {
            assert(options_of(r@) =~= motion_options(
                *self,
                select_mode,
                old(vi_state).last_char_search,
            ));
        }
        r
    }
}

} // verus!
