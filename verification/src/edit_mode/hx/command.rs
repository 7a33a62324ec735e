//! Commands of the older Helix mode's key parser.
use vstd::prelude::*;

use super::motion::{search_of, HxCharSearch, Hx, Motion};
use crate::edit_mode::vi::command::previous_view;
use crate::edit_mode::vi::parser::{options_of, CharStream, OptionView, ReedlineOption};
use crate::enums::{EditCommand, EventView, ReedlineEvent};

verus! {

/// A command.
#[derive(Clone, Copy, Debug, PartialEq, Eq, Structural)]
pub enum Command {
    Incomplete,
    Delete,
    DeleteChar,
    ReplaceChar(char),
    PasteAfter,
    PasteBefore,
    EnterHxAppend,
    EnterHxInsert,
    Undo,
    Redo,
    SelectLine,
    TrimSelection,
    AppendToEnd,
    PrependToStart,
    Change,
    HistorySearch,
    Switchcase,
    RepeatLastInsertion,
}

/// The command typed as the character `c`, if any.
pub open spec fn command_of_char(c: char) -> Option<Command> {
    if c == 'd' {
        Some(Command::Delete)
    } else if c == 'p' {
        Some(Command::PasteAfter)
    } else if c == 'P' {
        Some(Command::PasteBefore)
    } else if c == 'i' {
        Some(Command::EnterHxInsert)
    } else if c == 'a' {
        Some(Command::EnterHxAppend)
    } else if c == 'u' {
        Some(Command::Undo)
    } else if c == 'U' {
        Some(Command::Redo)
    } else if c == 'c' {
        Some(Command::Change)
    } else if c == 'x' {
        Some(Command::SelectLine)
    } else if c == '?' {
        Some(Command::HistorySearch)
    } else if c == 'I' {
        Some(Command::PrependToStart)
    } else if c == 'A' {
        Some(Command::AppendToEnd)
    } else if c == '~' {
        Some(Command::Switchcase)
    } else if c == '-' {
        Some(Command::TrimSelection)
    } else if c == '.' {
        Some(Command::RepeatLastInsertion)
    } else {
        None
    }
}

/// The command at the front of `s`, which takes one character when
/// there is one.
pub open spec fn command_parse(s: Seq<char>) -> Option<Command> {
    if s.len() > 0 {
        command_of_char(s[0])
    } else {
        None
    }
}

/// Reads a command from `input`.
pub fn parse_command(input: &mut CharStream) -> (r: Option<Command>)
    requires
        old(input).wf(),
    ensures
        final(input).wf(),
        r == command_parse(old(input)@),
        final(input)@ == (if r is Some {
            old(input)@.skip(1)
        } else {
            old(input)@
        }),
{
    let c = match input.peek() {
        Some(c) => c,
        None => {
            return None;
        },
    };
    let r = if c == 'd' {
        Some(Command::Delete)
    } else if c == 'p' {
        Some(Command::PasteAfter)
    } else if c == 'P' {
        Some(Command::PasteBefore)
    } else if c == 'i' {
        Some(Command::EnterHxInsert)
    } else if c == 'a' {
        Some(Command::EnterHxAppend)
    } else if c == 'u' {
        Some(Command::Undo)
    } else if c == 'U' {
        Some(Command::Redo)
    } else if c == 'c' {
        Some(Command::Change)
    } else if c == 'x' {
        Some(Command::SelectLine)
    } else if c == '?' {
        Some(Command::HistorySearch)
    } else if c == 'I' {
        Some(Command::PrependToStart)
    } else if c == 'A' {
        Some(Command::AppendToEnd)
    } else if c == '~' {
        Some(Command::Switchcase)
    } else if c == '-' {
        Some(Command::TrimSelection)
    } else if c == '.' {
        Some(Command::RepeatLastInsertion)
    } else {
        None
    };
    if r.is_some() {
        let _ = input.next();
    }
    r
}

/// The commands whose lowering exists; redo, line selection and trimming
/// have none in this parser.
pub open spec fn has_lowering(c: Command) -> bool {
    c != Command::Redo && c != Command::SelectLine && c != Command::TrimSelection
}

/// What a command produces without a motion; `previous` is the
/// insertion `.` replays.
pub open spec fn command_options(c: Command, previous: Option<EventView>) -> Seq<OptionView> {
    match c {
        Command::EnterHxInsert => seq![OptionView::Event(EventView::Repaint)],
        Command::EnterHxAppend => seq![OptionView::Edit(EditCommand::MoveRight { select: false })],
        Command::PasteAfter => seq![OptionView::Edit(EditCommand::PasteCutBufferAfter)],
        Command::PasteBefore => seq![OptionView::Edit(EditCommand::PasteCutBufferBefore)],
        Command::Undo => seq![OptionView::Edit(EditCommand::Undo)],
        Command::AppendToEnd => seq![OptionView::Edit(EditCommand::MoveToLineEnd { select: false })],
        Command::PrependToStart => seq![
            OptionView::Edit(EditCommand::MoveToLineStart { select: false }),
        ],
        Command::DeleteChar => seq![OptionView::Edit(EditCommand::CutChar)],
        Command::ReplaceChar(c) => seq![OptionView::Edit(EditCommand::ReplaceChar(c))],
        Command::HistorySearch => seq![OptionView::Event(EventView::SearchHistory)],
        Command::Switchcase => seq![OptionView::Edit(EditCommand::SwitchcaseChar)],
        Command::RepeatLastInsertion => match previous {
            Some(e) => seq![OptionView::Event(e)],
            None => Seq::empty(),
        },
        _ => seq![OptionView::Incomplete],
    }
}

/// The edit `d` or `c` makes with a motion; `None` for up and down.
pub open spec fn operator_edit(change: bool, m: Motion) -> Option<Seq<EditCommand>> {
    match m {
        Motion::End => Some(
            seq![
                if change {
                    EditCommand::ClearToLineEnd
                } else {
                    EditCommand::CutToLineEnd
                },
            ],
        ),
        Motion::Line => Some(
            if change {
                seq![EditCommand::MoveToStart { select: false }, EditCommand::ClearToLineEnd]
            } else {
                seq![EditCommand::CutCurrentLine]
            },
        ),
        Motion::NextWord => Some(seq![EditCommand::CutWordRightToNext]),
        Motion::NextBigWord => Some(seq![EditCommand::CutBigWordRightToNext]),
        Motion::NextWordEnd => Some(seq![EditCommand::CutWordRight]),
        Motion::NextBigWordEnd => Some(seq![EditCommand::CutBigWordRight]),
        Motion::PreviousWord => Some(seq![EditCommand::CutWordLeft]),
        Motion::PreviousBigWord => Some(seq![EditCommand::CutBigWordLeft]),
        Motion::RightUntil(c) => Some(seq![EditCommand::CutRightUntil(c)]),
        Motion::RightBefore(c) => Some(seq![EditCommand::CutRightBefore(c)]),
        Motion::LeftUntil(c) => Some(seq![EditCommand::CutLeftUntil(c)]),
        Motion::LeftBefore(c) => Some(seq![EditCommand::CutLeftBefore(c)]),
        Motion::Start => Some(seq![EditCommand::CutFromLineStart]),
        Motion::Left => Some(seq![EditCommand::Backspace]),
        Motion::Right => Some(seq![EditCommand::Delete]),
        Motion::Up | Motion::Down => None,
    }
}

/// What a command followed by a motion produces: only `d` and `c` take
/// a motion, and `c` repaints afterwards to show the mode change.
pub open spec fn command_motion_options(c: Command, m: Motion) -> Option<Seq<OptionView>> {
    if c == Command::Delete || c == Command::Change {
        match operator_edit(c == Command::Change, m) {
            Some(edits) => {
                let opts = edits.map_values(|e: EditCommand| OptionView::Edit(e));
                Some(
                    if c == Command::Change {
                        opts.push(OptionView::Event(EventView::Repaint))
                    } else {
                        opts
                    },
                )
            },
            None => None,
        }
    } else {
        None
    }
}

impl Command {
    /// The key that applies `d` or `c` to the whole line.
    pub fn whole_line_char(&self) -> (r: Option<char>)
        ensures
            r == (if *self == Command::Delete {
                Some('d')
            } else if *self == Command::Change {
                Some('c')
            } else {
                None::<char>
            }),
    {
        match self {
            Command::Delete => Some('d'),
            Command::Change => Some('c'),
            _ => None,
        }
    }

    /// Whether the command waits for a motion.
    pub fn requires_motion(&self) -> (r: bool)
        ensures
            r == (*self == Command::Delete || *self == Command::Change),
    {
        matches!(self, Command::Delete | Command::Change)
    }

    /// What the command produces without a motion.
    pub fn to_reedline(&self, hx_state: &mut Hx) -> (r: Vec<ReedlineOption>)
        requires
            has_lowering(*self),
        ensures
            options_of(r@) == command_options(*self, previous_view(old(hx_state).previous)),
            final(hx_state).previous == old(hx_state).previous,
            final(hx_state).last_char_search == old(hx_state).last_char_search,
    {
        let r = match self {
            Command::EnterHxInsert => vec![ReedlineOption::Event(ReedlineEvent::Repaint)],
            Command::EnterHxAppend => vec![
                ReedlineOption::Edit(EditCommand::MoveRight { select: false }),
            ],
            Command::PasteAfter => vec![ReedlineOption::Edit(EditCommand::PasteCutBufferAfter)],
            Command::PasteBefore => vec![ReedlineOption::Edit(EditCommand::PasteCutBufferBefore)],
            Command::Undo => vec![ReedlineOption::Edit(EditCommand::Undo)],
            Command::AppendToEnd => vec![
                ReedlineOption::Edit(EditCommand::MoveToLineEnd { select: false }),
            ],
            Command::PrependToStart => vec![
                ReedlineOption::Edit(EditCommand::MoveToLineStart { select: false }),
            ],
            Command::DeleteChar => vec![ReedlineOption::Edit(EditCommand::CutChar)],
            Command::ReplaceChar(c) => vec![ReedlineOption::Edit(EditCommand::ReplaceChar(*c))],
            Command::HistorySearch => vec![ReedlineOption::Event(ReedlineEvent::SearchHistory)],
            Command::Switchcase => vec![ReedlineOption::Edit(EditCommand::SwitchcaseChar)],
            Command::RepeatLastInsertion => match &hx_state.previous {
                Some(event) => vec![ReedlineOption::Event(event.duplicate())],
                None => vec![],
            },
            _ => vec![ReedlineOption::Incomplete],
        };
        proof {
            assert(options_of(r@) =~= command_options(*self, previous_view(hx_state.previous)));
        }
        r
    }

    /// What the command produces followed by `motion`. A character
    /// search given to an operator is remembered.
    pub fn to_reedline_with_motion(&self, motion: &Motion, hx_state: &mut Hx) -> (r: Option<
        Vec<ReedlineOption>,
    >)
        ensures
            match command_motion_options(*self, *motion) {
                Some(s) => r is Some && options_of(r->0@) == s,
                None => r is None,
            },
            final(hx_state).last_char_search == (if (*self == Command::Delete || *self
                == Command::Change) && search_of(*motion) is Some {
                search_of(*motion)
            } else {
                old(hx_state).last_char_search
            }),
            final(hx_state).previous == old(hx_state).previous,
    {
        let change = *self == Command::Change;
        if !(*self == Command::Delete || change) {
            return None;
        }
        let mut v: Vec<ReedlineOption> = match motion {
            Motion::End => vec![
                ReedlineOption::Edit(
                    if change {
                        EditCommand::ClearToLineEnd
                    } else {
                        EditCommand::CutToLineEnd
                    },
                ),
            ],
            Motion::Line => if change {
                vec![
                    ReedlineOption::Edit(EditCommand::MoveToStart { select: false }),
                    ReedlineOption::Edit(EditCommand::ClearToLineEnd),
                ]
            } else {
                vec![ReedlineOption::Edit(EditCommand::CutCurrentLine)]
            },
            Motion::NextWord => vec![ReedlineOption::Edit(EditCommand::CutWordRightToNext)],
            Motion::NextBigWord => vec![ReedlineOption::Edit(EditCommand::CutBigWordRightToNext)],
            Motion::NextWordEnd => vec![ReedlineOption::Edit(EditCommand::CutWordRight)],
            Motion::NextBigWordEnd => vec![ReedlineOption::Edit(EditCommand::CutBigWordRight)],
            Motion::PreviousWord => vec![ReedlineOption::Edit(EditCommand::CutWordLeft)],
            Motion::PreviousBigWord => vec![ReedlineOption::Edit(EditCommand::CutBigWordLeft)],
            Motion::RightUntil(c) => {
                hx_state.last_char_search = Some(HxCharSearch::ToRight(*c));
                vec![ReedlineOption::Edit(EditCommand::CutRightUntil(*c))]
            },
            Motion::RightBefore(c) => {
                hx_state.last_char_search = Some(HxCharSearch::TillRight(*c));
                vec![ReedlineOption::Edit(EditCommand::CutRightBefore(*c))]
            },
            Motion::LeftUntil(c) => {
                hx_state.last_char_search = Some(HxCharSearch::ToLeft(*c));
                vec![ReedlineOption::Edit(EditCommand::CutLeftUntil(*c))]
            },
            Motion::LeftBefore(c) => {
                hx_state.last_char_search = Some(HxCharSearch::TillLeft(*c));
                vec![ReedlineOption::Edit(EditCommand::CutLeftBefore(*c))]
            },
            Motion::Start => vec![ReedlineOption::Edit(EditCommand::CutFromLineStart)],
            Motion::Left => vec![ReedlineOption::Edit(EditCommand::Backspace)],
            Motion::Right => vec![ReedlineOption::Edit(EditCommand::Delete)],
            Motion::Up | Motion::Down => {
                return None;
            },
        };
        if change {
            // The repaint shows the switch to insert mode.
            v.push(ReedlineOption::Event(ReedlineEvent::Repaint));
        }
        proof {
            assert(options_of(v@) =~= command_motion_options(*self, *motion)->0);
        }
        Some(v)
    }
}

} // verus!
