//! Vi commands: operators such as `d`, `c`, `y` and the single-key
//! commands of normal and visual mode.
use vstd::prelude::*;

use super::motion::{is_char_search, motion_target, Motion};
use super::parser::{options_of, CharStream, OptionView, ReedlineOption};
use super::{Vi, ViMode};
use crate::enums::{
    reverse_target, text_object_type_of, Direction, EditCommand, EventView, Granularity,
    MotionTarget, ReedlineEvent, TextObject, TextObjectBracket, TextObjectQuote, TextObjectScope,
    TextObjectType, WordEdge, WordKind,
};

verus! {

/// A Vi command.
#[derive(Clone, Copy, Debug, PartialEq, Eq, Structural)]
pub enum Command {
    Incomplete,
    Delete,
    DeleteChar,
    DeleteCharBackward,
    ReplaceChar(char),
    SubstituteCharWithInsert,
    NewlineAbove,
    NewlineBelow,
    PasteAfter,
    PasteBefore,
    EnterViAppend,
    EnterViInsert,
    Undo,
    ChangeToLineEnd,
    DeleteToEnd,
    AppendToEnd,
    PrependToStart,
    RewriteCurrentLine,
    Change,
    HistorySearch,
    Lowercase,
    Uppercase,
    Switchcase,
    RepeatLastAction,
    Yank,
    ChangeTextObject { text_object: TextObject },
    YankTextObject { text_object: TextObject },
    DeleteTextObject { text_object: TextObject },
    SwapCursorAndAnchor,
}

/// The commands typed as one key in `mode` (operators aside).
pub open spec fn single_key_command(mode: ViMode, c: char) -> Option<Command> {
    if c == 'p' {
        Some(Command::PasteAfter)
    } else if c == 'P' {
        Some(Command::PasteBefore)
    } else if c == 'i' {
        Some(Command::EnterViInsert)
    } else if c == 'a' {
        Some(Command::EnterViAppend)
    } else if c == 'x' {
        Some(Command::DeleteChar)
    } else if c == 'X' {
        Some(Command::DeleteCharBackward)
    } else if c == 's' {
        Some(Command::SubstituteCharWithInsert)
    } else if c == '?' {
        Some(Command::HistorySearch)
    } else if c == 'C' {
        Some(Command::ChangeToLineEnd)
    } else if c == 'D' {
        Some(Command::DeleteToEnd)
    } else if c == 'I' {
        Some(Command::PrependToStart)
    } else if c == 'A' {
        Some(Command::AppendToEnd)
    } else if c == 'S' {
        Some(Command::RewriteCurrentLine)
    } else if c == '~' {
        Some(Command::Switchcase)
    } else if c == '.' {
        Some(Command::RepeatLastAction)
    } else if c == 'u' && mode == ViMode::Normal {
        Some(Command::Undo)
    } else if (c == 'o' || c == 'O') && mode == ViMode::Normal {
        Some(
            if c == 'o' {
                Command::NewlineBelow
            } else {
                Command::NewlineAbove
            },
        )
    } else if (c == 'o' || c == 'O') && mode == ViMode::Visual {
        Some(Command::SwapCursorAndAnchor)
    } else if (c == 'u' || c == 'U') && mode == ViMode::Visual {
        Some(
            if c == 'u' {
                Command::Lowercase
            } else {
                Command::Uppercase
            },
        )
    } else {
        None
    }
}

/// The operators that take a motion or a text object.
pub open spec fn operator_of(c: char) -> Option<Command> {
    if c == 'd' {
        Some(Command::Delete)
    } else if c == 'y' {
        Some(Command::Yank)
    } else if c == 'c' {
        Some(Command::Change)
    } else {
        None
    }
}

/// The command an operator makes of a text object.
pub open spec fn text_object_command(op: Command, text_object: TextObject) -> Command {
    if op == Command::Yank {
        Command::YankTextObject { text_object }
    } else if op == Command::Change {
        Command::ChangeTextObject { text_object }
    } else {
        Command::DeleteTextObject { text_object }
    }
}

/// The text object named by `c` after `i`/`a`; `b` is any bracket and
/// `q` any quote.
pub open spec fn text_object_of(c: char, scope: TextObjectScope) -> Option<TextObject> {
    if c == 'b' {
        Some(TextObject { scope, object_type: TextObjectType::Brackets(TextObjectBracket::All) })
    } else if c == 'q' {
        Some(TextObject { scope, object_type: TextObjectType::Quotes(TextObjectQuote::All) })
    } else {
        match text_object_type_of(c) {
            Some(t) => Some(TextObject { scope, object_type: t }),
            None => None,
        }
    }
}

/// After operator `op`: an optional text object (`iw`, `a(`), and how
/// many characters it takes. Without `i`/`a` the operator stays
/// waiting for a motion.
pub open spec fn text_object_parse(s: Seq<char>, op: Command) -> (Option<Command>, nat) {
    if s.len() > 0 && (s[0] == 'i' || s[0] == 'a') {
        let scope = if s[0] == 'i' {
            TextObjectScope::Inner
        } else {
            TextObjectScope::Around
        };
        if s.len() > 1 {
            match text_object_of(s[1], scope) {
                Some(t) => (Some(text_object_command(op, t)), 2),
                None => (None, 2),
            }
        } else {
            (None, 1)
        }
    } else {
        (Some(op), 0)
    }
}

/// The command at the front of `s` in `mode`, if any, and how many
/// characters it takes.
pub open spec fn command_parse(mode: ViMode, s: Seq<char>) -> (Option<Command>, nat) {
    if s.len() == 0 {
        (None, 0)
    } else if operator_of(s[0]) is Some {
        let (c, n) = text_object_parse(s.skip(1), operator_of(s[0])->0);
        (c, n + 1)
    } else if s[0] == 'r' {
        if s.len() > 1 {
            (Some(Command::ReplaceChar(s[1])), 2)
        } else {
            (Some(Command::Incomplete), 1)
        }
    } else if single_key_command(mode, s[0]) is Some {
        (single_key_command(mode, s[0]), 1)
    } else {
        (None, 0)
    }
}

/// The text object named by `c` in `scope`.
pub fn char_to_text_object(c: char, scope: TextObjectScope) -> (r: Option<TextObject>)
    ensures
        r == text_object_of(c, scope),
{
    if c == 'b' {
        Some(TextObject { scope, object_type: TextObjectType::Brackets(TextObjectBracket::All) })
    } else if c == 'q' {
        Some(TextObject { scope, object_type: TextObjectType::Quotes(TextObjectQuote::All) })
    } else {
        match TextObjectType::from_char(c) {
            Some(t) => Some(TextObject { scope, object_type: t }),
            None => None,
        }
    }
}

/// After the operator `incomplete_command` was read: a text object makes
/// the operator's text-object command; otherwise the operator is
/// returned as it is, waiting for a motion.
pub fn text_object_to_command(input: &mut CharStream, incomplete_command: Command) -> (r: Option<
    Command,
>)
    requires
        old(input).wf(),
    ensures
        final(input).wf(),
        r == text_object_parse(old(input)@, incomplete_command).0,
        final(input)@ == old(input)@.skip(text_object_parse(old(input)@, incomplete_command).1 as int),
{
    let ghost s = input@;
    let scope = match input.peek() {
        Some('i') => TextObjectScope::Inner,
        Some('a') => TextObjectScope::Around,
        _ => {
            assert(s.skip(0) == s);
            return Some(incomplete_command);
        },
    };
    let _ = input.next();
    match input.next() {
        Some(c) => {
            proof {
                assert(s.skip(1).skip(1) == s.skip(2));
            }
            match char_to_text_object(c, scope) {
                Some(t) => Some(
                    if incomplete_command == Command::Yank {
                        Command::YankTextObject { text_object: t }
                    } else if incomplete_command == Command::Change {
                        Command::ChangeTextObject { text_object: t }
                    } else {
                        Command::DeleteTextObject { text_object: t }
                    },
                ),
                None => None,
            }
        },
        None => None,
    }
}

/// Reads a command in `mode` from `input`.
pub fn parse_command(mode: ViMode, input: &mut CharStream) -> (r: Option<Command>)
    requires
        old(input).wf(),
    ensures
        final(input).wf(),
        r == command_parse(mode, old(input)@).0,
        final(input)@ == old(input)@.skip(command_parse(mode, old(input)@).1 as int),
{
    let ghost s = input@;
    proof {
        assert(s.skip(0) == s);
    }
    let c = match input.peek() {
        Some(c) => c,
        None => {
            return None;
        },
    };
    if c == 'd' || c == 'y' || c == 'c' {
        let _ = input.next();
        let op = if c == 'd' {
            Command::Delete
        } else if c == 'y' {
            Command::Yank
        } else {
            Command::Change
        };
        let r = text_object_to_command(input, op);
        proof {
            let n = text_object_parse(s.skip(1), op).1;
            assert(s.skip(1).skip(n as int) == s.skip(n + 1int));
        }
        return r;
    }
    if c == 'r' {
        let _ = input.next();
        return match input.next() {
            Some(x) => {
                proof {
                    assert(s.skip(1).skip(1) == s.skip(2));
                }
                Some(Command::ReplaceChar(x))
            },
            None => Some(Command::Incomplete),
        };
    }
    let single = if c == 'p' {
        Some(Command::PasteAfter)
    } else if c == 'P' {
        Some(Command::PasteBefore)
    } else if c == 'i' {
        Some(Command::EnterViInsert)
    } else if c == 'a' {
        Some(Command::EnterViAppend)
    } else if c == 'x' {
        Some(Command::DeleteChar)
    } else if c == 'X' {
        Some(Command::DeleteCharBackward)
    } else if c == 's' {
        Some(Command::SubstituteCharWithInsert)
    } else if c == '?' {
        Some(Command::HistorySearch)
    } else if c == 'C' {
        Some(Command::ChangeToLineEnd)
    } else if c == 'D' {
        Some(Command::DeleteToEnd)
    } else if c == 'I' {
        Some(Command::PrependToStart)
    } else if c == 'A' {
        Some(Command::AppendToEnd)
    } else if c == 'S' {
        Some(Command::RewriteCurrentLine)
    } else if c == '~' {
        Some(Command::Switchcase)
    } else if c == '.' {
        Some(Command::RepeatLastAction)
    } else if c == 'u' && mode == ViMode::Normal {
        Some(Command::Undo)
    } else if (c == 'o' || c == 'O') && mode == ViMode::Normal {
        Some(
            if c == 'o' {
                Command::NewlineBelow
            } else {
                Command::NewlineAbove
            },
        )
    } else if (c == 'o' || c == 'O') && mode == ViMode::Visual {
        Some(Command::SwapCursorAndAnchor)
    } else if (c == 'u' || c == 'U') && mode == ViMode::Visual {
        Some(
            if c == 'u' {
                Command::Lowercase
            } else {
                Command::Uppercase
            },
        )
    } else {
        None
    };
    if single.is_some() {
        let _ = input.next();
    }
    single
}

/// The key that, typed again after an operator, applies it to the whole
/// line.
pub open spec fn whole_line_key(c: Option<Command>) -> Option<char> {
    match c {
        Some(Command::Delete) => Some('d'),
        Some(Command::Change) => Some('c'),
        Some(Command::Yank) => Some('y'),
        _ => None,
    }
}

/// Cut or copy the characters from the cursor to `target`.
pub open spec fn charwise_edit(op: Command, target: MotionTarget) -> EditCommand {
    if op == Command::Yank {
        EditCommand::Copy { target, granularity: Granularity::CharWise }
    } else {
        EditCommand::Cut { target, granularity: Granularity::CharWise }
    }
}

/// Cut, change or copy the whole lines from the cursor's to `target`'s.
pub open spec fn linewise_edit(op: Command, target: MotionTarget) -> EditCommand {
    if op == Command::Yank {
        EditCommand::Copy { target, granularity: Granularity::LineWise }
    } else if op == Command::Change {
        EditCommand::Change { target, granularity: Granularity::LineWise }
    } else {
        EditCommand::Cut { target, granularity: Granularity::LineWise }
    }
}

/// The edit an operator (`d`, `c` or `y`) makes with a motion, given
/// the last character search; `None` where `;`/`,` have nothing to
/// repeat.
pub open spec fn operator_edit(op: Command, m: Motion, last: Option<MotionTarget>) -> Option<EditCommand> {
    match m {
        Motion::Line => Some(linewise_edit(op, MotionTarget::LineEdge(Direction::Forward))),
        Motion::NonBlankStart => Some(
            if op == Command::Yank {
                EditCommand::CopyFromLineNonBlankStart
            } else {
                EditCommand::CutFromLineNonBlankStart
            },
        ),
        Motion::Left => Some(
            if op == Command::Yank {
                EditCommand::CopyLeft
            } else {
                EditCommand::Backspace
            },
        ),
        Motion::Right => Some(
            if op == Command::Yank {
                EditCommand::CopyRight
            } else {
                EditCommand::Delete
            },
        ),
        Motion::Down | Motion::Up | Motion::FirstLine | Motion::LastLine => Some(
            linewise_edit(op, motion_target(m)->0),
        ),
        Motion::ReplayCharSearch => match last {
            Some(t) => Some(charwise_edit(op, t)),
            None => None,
        },
        Motion::ReverseCharSearch => match last {
            Some(t) => Some(charwise_edit(op, reverse_target(t))),
            None => None,
        },
        Motion::NextWord => Some(
            charwise_edit(
                op,
                motion_target(
                    if op == Command::Change {
                        Motion::NextWordEnd
                    } else {
                        Motion::NextWord
                    },
                )->0,
            ),
        ),
        Motion::NextBigWord => Some(
            charwise_edit(
                op,
                motion_target(
                    if op == Command::Change {
                        Motion::NextBigWordEnd
                    } else {
                        Motion::NextBigWord
                    },
                )->0,
            ),
        ),
        _ => Some(charwise_edit(op, motion_target(m)->0)),
    }
}

/// What a command followed by a motion produces: the operator's edit,
/// with a repaint after a change; `None` for commands that take no
/// motion or when there is nothing to repeat.
pub open spec fn command_motion_options(c: Command, m: Motion, last: Option<MotionTarget>) -> Option<
    Seq<OptionView>,
> {
    if c == Command::Delete || c == Command::Yank || c == Command::Change {
        match operator_edit(c, m, last) {
            Some(e) => Some(
                if c == Command::Change {
                    seq![OptionView::Edit(e), OptionView::Event(EventView::Repaint)]
                } else {
                    seq![OptionView::Edit(e)]
                },
            ),
            None => None,
        }
    } else {
        None
    }
}

/// The edit of a one-key command; `visual` tells whether a selection is
/// active.
pub open spec fn command_edit(c: Command, visual: bool) -> Option<EditCommand> {
    match c {
        Command::EnterViAppend => Some(EditCommand::MoveRight { select: false }),
        Command::NewlineAbove => Some(EditCommand::InsertNewlineAbove),
        Command::NewlineBelow => Some(EditCommand::InsertNewlineBelow),
        Command::PasteAfter => Some(EditCommand::PasteCutBufferAfter),
        Command::PasteBefore => Some(EditCommand::PasteCutBufferBefore),
        Command::Undo => Some(EditCommand::Undo),
        Command::ChangeToLineEnd => Some(EditCommand::ClearToLineEnd),
        Command::DeleteToEnd => Some(EditCommand::CutToLineEnd),
        Command::AppendToEnd => Some(EditCommand::MoveToLineEnd { select: false }),
        Command::PrependToStart => Some(EditCommand::MoveToLineStart { select: false }),
        Command::DeleteCharBackward => Some(
            if visual {
                EditCommand::CutSelection { granularity: Granularity::LineWise }
            } else {
                EditCommand::CutCharLeft
            },
        ),
        Command::RewriteCurrentLine => Some(
            EditCommand::Change {
                target: MotionTarget::LineEdge(Direction::Forward),
                granularity: Granularity::LineWise,
            },
        ),
        Command::DeleteChar | Command::SubstituteCharWithInsert => Some(
            if visual {
                EditCommand::CutSelection { granularity: Granularity::CharWise }
            } else {
                EditCommand::CutChar
            },
        ),
        Command::ReplaceChar(c) => Some(EditCommand::ReplaceChar(c)),
        Command::Lowercase => Some(EditCommand::LowercaseSelection),
        Command::Uppercase => Some(EditCommand::UppercaseSelection),
        Command::Switchcase => Some(
            if visual {
                EditCommand::SwitchcaseSelection
            } else {
                EditCommand::SwitchcaseChar
            },
        ),
        Command::Delete | Command::Change => Some(
            EditCommand::CutSelection { granularity: Granularity::CharWise },
        ),
        Command::Yank => Some(EditCommand::CopySelection),
        Command::ChangeTextObject { text_object } => Some(EditCommand::CutTextObject { text_object }),
        Command::YankTextObject { text_object } => Some(EditCommand::CopyTextObject { text_object }),
        Command::DeleteTextObject { text_object } => Some(EditCommand::CutTextObject { text_object }),
        Command::SwapCursorAndAnchor => Some(EditCommand::SwapCursorAndAnchor),
        _ => None,
    }
}

/// What a command on its own produces; `previous` is the last recorded
/// action, which `.` replays.
pub open spec fn command_options(c: Command, visual: bool, previous: Option<EventView>) -> Seq<
    OptionView,
> {
    match c {
        Command::EnterViInsert => seq![OptionView::Event(EventView::Repaint)],
        Command::HistorySearch => seq![OptionView::Event(EventView::SearchHistory)],
        Command::Incomplete => seq![OptionView::Incomplete],
        Command::RepeatLastAction => match previous {
            Some(e) => seq![OptionView::Event(e)],
            None => Seq::empty(),
        },
        _ => seq![OptionView::Edit(command_edit(c, visual)->0)],
    }
}

/// `x` and `X` each cut one character in any mode they are typed in:
/// outside Visual mode `X` cuts the character before the cursor and `x`
/// the one under it, so the two differ; with a selection both cut the
/// selection, `X` by whole lines and `x` by characters.
pub proof fn cut_char_keys(mode: ViMode, previous: Option<EventView>)
    ensures
        single_key_command(mode, 'X') == Some(Command::DeleteCharBackward),
        single_key_command(mode, 'x') == Some(Command::DeleteChar),
        command_options(Command::DeleteCharBackward, false, previous) == seq![
            OptionView::Edit(EditCommand::CutCharLeft),
        ],
        command_options(Command::DeleteChar, false, previous) == seq![
            OptionView::Edit(EditCommand::CutChar),
        ],
        command_options(Command::DeleteCharBackward, false, previous) != command_options(
            Command::DeleteChar,
            false,
            previous,
        ),
        command_options(Command::DeleteCharBackward, true, previous) == seq![
            OptionView::Edit(EditCommand::CutSelection { granularity: Granularity::LineWise }),
        ],
        command_options(Command::DeleteChar, true, previous) == seq![
            OptionView::Edit(EditCommand::CutSelection { granularity: Granularity::CharWise }),
        ],
{
    assert(command_options(Command::DeleteCharBackward, false, previous)[0] != command_options(
        Command::DeleteChar,
        false,
        previous,
    )[0]);
}

pub open spec fn previous_view(p: Option<ReedlineEvent>) -> Option<EventView> {
    match p {
        Some(e) => Some(e@),
        None => None,
    }
}

impl Command {
    /// The key that applies this operator to the whole line (`dd`, `cc`,
    /// `yy`).
    pub fn whole_line_char(&self) -> (r: Option<char>)
        ensures
            r == whole_line_key(Some(*self)),
    {
        match self {
            Command::Delete => Some('d'),
            Command::Change => Some('c'),
            Command::Yank => Some('y'),
            _ => None,
        }
    }

    /// Whether the command waits for a motion.
    pub fn requires_motion(&self) -> (r: bool)
        ensures
            r == (*self == Command::Delete || *self == Command::Change || *self == Command::Yank),
    {
        matches!(self, Command::Delete | Command::Change | Command::Yank)
    }

    /// What the command produces without a motion.
    pub fn to_reedline(&self, vi_state: &mut Vi) -> (r: Vec<ReedlineOption>)
        ensures
            options_of(r@) == command_options(
                *self,
                old(vi_state).mode == ViMode::Visual,
                previous_view(old(vi_state).previous),
            ),
            *final(vi_state) == *old(vi_state),
    {
        let visual = vi_state.mode == ViMode::Visual;
        let r = match self {
            Command::EnterViInsert => vec![ReedlineOption::Event(ReedlineEvent::Repaint)],
            Command::HistorySearch => vec![ReedlineOption::Event(ReedlineEvent::SearchHistory)],
            Command::Incomplete => vec![ReedlineOption::Incomplete],
            Command::RepeatLastAction => match &vi_state.previous {
                Some(event) => vec![ReedlineOption::Event(event.duplicate())],
                None => vec![],
            },
            _ => {
                let e = match self {
                    Command::EnterViAppend => EditCommand::MoveRight { select: false },
                    Command::NewlineAbove => EditCommand::InsertNewlineAbove,
                    Command::NewlineBelow => EditCommand::InsertNewlineBelow,
                    Command::PasteAfter => EditCommand::PasteCutBufferAfter,
                    Command::PasteBefore => EditCommand::PasteCutBufferBefore,
                    Command::Undo => EditCommand::Undo,
                    Command::ChangeToLineEnd => EditCommand::ClearToLineEnd,
                    Command::DeleteToEnd => EditCommand::CutToLineEnd,
                    Command::AppendToEnd => EditCommand::MoveToLineEnd { select: false },
                    Command::PrependToStart => EditCommand::MoveToLineStart { select: false },
                    Command::DeleteCharBackward => if visual {
                        EditCommand::CutSelection { granularity: Granularity::LineWise }
                    } else {
                        EditCommand::CutCharLeft
                    },
                    Command::RewriteCurrentLine => EditCommand::Change {
                        target: MotionTarget::LineEdge(Direction::Forward),
                        granularity: Granularity::LineWise,
                    },
                    Command::DeleteChar | Command::SubstituteCharWithInsert => if visual {
                        EditCommand::CutSelection { granularity: Granularity::CharWise }
                    } else {
                        EditCommand::CutChar
                    },
                    Command::ReplaceChar(c) => EditCommand::ReplaceChar(*c),
                    Command::Lowercase => EditCommand::LowercaseSelection,
                    Command::Uppercase => EditCommand::UppercaseSelection,
                    Command::Switchcase => if visual {
                        EditCommand::SwitchcaseSelection
                    } else {
                        EditCommand::SwitchcaseChar
                    },
                    Command::Yank => EditCommand::CopySelection,
                    Command::ChangeTextObject { text_object } => EditCommand::CutTextObject {
                        text_object: *text_object,
                    },
                    Command::YankTextObject { text_object } => EditCommand::CopyTextObject {
                        text_object: *text_object,
                    },
                    Command::DeleteTextObject { text_object } => EditCommand::CutTextObject {
                        text_object: *text_object,
                    },
                    Command::SwapCursorAndAnchor => EditCommand::SwapCursorAndAnchor,
                    _ => EditCommand::CutSelection { granularity: Granularity::CharWise },
                };
                vec![ReedlineOption::Edit(e)]
            },
        };
        proof {
            assert(options_of(r@) =~= command_options(
                *self,
                visual,
                previous_view(vi_state.previous),
            ));
        }
        r
    }

    /// What the command produces followed by `motion`. A character
    /// search given to an operator is remembered for `;` and `,`.
    pub fn to_reedline_with_motion(&self, motion: &Motion, vi_state: &mut Vi) -> (r: Option<
        Vec<ReedlineOption>,
    >)
        ensures
            match command_motion_options(*self, *motion, old(vi_state).last_char_search) {
                Some(s) => r is Some && options_of(r->0@) == s,
                None => r is None,
            },
            final(vi_state).last_char_search == (if (*self == Command::Delete || *self
                == Command::Change || *self == Command::Yank) && is_char_search(*motion) {
                motion_target(*motion)
            } else {
                old(vi_state).last_char_search
            }),
            final(vi_state).mode == old(vi_state).mode,
            final(vi_state).previous == old(vi_state).previous,
            final(vi_state).cache == old(vi_state).cache,
            final(vi_state).insert_keybindings == old(vi_state).insert_keybindings,
            final(vi_state).normal_keybindings == old(vi_state).normal_keybindings,
    {
        let op = *self;
        if !(op == Command::Delete || op == Command::Change || op == Command::Yank) {
            return None;
        }
        let yank = op == Command::Yank;
        let change = op == Command::Change;
        let edit: Option<EditCommand> = match motion {
            Motion::Line => Some(
                if yank {
                    EditCommand::Copy {
                        target: MotionTarget::LineEdge(Direction::Forward),
                        granularity: Granularity::LineWise,
                    }
                } else if change {
                    EditCommand::Change {
                        target: MotionTarget::LineEdge(Direction::Forward),
                        granularity: Granularity::LineWise,
                    }
                } else {
                    EditCommand::Cut {
                        target: MotionTarget::LineEdge(Direction::Forward),
                        granularity: Granularity::LineWise,
                    }
                },
            ),
            Motion::NonBlankStart => Some(
                if yank {
                    EditCommand::CopyFromLineNonBlankStart
                } else {
                    EditCommand::CutFromLineNonBlankStart
                },
            ),
            Motion::Left => Some(
                if yank {
                    EditCommand::CopyLeft
                } else {
                    EditCommand::Backspace
                },
            ),
            Motion::Right => Some(
                if yank {
                    EditCommand::CopyRight
                } else {
                    EditCommand::Delete
                },
            ),
            Motion::Down | Motion::Up | Motion::FirstLine | Motion::LastLine => {
                match motion.target() {
                    Some(target) => Some(
                        if yank {
                            EditCommand::Copy { target, granularity: Granularity::LineWise }
                        } else if change {
                            EditCommand::Change { target, granularity: Granularity::LineWise }
                        } else {
                            EditCommand::Cut { target, granularity: Granularity::LineWise }
                        },
                    ),
                    None => None,
                }
            },
            Motion::ReplayCharSearch | Motion::ReverseCharSearch => match vi_state.last_char_search {
                Some(t) => {
                    let target = if matches!(motion, Motion::ReverseCharSearch) {
                        t.reversed()
                    } else {
                        t
                    };
                    Some(
                        if yank {
                            EditCommand::Copy { target, granularity: Granularity::CharWise }
                        } else {
                            EditCommand::Cut { target, granularity: Granularity::CharWise }
                        },
                    )
                },
                None => None,
            },
            _ => {
                let target = if change && matches!(motion, Motion::NextWord) {
                    Motion::NextWordEnd.target()
                } else if change && matches!(motion, Motion::NextBigWord) {
                    Motion::NextBigWordEnd.target()
                } else {
                    motion.target()
                };
                match target {
                    Some(target) => {
                        if matches!(
                            motion,
                            Motion::RightUntil(_) | Motion::RightBefore(_) | Motion::LeftUntil(_)
                                | Motion::LeftBefore(_)
                        ) {
                            vi_state.last_char_search = Some(target);
                        }
                        Some(
                            if yank {
                                EditCommand::Copy { target, granularity: Granularity::CharWise }
                            } else {
                                EditCommand::Cut { target, granularity: Granularity::CharWise }
                            },
                        )
                    },
                    None => None,
                }
            },
        };
        match edit {
            Some(e) => {
                let mut v = vec![ReedlineOption::Edit(e)];
                if change {
                    // The repaint shows the switch to insert mode.
                    v.push(ReedlineOption::Event(ReedlineEvent::Repaint));
                }
                proof {
                    let s = command_motion_options(op, *motion, old(vi_state).last_char_search)->0;
                    assert(options_of(v@) =~= s);
                }
                Some(v)
            },
            None => None,
        }
    }
}

} // verus!
