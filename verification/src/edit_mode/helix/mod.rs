//! The Helix/Kakoune-style edit mode: selection first, with motions
//! lowered onto the editor's motion-target vocabulary.
//!
//! Normal and select mode keys go through a small machine: a count
//! prefix, prefix keys waiting for an argument (`f`, `r`, `g`), and a key
//! table that turns a complete sequence into an action.
pub mod action;
pub mod event;
pub mod helix_keybindings;
pub mod key;
pub mod mode;
pub mod range;

use vstd::prelude::*;

use self::helix_keybindings::{default_helix_insert_keybindings, default_helix_normal_keybindings};
use crate::edit_mode::keybindings::Keybindings;
use crate::edit_mode::{
    inserts_text, non_key_event, normalized_newlines, parse_non_key_event, plain_char, text_char,
    EditMode,
};
use crate::enums::{
    events_view, lemma_events_view_len, lemma_events_view_push, multiple2, until_found2, Direction,
    EditCommand, EventStatus, EventView, FindStop, Granularity, MotionTarget, PromptEditMode,
    PromptHelixMode, ReedlineEvent, WordEdge, WordKind,
};
use crate::keys::{InputEvent, KeyCode, KeyCombination, KeyModifiers};

verus! {

/// The Helix modes.
#[derive(Clone, Copy, Debug, PartialEq, Eq, Structural)]
pub enum HelixMode {
    Normal,
    Insert,
    Select,
}

/// A prefix key waiting for its argument.
#[derive(Clone, Copy, Debug, PartialEq, Eq, Structural)]
pub enum Pending {
    /// `f`/`F`/`t`/`T` wait for the character to find.
    Find { direction: Direction, stop: FindStop },
    /// `r` waits for the replacement character.
    Replace,
    /// `g` waits for the goto target (`h`/`l`/`g`/`e`/`s`).
    Goto,
}

/// What a key does to the machine.
#[derive(Clone, Copy, Debug, PartialEq, Eq, Structural)]
pub enum Outcome {
    /// Wait for the prefix's argument.
    Absorb(Pending),
    /// Run the action of a complete sequence.
    Execute(Action),
    /// Drop a mistyped sequence.
    Reject,
}

/// What an action does.
#[derive(Clone, Copy, Debug, PartialEq, Eq, Structural)]
pub enum Verb {
    SelectingMotion(MotionTarget),
    CollapsingMotion(MotionTarget),
    Collapse(Direction),
    Deselect,
    OnSelection(Op),
    Submit,
    ChangeMode,
    Undo,
    Redo,
    Paste(Direction),
    /// Open a blank line below (`Forward`, `o`) or above (`Backward`,
    /// `O`).
    OpenLine(Direction),
    /// `%`: the whole buffer.
    SelectAll,
    /// `x`: the line, growing by one line per press.
    SelectLine,
    /// `j`/`k`: a line, or history at the buffer's edge; the engine
    /// decides.
    LineOrHistory(Direction),
}

/// An operation on the selection.
#[derive(Clone, Copy, Debug, PartialEq, Eq, Structural)]
pub enum Op {
    Cut,
    Change,
    Yank,
    Replace(char),
    /// `~`, which keeps the selection.
    Switchcase,
    /// `` ` ``, which keeps the selection.
    Lowercase,
}

/// A complete command: how many times, what, and the mode to go to.
#[derive(Clone, Copy, Debug, PartialEq, Eq, Structural)]
pub struct Action {
    pub count: usize,
    pub verb: Verb,
    pub next_mode: Option<HelixMode>,
}

/// `n` copies of `x`.
pub open spec fn copies<A>(x: A, n: nat) -> Seq<A> {
    Seq::new(n, |i: int| x)
}

/// `n` copies of `cmd`.
fn repeat_command(cmd: EditCommand, n: usize) -> (r: Vec<EditCommand>)
    ensures
        r@ == copies(cmd, n as nat),
{
    let mut v: Vec<EditCommand> = Vec::new();
    let mut i: usize = 0;
    while i < n
        invariant
            i <= n,
            v@ == copies(cmd, i as nat),
        decreases n - i,
    {
        v.push(cmd.duplicate());
        proof {
            assert(v@ =~= copies(cmd, (i + 1) as nat));
        }
        i = i + 1;
    }
    v
}

impl Action {
    /// `cmd` once per count, for commands that re-read the cursor each
    /// time.
    pub fn repeated(self, cmd: EditCommand) -> (r: ReedlineEvent)
        ensures
            r@ == EventView::Edit(copies(cmd, self.count as nat)),
    {
        ReedlineEvent::Edit(repeat_command(cmd, self.count))
    }
}

/// An action to run.
pub open spec fn execute(count: usize, verb: Verb, next_mode: Option<HelixMode>) -> Outcome {
    Outcome::Execute(Action { count, verb, next_mode })
}

/// Shorthand for the outcome that runs an action.
pub fn exec(count: usize, verb: Verb, next_mode: Option<HelixMode>) -> (r: Outcome)
    ensures
        r == execute(count, verb, next_mode),
{
    Outcome::Execute(Action { count, verb, next_mode })
}

pub open spec fn word_verb(kind: WordKind, edge: WordEdge, direction: Direction) -> Verb {
    Verb::SelectingMotion(MotionTarget::Word { kind, edge, direction })
}

/// What a plain character does in normal or select mode, given the
/// count (1 when none was typed).
pub open spec fn char_outcome(mode: HelixMode, count: usize, ch: char) -> Outcome {
    if ch == 'f' {
        Outcome::Absorb(Pending::Find { direction: Direction::Forward, stop: FindStop::On })
    } else if ch == 'F' {
        Outcome::Absorb(Pending::Find { direction: Direction::Backward, stop: FindStop::On })
    } else if ch == 't' {
        Outcome::Absorb(Pending::Find { direction: Direction::Forward, stop: FindStop::Before })
    } else if ch == 'T' {
        Outcome::Absorb(Pending::Find { direction: Direction::Backward, stop: FindStop::Before })
    } else if ch == 'r' {
        Outcome::Absorb(Pending::Replace)
    } else if ch == 'w' {
        execute(count, word_verb(WordKind::Word, WordEdge::Start, Direction::Forward), None)
    } else if ch == 'b' {
        execute(count, word_verb(WordKind::Word, WordEdge::Start, Direction::Backward), None)
    } else if ch == 'e' {
        execute(count, word_verb(WordKind::Word, WordEdge::End, Direction::Forward), None)
    } else if ch == 'W' {
        execute(count, word_verb(WordKind::LongWord, WordEdge::Start, Direction::Forward), None)
    } else if ch == 'B' {
        execute(count, word_verb(WordKind::LongWord, WordEdge::Start, Direction::Backward), None)
    } else if ch == 'E' {
        execute(count, word_verb(WordKind::LongWord, WordEdge::End, Direction::Forward), None)
    } else if ch == 'l' {
        execute(count, Verb::CollapsingMotion(MotionTarget::Grapheme(Direction::Forward)), None)
    } else if ch == 'h' {
        execute(count, Verb::CollapsingMotion(MotionTarget::Grapheme(Direction::Backward)), None)
    } else if ch == 'j' {
        execute(count, Verb::LineOrHistory(Direction::Forward), None)
    } else if ch == 'k' {
        execute(count, Verb::LineOrHistory(Direction::Backward), None)
    } else if ch == 'x' {
        execute(count, Verb::SelectLine, None)
    } else if ch == '%' {
        execute(count, Verb::SelectAll, None)
    } else if ch == '~' {
        execute(count, Verb::OnSelection(Op::Switchcase), None)
    } else if ch == '`' {
        execute(count, Verb::OnSelection(Op::Lowercase), None)
    } else if ch == 'I' {
        execute(
            count,
            Verb::CollapsingMotion(MotionTarget::LineStartNonBlank),
            Some(HelixMode::Insert),
        )
    } else if ch == 'A' {
        execute(
            count,
            Verb::CollapsingMotion(MotionTarget::LineEdge(Direction::Forward)),
            Some(HelixMode::Insert),
        )
    } else if ch == 'v' {
        if mode == HelixMode::Normal {
            execute(count, Verb::ChangeMode, Some(HelixMode::Select))
        } else if mode == HelixMode::Select {
            execute(count, Verb::ChangeMode, Some(HelixMode::Normal))
        } else {
            Outcome::Reject
        }
    } else if ch == 'i' {
        execute(count, Verb::Collapse(Direction::Backward), Some(HelixMode::Insert))
    } else if ch == 'a' {
        execute(count, Verb::Collapse(Direction::Forward), Some(HelixMode::Insert))
    } else if ch == 'd' {
        execute(count, Verb::OnSelection(Op::Cut), Some(HelixMode::Normal))
    } else if ch == 'c' {
        execute(count, Verb::OnSelection(Op::Change), Some(HelixMode::Insert))
    } else if ch == 'y' {
        execute(count, Verb::OnSelection(Op::Yank), Some(HelixMode::Normal))
    } else if ch == 'o' {
        execute(count, Verb::OpenLine(Direction::Forward), Some(HelixMode::Insert))
    } else if ch == 'O' {
        execute(count, Verb::OpenLine(Direction::Backward), Some(HelixMode::Insert))
    } else if ch == 'u' {
        execute(count, Verb::Undo, None)
    } else if ch == 'U' {
        execute(count, Verb::Redo, None)
    } else if ch == 'p' {
        execute(count, Verb::Paste(Direction::Forward), Some(HelixMode::Normal))
    } else if ch == 'P' {
        execute(count, Verb::Paste(Direction::Backward), Some(HelixMode::Normal))
    } else {
        Outcome::Reject
    }
}

/// What a key does in normal or select mode with the count typed so far.
/// A counted `g` is rejected: `3gg` has no target yet.
pub open spec fn interpret_key(mode: HelixMode, count: Option<usize>, code: KeyCode, modifiers: KeyModifiers) -> Outcome {
    let n = match count {
        Some(c) => c,
        None => 1,
    };
    if code is Char && !plain_char(modifiers) {
        Outcome::Reject
    } else if code == KeyCode::Char('g') && count is None {
        Outcome::Absorb(Pending::Goto)
    } else {
        match code {
            KeyCode::Char(ch) => char_outcome(mode, n, ch),
            KeyCode::Enter => execute(n, Verb::Submit, Some(HelixMode::Insert)),
            KeyCode::Esc => if mode == HelixMode::Normal {
                execute(n, Verb::Deselect, None)
            } else if mode == HelixMode::Select {
                execute(n, Verb::ChangeMode, Some(HelixMode::Normal))
            } else {
                Outcome::Reject
            },
            _ => Outcome::Reject,
        }
    }
}

/// In normal and select mode, `A` and `I` collapse the selection and
/// enter insert mode at either end of the line, whatever count was typed:
/// `A` after moving to the line's end, `I` after moving to its first
/// non-blank character; `a` and `i` enter insert mode after and before
/// the selection without moving.
pub proof fn insert_at_line_keys(mode: HelixMode, count: Option<usize>, modifiers: KeyModifiers)
    requires
        mode != HelixMode::Insert,
        plain_char(modifiers),
    ensures
        ({
            let n = match count {
                Some(c) => c,
                None => 1,
            };
            &&& interpret_key(mode, count, KeyCode::Char('A'), modifiers) == Outcome::Execute(
                Action {
                    count: n,
                    verb: Verb::CollapsingMotion(MotionTarget::LineEdge(Direction::Forward)),
                    next_mode: Some(HelixMode::Insert),
                },
            )
            &&& interpret_key(mode, count, KeyCode::Char('I'), modifiers) == Outcome::Execute(
                Action {
                    count: n,
                    verb: Verb::CollapsingMotion(MotionTarget::LineStartNonBlank),
                    next_mode: Some(HelixMode::Insert),
                },
            )
            &&& interpret_key(mode, count, KeyCode::Char('a'), modifiers) == Outcome::Execute(
                Action {
                    count: n,
                    verb: Verb::Collapse(Direction::Forward),
                    next_mode: Some(HelixMode::Insert),
                },
            )
            &&& interpret_key(mode, count, KeyCode::Char('i'), modifiers) == Outcome::Execute(
                Action {
                    count: n,
                    verb: Verb::Collapse(Direction::Backward),
                    next_mode: Some(HelixMode::Insert),
                },
            )
        }),
{
}

/// The goto targets of `g`.
pub open spec fn goto_target(ch: char) -> Option<MotionTarget> {
    if ch == 'h' {
        Some(MotionTarget::LineEdge(Direction::Backward))
    } else if ch == 'l' {
        Some(MotionTarget::LineEdge(Direction::Forward))
    } else if ch == 'g' {
        Some(MotionTarget::BufferEdge(Direction::Backward))
    } else if ch == 'e' {
        Some(MotionTarget::BufferEdge(Direction::Forward))
    } else if ch == 's' {
        Some(MotionTarget::LineStartNonBlank)
    } else {
        None
    }
}

/// What the argument key of a pending prefix does: only a typed
/// character completes it.
pub open spec fn pending_outcome(pending: Pending, count: usize, code: KeyCode, modifiers: KeyModifiers) -> Outcome {
    if !(code is Char && text_char(modifiers)) {
        Outcome::Reject
    } else {
        let ch = code->Char_0;
        match pending {
            Pending::Find { direction, stop } => execute(
                count,
                Verb::SelectingMotion(MotionTarget::Find { ch, direction, stop }),
                None,
            ),
            Pending::Replace => execute(count, Verb::OnSelection(Op::Replace(ch)), None),
            Pending::Goto => match goto_target(ch) {
                Some(t) => execute(count, Verb::CollapsingMotion(t), None),
                None => Outcome::Reject,
            },
        }
    }
}

/// Completes a pending prefix with its argument key.
pub fn complete_pending(pending: Pending, count: usize, code: KeyCode, modifiers: KeyModifiers) -> (r: Outcome)
    ensures
        r == pending_outcome(pending, count, code, modifiers),
{
    let ch = match code {
        KeyCode::Char(ch) => {
            if !(modifiers.bits == 0 || modifiers.bits == 1 || modifiers.bits == 6
                || modifiers.bits == 7) {
                return Outcome::Reject;
            }
            ch
        },
        _ => {
            return Outcome::Reject;
        },
    };
    match pending {
        Pending::Find { direction, stop } => exec(
            count,
            Verb::SelectingMotion(MotionTarget::Find { ch, direction, stop }),
            None,
        ),
        Pending::Replace => exec(count, Verb::OnSelection(Op::Replace(ch)), None),
        Pending::Goto => {
            let target = if ch == 'h' {
                Some(MotionTarget::LineEdge(Direction::Backward))
            } else if ch == 'l' {
                Some(MotionTarget::LineEdge(Direction::Forward))
            } else if ch == 'g' {
                Some(MotionTarget::BufferEdge(Direction::Backward))
            } else if ch == 'e' {
                Some(MotionTarget::BufferEdge(Direction::Forward))
            } else if ch == 's' {
                Some(MotionTarget::LineStartNonBlank)
            } else {
                None
            };
            match target {
                Some(t) => exec(count, Verb::CollapsingMotion(t), None),
                None => Outcome::Reject,
            }
        },
    }
}

/// What a plain character does, as [`char_outcome`] states it.
fn char_key(mode: HelixMode, count: usize, ch: char) -> (r: Outcome)
    ensures
        r == char_outcome(mode, count, ch),
{
    if ch == 'f' {
        Outcome::Absorb(Pending::Find { direction: Direction::Forward, stop: FindStop::On })
    } else if ch == 'F' {
        Outcome::Absorb(Pending::Find { direction: Direction::Backward, stop: FindStop::On })
    } else if ch == 't' {
        Outcome::Absorb(Pending::Find { direction: Direction::Forward, stop: FindStop::Before })
    } else if ch == 'T' {
        Outcome::Absorb(Pending::Find { direction: Direction::Backward, stop: FindStop::Before })
    } else if ch == 'r' {
        Outcome::Absorb(Pending::Replace)
    } else if ch == 'w' || ch == 'b' || ch == 'e' || ch == 'W' || ch == 'B' || ch == 'E' {
        let kind = if ch == 'w' || ch == 'b' || ch == 'e' {
            WordKind::Word
        } else {
            WordKind::LongWord
        };
        let edge = if ch == 'e' || ch == 'E' {
            WordEdge::End
        } else {
            WordEdge::Start
        };
        let direction = if ch == 'b' || ch == 'B' {
            Direction::Backward
        } else {
            Direction::Forward
        };
        exec(count, Verb::SelectingMotion(MotionTarget::Word { kind, edge, direction }), None)
    } else if ch == 'l' {
        exec(count, Verb::CollapsingMotion(MotionTarget::Grapheme(Direction::Forward)), None)
    } else if ch == 'h' {
        exec(count, Verb::CollapsingMotion(MotionTarget::Grapheme(Direction::Backward)), None)
    } else if ch == 'j' {
        exec(count, Verb::LineOrHistory(Direction::Forward), None)
    } else if ch == 'k' {
        exec(count, Verb::LineOrHistory(Direction::Backward), None)
    } else if ch == 'x' {
        exec(count, Verb::SelectLine, None)
    } else if ch == '%' {
        exec(count, Verb::SelectAll, None)
    } else if ch == '~' {
        exec(count, Verb::OnSelection(Op::Switchcase), None)
    } else if ch == '`' {
        exec(count, Verb::OnSelection(Op::Lowercase), None)
    } else if ch == 'I' {
        // Insert at the line's first non-blank; the block cursor collapses
        // first, since insert mode rests between graphemes.
        exec(
            count,
            Verb::CollapsingMotion(MotionTarget::LineStartNonBlank),
            Some(HelixMode::Insert),
        )
    } else if ch == 'A' {
        exec(
            count,
            Verb::CollapsingMotion(MotionTarget::LineEdge(Direction::Forward)),
            Some(HelixMode::Insert),
        )
    } else if ch == 'v' {
        match mode {
            HelixMode::Normal => exec(count, Verb::ChangeMode, Some(HelixMode::Select)),
            HelixMode::Select => exec(count, Verb::ChangeMode, Some(HelixMode::Normal)),
            _ => Outcome::Reject,
        }
    } else if ch == 'i' {
        exec(count, Verb::Collapse(Direction::Backward), Some(HelixMode::Insert))
    } else if ch == 'a' {
        exec(count, Verb::Collapse(Direction::Forward), Some(HelixMode::Insert))
    } else if ch == 'd' {
        exec(count, Verb::OnSelection(Op::Cut), Some(HelixMode::Normal))
    } else if ch == 'c' {
        exec(count, Verb::OnSelection(Op::Change), Some(HelixMode::Insert))
    } else if ch == 'y' {
        exec(count, Verb::OnSelection(Op::Yank), Some(HelixMode::Normal))
    } else if ch == 'o' {
        exec(count, Verb::OpenLine(Direction::Forward), Some(HelixMode::Insert))
    } else if ch == 'O' {
        exec(count, Verb::OpenLine(Direction::Backward), Some(HelixMode::Insert))
    } else if ch == 'u' {
        exec(count, Verb::Undo, None)
    } else if ch == 'U' {
        exec(count, Verb::Redo, None)
    } else if ch == 'p' {
        exec(count, Verb::Paste(Direction::Forward), Some(HelixMode::Normal))
    } else if ch == 'P' {
        exec(count, Verb::Paste(Direction::Backward), Some(HelixMode::Normal))
    } else {
        Outcome::Reject
    }
}

/// Interprets a key in normal or select mode; `count` stays optional so
/// that a typed `1` differs from no count, which only `g` cares about.
pub fn interpret(mode: HelixMode, count: Option<usize>, code: KeyCode, modifiers: KeyModifiers) -> (r: Outcome)
    ensures
        r == interpret_key(mode, count, code, modifiers),
{
    // Alt-modified characters go to the keybinding table instead.
    if let KeyCode::Char(_) = code {
        if !(modifiers.bits == 0 || modifiers.bits == 1) {
            return Outcome::Reject;
        }
    }
    if code == KeyCode::Char('g') && count.is_none() {
        return Outcome::Absorb(Pending::Goto);
    }
    let n = match count {
        Some(c) => c,
        None => 1,
    };
    match code {
        KeyCode::Char(ch) => char_key(mode, n, ch),
        KeyCode::Enter => exec(n, Verb::Submit, Some(HelixMode::Insert)),
        // Esc drops the selection in normal mode and leaves select mode.
        KeyCode::Esc => match mode {
            HelixMode::Normal => exec(n, Verb::Deselect, None),
            HelixMode::Select => exec(n, Verb::ChangeMode, Some(HelixMode::Normal)),
            HelixMode::Insert => Outcome::Reject,
        },
        _ => Outcome::Reject,
    }
}

pub open spec fn at_least_one(n: usize) -> nat {
    if n == 0 {
        1
    } else {
        n as nat
    }
}

/// The event of one `j`/`k` step in `mode`.
pub open spec fn line_step(mode: HelixMode, direction: Direction) -> EventView {
    if mode == HelixMode::Select {
        EventView::Edit(
            seq![
                if direction == Direction::Forward {
                    EditCommand::MoveLineDown { select: true }
                } else {
                    EditCommand::MoveLineUp { select: true }
                },
            ],
        )
    } else if direction == Direction::Forward {
        EventView::UntilFound(seq![EventView::MenuDown, EventView::Down])
    } else {
        EventView::UntilFound(seq![EventView::MenuUp, EventView::Up])
    }
}

/// The event of an action's verb in `mode`, before the mode change.
pub open spec fn verb_event(action: Action, mode: HelixMode) -> EventView {
    let n = action.count as nat;
    match action.verb {
        Verb::SelectingMotion(t) => if mode == HelixMode::Normal {
            EventView::Edit(copies(EditCommand::Select(t), n))
        } else if mode == HelixMode::Select {
            EventView::Edit(copies(EditCommand::Extend(t), n))
        } else {
            EventView::Nothing
        },
        Verb::CollapsingMotion(t) => if mode == HelixMode::Normal {
            EventView::Edit(copies(EditCommand::Move(t), n))
        } else if mode == HelixMode::Select {
            EventView::Edit(copies(EditCommand::Extend(t), n))
        } else {
            EventView::Nothing
        },
        Verb::OnSelection(op) => EventView::Edit(
            seq![
                match op {
                    Op::Cut | Op::Change => EditCommand::CutSelection {
                        granularity: Granularity::CharWise,
                    },
                    Op::Yank => EditCommand::CopySelection,
                    Op::Replace(ch) => EditCommand::ReplaceChar(ch),
                    Op::Switchcase => EditCommand::SwitchcaseSelection,
                    Op::Lowercase => EditCommand::LowercaseSelection,
                },
            ],
        ),
        Verb::Collapse(dir) => EventView::Edit(seq![EditCommand::CollapseSelection(dir)]),
        Verb::OpenLine(dir) => EventView::Edit(
            seq![
                if dir == Direction::Forward {
                    EditCommand::InsertNewlineBelow
                } else {
                    EditCommand::InsertNewlineAbove
                },
            ] + copies(EditCommand::InsertNewlineAbove, (at_least_one(action.count) - 1) as nat),
        ),
        Verb::Undo => EventView::Edit(copies(EditCommand::Undo, n)),
        Verb::Redo => EventView::Edit(copies(EditCommand::Redo, n)),
        Verb::Paste(direction) => EventView::Edit(
            seq![EditCommand::PasteAtSelectionEdge { direction, count: action.count }],
        ),
        Verb::SelectAll => EventView::Edit(seq![EditCommand::SelectAll]),
        Verb::SelectLine => EventView::Edit(copies(EditCommand::SelectLine, n)),
        Verb::Deselect => EventView::Multiple(seq![EventView::Esc, EventView::Repaint]),
        Verb::ChangeMode => EventView::Nothing,
        Verb::LineOrHistory(direction) => EventView::Multiple(
            copies(line_step(mode, direction), at_least_one(action.count)),
        ),
        Verb::Submit => EventView::Multiple(
            seq![EventView::Edit(seq![EditCommand::CollapseSelection(Direction::Forward)]), EventView::Enter],
        ),
    }
}

/// The event an action lowers to in `mode`: a repaint follows whenever
/// the action changes the mode, except for submitting.
pub open spec fn lowered(action: Action, mode: HelixMode) -> EventView {
    if action.verb == Verb::Submit || action.next_mode is None {
        verb_event(action, mode)
    } else {
        EventView::Multiple(seq![verb_event(action, mode), EventView::Repaint])
    }
}

/// One `j`/`k` step in `mode`.
fn line_step_event(mode: HelixMode, direction: Direction) -> (r: ReedlineEvent)
    ensures
        r@ == line_step(mode, direction),
{
    if mode == HelixMode::Select {
        let cmd = match direction {
            Direction::Forward => EditCommand::MoveLineDown { select: true },
            Direction::Backward => EditCommand::MoveLineUp { select: true },
        };
        let v = vec![cmd];
        assert(v@ == seq![cmd]);
        ReedlineEvent::Edit(v)
    } else {
        match direction {
            Direction::Forward => until_found2(ReedlineEvent::MenuDown, ReedlineEvent::Down),
            Direction::Backward => until_found2(ReedlineEvent::MenuUp, ReedlineEvent::Up),
        }
    }
}

/// The single edit `cmd`.
fn edit1(cmd: EditCommand) -> (r: ReedlineEvent)
    ensures
        r@ == EventView::Edit(seq![cmd]),
{
    let v = vec![cmd];
    assert(v@ == seq![cmd]);
    ReedlineEvent::Edit(v)
}

/// Lowers an action onto editor events.
pub fn lower(action: Action, mode: HelixMode) -> (r: ReedlineEvent)
    ensures
        r@ == lowered(action, mode),
{
    let event = match action.verb {
        Verb::SelectingMotion(target) => match mode {
            HelixMode::Normal => action.repeated(EditCommand::Select(target)),
            HelixMode::Select => action.repeated(EditCommand::Extend(target)),
            HelixMode::Insert => ReedlineEvent::Nothing,
        },
        Verb::CollapsingMotion(target) => match mode {
            HelixMode::Normal => action.repeated(EditCommand::Move(target)),
            HelixMode::Select => action.repeated(EditCommand::Extend(target)),
            HelixMode::Insert => ReedlineEvent::Nothing,
        },
        // Helix has no linewise register: `d` and `c` cut exactly the
        // selection and differ only in the mode they go to.
        Verb::OnSelection(op) => edit1(
            match op {
                Op::Cut | Op::Change => EditCommand::CutSelection {
                    granularity: Granularity::CharWise,
                },
                Op::Yank => EditCommand::CopySelection,
                Op::Replace(ch) => EditCommand::ReplaceChar(ch),
                Op::Switchcase => EditCommand::SwitchcaseSelection,
                Op::Lowercase => EditCommand::LowercaseSelection,
            },
        ),
        Verb::Collapse(dir) => edit1(EditCommand::CollapseSelection(dir)),
        // Only the first open seeks; the others go above the blank line it
        // made.
        Verb::OpenLine(direction) => {
            let first = match direction {
                Direction::Forward => EditCommand::InsertNewlineBelow,
                Direction::Backward => EditCommand::InsertNewlineAbove,
            };
            let n: usize = if action.count == 0 {
                1
            } else {
                action.count
            };
            let rest = repeat_command(EditCommand::InsertNewlineAbove, n - 1);
            let mut cmds = vec![first];
            let mut i: usize = 0;
            while i < rest.len()
                invariant
                    i <= rest@.len(),
                    cmds@ == seq![first] + rest@.take(i as int),
                decreases rest.len() - i,
            {
                cmds.push(rest[i].duplicate());
                proof {
                    assert(rest@.take(i + 1) == rest@.take(i as int).push(rest@[i as int]));
                }
                i = i + 1;
            }
            proof {
                assert(rest@.take(rest@.len() as int) == rest@);
            }
            ReedlineEvent::Edit(cmds)
        },
        Verb::Undo => action.repeated(EditCommand::Undo),
        Verb::Redo => action.repeated(EditCommand::Redo),
        Verb::Paste(direction) => edit1(
            EditCommand::PasteAtSelectionEdge { direction, count: action.count },
        ),
        Verb::SelectAll => edit1(EditCommand::SelectAll),
        Verb::SelectLine => action.repeated(EditCommand::SelectLine),
        Verb::Deselect => multiple2(ReedlineEvent::Esc, ReedlineEvent::Repaint),
        Verb::ChangeMode => ReedlineEvent::Nothing,
        Verb::LineOrHistory(direction) => {
            let n: usize = if action.count == 0 {
                1
            } else {
                action.count
            };
            let ghost step = line_step(mode, direction);
            let mut events: Vec<ReedlineEvent> = Vec::new();
            let mut i: usize = 0;
            while i < n
                invariant
                    i <= n,
                    step == line_step(mode, direction),
                    events_view(events@) == copies(step, i as nat),
                decreases n - i,
            {
                let e = line_step_event(mode, direction);
                let ghost before = events@;
                events.push(e);
                proof {
                    lemma_events_view_push(before, e);
                    assert(copies(step, i as nat).push(step) =~= copies(step, (i + 1) as nat));
                }
                i = i + 1;
            }
            ReedlineEvent::Multiple(events)
        },
        // Collapse forward first, as `a` does, so the submitted line keeps
        // the grapheme under the block cursor.
        Verb::Submit => {
            return multiple2(
                edit1(EditCommand::CollapseSelection(Direction::Forward)),
                ReedlineEvent::Enter,
            );
        },
    };
    if action.next_mode.is_some() {
        multiple2(event, ReedlineEvent::Repaint)
    } else {
        event
    }
}

/// The Helix edit mode's state.
pub struct Helix {
    pub insert_keybindings: Keybindings,
    /// Shared by normal and select mode, and consulted before the key
    /// machine.
    pub normal_keybindings: Keybindings,
    pub mode: HelixMode,
    /// The count typed so far (`3w`).
    pub count: Option<usize>,
    /// A prefix waiting for its argument (`f`, `r`, `g`).
    pub pending: Option<Pending>,
}

/// The part of the Helix state that keys change.
pub struct HelixState {
    pub mode: HelixMode,
    pub count: Option<usize>,
    pub pending: Option<Pending>,
}

/// `x` capped at `usize::MAX`.
pub open spec fn saturate(x: int) -> usize {
    if x > usize::MAX {
        usize::MAX
    } else {
        x as usize
    }
}

/// The count after the digit `d`: saturating, then capped at
/// `u16::MAX` so that no keystroke repeats absurdly often.
pub open spec fn count_after_digit(count: Option<usize>, d: int) -> usize {
    let c = match count {
        Some(c) => c as int,
        None => 0,
    };
    let x = saturate(saturate(c * 10) + d);
    if x > 65535 {
        65535
    } else {
        x
    }
}

/// The state after an outcome runs, and its event.
pub open spec fn after_outcome(s: HelixState, o: Outcome) -> (HelixState, EventView) {
    match o {
        Outcome::Absorb(p) => (HelixState { pending: Some(p), ..s }, EventView::Nothing),
        Outcome::Execute(a) => (
            HelixState {
                count: None,
                mode: match a.next_mode {
                    Some(m) => m,
                    None => s.mode,
                },
                ..s
            },
            lowered(a, s.mode),
        ),
        Outcome::Reject => (HelixState { count: None, ..s }, EventView::Nothing),
    }
}

/// A key in normal or select mode: a pending prefix takes it first, then
/// a digit extends the count, then (with no count) the keybinding table,
/// and last the key machine. `Esc` always reaches the machine.
pub open spec fn dispatch_step(s: HelixState, normal: Map<KeyCombination, EventView>, code: KeyCode, modifiers: KeyModifiers) -> (HelixState, EventView) {
    let n = match s.count {
        Some(c) => c,
        None => 1,
    };
    match s.pending {
        Some(p) => after_outcome(
            HelixState { pending: None, ..s },
            pending_outcome(p, n, code, modifiers),
        ),
        None => {
            let key = KeyCombination { modifier: modifiers, key_code: code };
            if code is Char && '0' <= code->Char_0 <= '9' && modifiers.bits == 0 && (code->Char_0
                != '0' || s.count is Some) {
                (
                    HelixState {
                        count: Some(
                            count_after_digit(s.count, (code->Char_0 as u32) - ('0' as u32)),
                        ),
                        ..s
                    },
                    EventView::Nothing,
                )
            } else if s.count is None && code != KeyCode::Esc && normal.dom().contains(key) {
                (s, normal[key])
            } else {
                after_outcome(s, interpret_key(s.mode, s.count, code, modifiers))
            }
        },
    }
}

/// A key in insert mode: `Esc` leaves it; then the keybinding table;
/// then `Enter` submits and typed characters are inserted.
pub open spec fn insert_step(insert: Map<KeyCombination, EventView>, code: KeyCode, modifiers: KeyModifiers) -> (Option<HelixMode>, EventView) {
    let key = KeyCombination { modifier: modifiers, key_code: code };
    if code == KeyCode::Esc {
        (Some(HelixMode::Normal), EventView::Multiple(seq![EventView::Esc, EventView::Repaint]))
    } else if insert.dom().contains(key) {
        (None, insert[key])
    } else if code == KeyCode::Enter && modifiers.bits == 0 {
        (None, EventView::Enter)
    } else if code is Char && text_char(modifiers) {
        (None, EventView::Edit(seq![EditCommand::InsertChar(code->Char_0)]))
    } else {
        (None, EventView::Nothing)
    }
}

/// What parsing `event` does in Helix mode: `f` is the state after `o`,
/// and `r` the event.
pub open spec fn helix_parsed(o: Helix, f: Helix, event: InputEvent, r: ReedlineEvent) -> bool {
    &&& (f.wf())
    &&& (f.insert_keybindings == o.insert_keybindings)
    &&& (f.normal_keybindings == o.normal_keybindings)
    &&& (match event {
        InputEvent::Key { code, modifiers } => if o.mode == HelixMode::Insert {
            let (m, ev) = insert_step(o.insert_keybindings.combos(), code, modifiers);
            &&& r@ == ev
            &&& f.state() == HelixState {
                mode: match m {
                    Some(m) => m,
                    None => o.mode,
                },
                ..o.state()
            }
        } else {
            (f.state(), r@) == dispatch_step(
                o.state(),
                o.normal_keybindings.combos(),
                code,
                modifiers,
            )
        },
        InputEvent::Paste(body) => f.state() == o.state() && inserts_text(
            r,
            normalized_newlines(body@),
        ),
        _ => f.state() == o.state() && r@ == non_key_event(event)
    })
}

impl Helix {
    pub open spec fn state(&self) -> HelixState {
        HelixState { mode: self.mode, count: self.count, pending: self.pending }
    }

    pub open spec fn wf(&self) -> bool {
        self.insert_keybindings.wf() && self.normal_keybindings.wf()
    }

    /// Replaces the insert-mode table. The table is consulted before the
    /// key machine, so layer onto the defaults rather than starting
    /// empty.
    pub fn with_insert_keybindings(self, keybindings: Keybindings) -> (r: Self)
        ensures
            r.insert_keybindings == keybindings,
            r.normal_keybindings == self.normal_keybindings,
            r.state() == self.state(),
    {
        Helix { insert_keybindings: keybindings, ..self }
    }

    /// Replaces the table shared by normal and select mode; a binding
    /// there shadows the built-in key of the same name.
    pub fn with_normal_keybindings(self, keybindings: Keybindings) -> (r: Self)
        ensures
            r.normal_keybindings == keybindings,
            r.insert_keybindings == self.insert_keybindings,
            r.state() == self.state(),
    {
        Helix { normal_keybindings: keybindings, ..self }
    }

    /// A key in normal or select mode.
    pub fn dispatch(&mut self, code: KeyCode, modifiers: KeyModifiers) -> (r: ReedlineEvent)
        requires
            old(self).wf(),
        ensures
            final(self).wf(),
            final(self).insert_keybindings == old(self).insert_keybindings,
            final(self).normal_keybindings == old(self).normal_keybindings,
            (final(self).state(), r@) == dispatch_step(
                old(self).state(),
                old(self).normal_keybindings.combos(),
                code,
                modifiers,
            ),
    {
        let n: usize = match self.count {
            Some(c) => c,
            None => 1,
        };
        let outcome = match self.pending {
            Some(pending) => {
                self.pending = None;
                complete_pending(pending, n, code, modifiers)
            },
            None => {
                if let KeyCode::Char(c) = code {
                    if '0' <= c && c <= '9' && modifiers.bits == 0 && (c != '0'
                        || self.count.is_some()) {
                        let d: usize = ((c as u32) - ('0' as u32)) as usize;
                        let base: usize = match self.count {
                            Some(v) => v,
                            None => 0,
                        };
                        let tens: usize = match base.checked_mul(10) {
                            Some(v) => v,
                            None => usize::MAX,
                        };
                        let x = tens.saturating_add(d);
                        self.count = Some(
                            if x > 65535 {
                                65535
                            } else {
                                x
                            },
                        );
                        return ReedlineEvent::Nothing;
                    }
                }
                if self.count.is_none() && code != KeyCode::Esc {
                    if let Some(event) = self.normal_keybindings.find_binding(modifiers, code) {
                        return event;
                    }
                }
                interpret(self.mode, self.count, code, modifiers)
            },
        };
        match outcome {
            Outcome::Absorb(pending) => {
                self.pending = Some(pending);
                ReedlineEvent::Nothing
            },
            Outcome::Execute(action) => {
                self.count = None;
                let event = lower(action, self.mode);
                if let Some(next_mode) = action.next_mode {
                    self.mode = next_mode;
                }
                event
            },
            Outcome::Reject => {
                self.count = None;
                ReedlineEvent::Nothing
            },
        }
    }

    /// A key in insert mode.
    pub fn dispatch_insert(&mut self, code: KeyCode, modifiers: KeyModifiers) -> (r: ReedlineEvent)
        requires
            old(self).wf(),
        ensures
            final(self).wf(),
            final(self).insert_keybindings == old(self).insert_keybindings,
            final(self).normal_keybindings == old(self).normal_keybindings,
            final(self).count == old(self).count,
            final(self).pending == old(self).pending,
            ({
                let (m, ev) = insert_step(old(self).insert_keybindings.combos(), code, modifiers);
                &&& r@ == ev
                &&& final(self).mode == match m {
                    Some(m) => m,
                    None => old(self).mode,
                }
            }),
    {
        // Esc comes first: it must always reach the mode change.
        if code == KeyCode::Esc {
            self.mode = HelixMode::Normal;
            return multiple2(ReedlineEvent::Esc, ReedlineEvent::Repaint);
        }
        if let Some(event) = self.insert_keybindings.find_binding(modifiers, code) {
            return event;
        }
        match code {
            KeyCode::Enter => if modifiers.bits == 0 {
                ReedlineEvent::Enter
            } else {
                ReedlineEvent::Nothing
            },
            KeyCode::Char(ch) => if modifiers.bits == 0 || modifiers.bits == 1 || modifiers.bits
                == 6 || modifiers.bits == 7 {
                edit1(EditCommand::InsertChar(ch))
            } else {
                ReedlineEvent::Nothing
            },
            _ => ReedlineEvent::Nothing,
        }
    }

    /// Turns one input event into editor events, as Helix does.
    pub fn parse_helix_event(&mut self, event: InputEvent) -> (r: ReedlineEvent)
        requires
            old(self).wf(),
        ensures
            helix_parsed(*old(self), *final(self), event, r),
    {
        match event {
            InputEvent::Key { code, modifiers } => match self.mode {
                HelixMode::Insert => self.dispatch_insert(code, modifiers),
                _ => self.dispatch(code, modifiers),
            },
            _ => parse_non_key_event(event),
        }
    }

    /// What the prompt shows for the present mode.
    pub fn prompt_mode(&self) -> (r: PromptEditMode)
        ensures
            r == PromptEditMode::Helix(
                match self.mode {
                    HelixMode::Insert => PromptHelixMode::Insert,
                    HelixMode::Normal => PromptHelixMode::Normal,
                    HelixMode::Select => PromptHelixMode::Select,
                },
            ),
    {
        match self.mode {
            HelixMode::Insert => PromptEditMode::Helix(PromptHelixMode::Insert),
            HelixMode::Normal => PromptEditMode::Helix(PromptHelixMode::Normal),
            HelixMode::Select => PromptEditMode::Helix(PromptHelixMode::Select),
        }
    }
}

impl Default for Helix {
    /// Helix with the default tables, starting in insert mode.
    fn default() -> (r: Self)
        ensures
            r.wf(),
            r.mode == HelixMode::Insert,
            r.count is None,
            r.pending is None,
    {
        Helix {
            insert_keybindings: default_helix_insert_keybindings(),
            normal_keybindings: default_helix_normal_keybindings(),
            mode: HelixMode::Insert,
            count: None,
            pending: None,
        }
    }
}

impl EditMode for Helix {
    open spec fn ready(&self) -> bool {
        self.wf()
    }

    open spec fn accepts(&self, event: InputEvent) -> bool {
        true
    }

    fn parse_event(&mut self, event: InputEvent) -> (r: ReedlineEvent)
        ensures
            helix_parsed(*old(self), *final(self), event, r),
    {
        self.parse_helix_event(event)
    }

    fn edit_mode(&self) -> (r: PromptEditMode)
        ensures
            r == PromptEditMode::Helix(
                match self.mode {
                    HelixMode::Insert => PromptHelixMode::Insert,
                    HelixMode::Normal => PromptHelixMode::Normal,
                    HelixMode::Select => PromptHelixMode::Select,
                },
            ),
    {
        self.prompt_mode()
    }
}

// ── Laws ──────────────────────────────────────────────────────────────
/// `Esc` always reaches the key machine, so no mode is a trap: outside
/// insert mode at most two presses reach normal mode with no count and
/// no prefix waiting (one when none was waiting), and in insert mode one
/// press leaves for normal mode.
pub proof fn esc_reaches_normal(
    s: HelixState,
    normal: Map<KeyCombination, EventView>,
    insert: Map<KeyCombination, EventView>,
    modifiers: KeyModifiers,
)
    requires
        s.mode != HelixMode::Insert,
    ensures
        ({
            let none = KeyModifiers { bits: 0 };
            let s1 = dispatch_step(s, normal, KeyCode::Esc, none).0;
            let s2 = dispatch_step(s1, normal, KeyCode::Esc, none).0;
            &&& s1.mode != HelixMode::Insert
            &&& s.pending is None ==> s1 == HelixState {
                mode: HelixMode::Normal,
                count: None,
                pending: None,
            }
            &&& s2 == HelixState { mode: HelixMode::Normal, count: None, pending: None }
        }),
        insert_step(insert, KeyCode::Esc, modifiers).0 == Some(HelixMode::Normal),
{
}

/// The count never grows past `u16::MAX`: every consumer repeats its work
/// once per count.
pub proof fn count_stays_bounded(
    s: HelixState,
    normal: Map<KeyCombination, EventView>,
    code: KeyCode,
    modifiers: KeyModifiers,
)
    requires
        s.count matches Some(c) ==> c <= 65535,
    ensures
        dispatch_step(s, normal, code, modifiers).0.count matches Some(c) ==> c <= 65535,
{
}

/// A waiting prefix (`f`, `t`, `r`, `g`) takes exactly the next key:
/// whatever it is, nothing waits after it.
pub proof fn prefix_takes_one_key(
    s: HelixState,
    normal: Map<KeyCombination, EventView>,
    code: KeyCode,
    modifiers: KeyModifiers,
)
    requires
        s.pending is Some,
    ensures
        dispatch_step(s, normal, code, modifiers).0.pending is None,
{
}

} // verus!
