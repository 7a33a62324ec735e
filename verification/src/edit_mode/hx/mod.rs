//! The older Helix mode: a key machine with a count prefix, prefix keys
//! waiting for an argument, and insert styles that keep the selection in
//! step with typing; also its key parser's commands and motions, and its
//! word motions.
pub mod command;
pub mod hx_keybindings;
pub mod motion;
pub mod word;

use vstd::prelude::*;

use crate::edit_mode::EditMode;
use crate::enums::{
    events_view, lemma_events_view_len, lemma_events_view_push, EditCommand, EventView, Granularity,
    Movement, PromptEditMode, PromptHelixMode, ReedlineEvent, WordMotionTarget,
};
use crate::keys::{InputEvent, KeyCode, KeyModifiers};

verus! {

/// The modes.
#[derive(Clone, Copy, Debug, PartialEq, Eq, Structural)]
pub enum HelixMode {
    /// Typing inserts text.
    Insert,
    /// Keys are motions and actions.
    Normal,
    /// Motions extend the selection.
    Select,
}

/// A prefix key waiting for its argument.
#[derive(Clone, Copy, Debug, PartialEq, Eq, Structural)]
pub enum Pending {
    /// Nothing is waiting.
    Idle,
    /// `g`, waiting for `g`, `h` or `l`.
    Goto,
    /// `f`, waiting for the character.
    FindForward,
    /// `t`, waiting for the character.
    TilForward,
    /// `F`, waiting for the character.
    FindBackward,
    /// `T`, waiting for the character.
    TilBackward,
    /// `r`, waiting for the replacement.
    Replace,
}

/// How typing in insert mode moves the selection.
#[derive(Clone, Copy, Debug, PartialEq, Eq, Structural)]
pub enum InsertStyle {
    /// No selection is tracked.
    Plain,
    /// Entered with `i`: text goes before the selection, which shifts.
    Before,
    /// Entered with `a`: text goes after the selection, which grows.
    After,
}

/// The mode's state.
pub struct Helix {
    pub mode: HelixMode,
    pub pending: Pending,
    /// The count typed so far; 0 when none.
    pub count: usize,
    pub insert_style: InsertStyle,
}

/// The state as a value.
pub struct HxState {
    pub mode: HelixMode,
    pub pending: Pending,
    pub count: usize,
    pub insert_style: InsertStyle,
}

/// `n` copies of `x`.
pub open spec fn copies<A>(x: A, n: nat) -> Seq<A> {
    Seq::new(n, |i: int| x)
}

/// A cursor motion in `mode`: normal mode collapses the selection at the
/// new position, select mode extends it.
pub open spec fn motion_wrap(mode: HelixMode, cmds: Seq<EditCommand>) -> EventView {
    if mode == HelixMode::Select {
        EventView::Edit(cmds.push(EditCommand::HxSyncCursor))
    } else {
        EventView::Edit(cmds.push(EditCommand::HxRestartSelection))
    }
}

/// An extending motion (`f`/`t`/`F`/`T`) in `mode`: normal mode restarts
/// the anchor at the old cursor, select mode extends.
pub open spec fn extending_wrap(mode: HelixMode, cmds: Seq<EditCommand>) -> EventView {
    if mode == HelixMode::Select {
        EventView::Edit(cmds.push(EditCommand::HxSyncCursor))
    } else {
        EventView::Edit(cmds.push(EditCommand::HxSyncCursorWithRestart))
    }
}

/// The count a counted command uses: at least 1, at most 100 000.
pub open spec fn clamped(count: usize) -> usize {
    if count < 1 {
        1
    } else if count > 100_000 {
        100_000
    } else {
        count
    }
}

/// `e` once, or `n` times in a `Multiple`.
pub open spec fn repeated_event(e: EventView, n: usize) -> EventView {
    if n <= 1 {
        e
    } else {
        EventView::Multiple(copies(e, n as nat))
    }
}

/// The word motion target of a word key.
pub open spec fn word_key_target(ch: char) -> Option<WordMotionTarget> {
    if ch == 'w' {
        Some(WordMotionTarget::NextWordStart)
    } else if ch == 'b' {
        Some(WordMotionTarget::PrevWordStart)
    } else if ch == 'e' {
        Some(WordMotionTarget::NextWordEnd)
    } else if ch == 'W' {
        Some(WordMotionTarget::NextLongWordStart)
    } else if ch == 'B' {
        Some(WordMotionTarget::PrevLongWordStart)
    } else if ch == 'E' {
        Some(WordMotionTarget::NextLongWordEnd)
    } else {
        None
    }
}

/// The counted motions: `h`/`l`/`j`/`k`, the word keys, `Home` and
/// `End`. Each consumes the count.
pub open spec fn motion_step(s: HxState, code: KeyCode) -> Option<(HxState, EventView)> {
    let n = clamped(s.count);
    let s0 = HxState { count: 0, ..s };
    match code {
        KeyCode::Char('h') => Some(
            (
                s0,
                if s.mode == HelixMode::Select {
                    repeated_event(
                        motion_wrap(s.mode, seq![EditCommand::MoveLeft { select: false }]),
                        n,
                    )
                } else {
                    EventView::Edit(
                        copies(EditCommand::MoveLeft { select: false }, n as nat).push(
                            EditCommand::HxRestartSelection,
                        ),
                    )
                },
            ),
        ),
        KeyCode::Char('l') => Some(
            (
                s0,
                repeated_event(
                    EventView::UntilFound(
                        seq![
                            EventView::HistoryHintComplete,
                            EventView::MenuRight,
                            motion_wrap(s.mode, seq![EditCommand::MoveRight { select: false }]),
                        ],
                    ),
                    n,
                ),
            ),
        ),
        KeyCode::Char('j') => Some(
            (
                s0,
                repeated_event(EventView::UntilFound(seq![EventView::MenuDown, EventView::Down]), n),
            ),
        ),
        KeyCode::Char('k') => Some(
            (s0, repeated_event(EventView::UntilFound(seq![EventView::MenuUp, EventView::Up]), n)),
        ),
        KeyCode::Char(ch) => match word_key_target(ch) {
            Some(target) => Some(
                (
                    s0,
                    EventView::Edit(
                        seq![
                            EditCommand::HxWordMotion {
                                target,
                                movement: if s.mode == HelixMode::Select {
                                    Movement::Extend
                                } else {
                                    Movement::Move
                                },
                                count: n,
                            },
                        ],
                    ),
                ),
            ),
            None => None,
        },
        KeyCode::Home => Some(
            (s0, motion_wrap(s.mode, seq![EditCommand::MoveToLineStart { select: false }])),
        ),
        KeyCode::End => Some(
            (s0, motion_wrap(s.mode, seq![EditCommand::MoveToLineEnd { select: false }])),
        ),
        _ => None,
    }
}

/// The six word keys are six different motions, each a single word
/// motion that uses up the count: upper case moves over long words and
/// lower case over small ones, `b`/`B` go back to a word start, `e`/`E`
/// forward to a word end and `w`/`W` forward to a word start; select mode
/// extends the selection and the other modes move it.
pub proof fn word_keys(s: HxState, ch: char)
    requires
        ch == 'w' || ch == 'b' || ch == 'e' || ch == 'W' || ch == 'B' || ch == 'E',
    ensures
        motion_step(s, KeyCode::Char(ch)) matches Some((f, EventView::Edit(cmds))) && f == (HxState {
            count: 0,
            ..s
        }) && cmds.len() == 1 && (cmds[0] matches EditCommand::HxWordMotion {
            target,
            movement,
            count,
        } && count == clamped(s.count) && (movement == Movement::Extend) == (s.mode
            == HelixMode::Select) && (movement == Movement::Move) == (s.mode != HelixMode::Select)
            && crate::edit_mode::hx::word::is_long_target(target) == (ch == 'W' || ch == 'B' || ch
            == 'E') && (target == WordMotionTarget::PrevWordStart || target
            == WordMotionTarget::PrevLongWordStart) == (ch == 'b' || ch == 'B') && (target
            == WordMotionTarget::NextWordEnd || target == WordMotionTarget::NextLongWordEnd) == (ch
            == 'e' || ch == 'E')),
{
}

/// Entering insert mode after `pre`, with a repaint.
pub open spec fn entered_insert(s: HxState, pre: EventView) -> (HxState, EventView) {
    (HxState { mode: HelixMode::Insert, ..s }, EventView::Multiple(seq![pre, EventView::Repaint]))
}

/// The commands on the selection, which take no count.
pub open spec fn non_counted_step(s: HxState, code: KeyCode, modifiers: KeyModifiers) -> (HxState, EventView) {
    let alt = modifiers.bits == 4;
    let edit = |v: Seq<EditCommand>| EventView::Edit(v);
    match code {
        KeyCode::Char('%') => (
            s,
            edit(
                seq![
                    EditCommand::MoveToStart { select: false },
                    EditCommand::HxRestartSelection,
                    EditCommand::MoveToEnd { select: false },
                    EditCommand::HxSyncCursor,
                ],
            ),
        ),
        KeyCode::Char('x') | KeyCode::Char('X') => (
            s,
            edit(
                seq![
                    EditCommand::MoveToLineStart { select: false },
                    EditCommand::HxRestartSelection,
                    EditCommand::MoveToLineEnd { select: false },
                    EditCommand::HxSyncCursor,
                ],
            ),
        ),
        KeyCode::Char('d') => (
            s,
            edit(
                seq![
                    EditCommand::HxEnsureSelection,
                    if alt {
                        EditCommand::HxDeleteSelection
                    } else {
                        EditCommand::CutSelection { granularity: Granularity::CharWise }
                    },
                    EditCommand::HxRestartSelection,
                ],
            ),
        ),
        KeyCode::Char('c') => entered_insert(
            s,
            edit(
                seq![
                    EditCommand::HxEnsureSelection,
                    if alt {
                        EditCommand::HxDeleteSelection
                    } else {
                        EditCommand::CutSelection { granularity: Granularity::CharWise }
                    },
                    EditCommand::HxClearSelection,
                ],
            ),
        ),
        KeyCode::Char('y') => (
            s,
            edit(seq![EditCommand::HxEnsureSelection, EditCommand::CopySelection]),
        ),
        KeyCode::Char('p') => (
            s,
            edit(
                seq![
                    EditCommand::HxEnsureSelection,
                    EditCommand::HxMoveToSelectionEnd,
                    EditCommand::HxClearSelection,
                    EditCommand::PasteCutBufferBefore,
                    EditCommand::HxRestartSelection,
                ],
            ),
        ),
        KeyCode::Char('P') => (
            s,
            edit(
                seq![
                    EditCommand::HxEnsureSelection,
                    EditCommand::HxMoveToSelectionStart,
                    EditCommand::HxClearSelection,
                    EditCommand::PasteCutBufferBefore,
                    EditCommand::HxRestartSelection,
                ],
            ),
        ),
        KeyCode::Char('R') => (
            s,
            edit(
                seq![
                    EditCommand::HxEnsureSelection,
                    EditCommand::HxDeleteSelection,
                    EditCommand::PasteCutBufferBefore,
                    EditCommand::HxRestartSelection,
                ],
            ),
        ),
        KeyCode::Char('u') => (s, edit(seq![EditCommand::Undo, EditCommand::HxRestartSelection])),
        KeyCode::Char('U') => (s, edit(seq![EditCommand::Redo, EditCommand::HxRestartSelection])),
        KeyCode::Char('~') => (
            s,
            edit(seq![EditCommand::HxEnsureSelection, EditCommand::HxSwitchCaseSelection]),
        ),
        KeyCode::Char('o') => (s, edit(seq![EditCommand::HxFlipSelection])),
        KeyCode::Enter => (s, EventView::Enter),
        _ => (s, EventView::Nothing),
    }
}

/// `g` followed by `code`: `gg`, `gh` and `gl`; the count is dropped.
pub open spec fn goto_step(s: HxState, code: KeyCode) -> (HxState, EventView) {
    let s0 = HxState { pending: Pending::Idle, count: 0, ..s };
    match code {
        KeyCode::Char('g') => (s0, motion_wrap(s.mode, seq![EditCommand::MoveToStart { select: false }])),
        KeyCode::Char('h') => (
            s0,
            motion_wrap(s.mode, seq![EditCommand::MoveToLineStart { select: false }]),
        ),
        KeyCode::Char('l') => (s0, motion_wrap(s.mode, seq![EditCommand::MoveToLineEnd { select: false }])),
        _ => (s0, EventView::Nothing),
    }
}

pub open spec fn is_find_pending(p: Pending) -> bool {
    p == Pending::FindForward || p == Pending::TilForward || p == Pending::FindBackward || p
        == Pending::TilBackward
}

/// The move a character search makes.
pub open spec fn find_command(p: Pending, c: char) -> EditCommand {
    if p == Pending::FindForward {
        EditCommand::MoveRightUntil { c, select: false }
    } else if p == Pending::TilForward {
        EditCommand::MoveRightBefore { c, select: false }
    } else if p == Pending::FindBackward {
        EditCommand::MoveLeftUntil { c, select: false }
    } else {
        EditCommand::MoveLeftBefore { c, select: false }
    }
}

/// A character search with its character: the first step starts from
/// the cursor, the repeats only extend.
pub open spec fn find_step(s: HxState, p: Pending, c: char) -> (HxState, EventView) {
    let n = clamped(s.count);
    let cmd = find_command(p, c);
    let first = extending_wrap(s.mode, seq![cmd]);
    (
        HxState { pending: Pending::Idle, count: 0, ..s },
        if n <= 1 {
            first
        } else {
            EventView::Multiple(
                seq![first] + copies(
                    EventView::Edit(seq![cmd, EditCommand::HxSyncCursor]),
                    (n - 1) as nat,
                ),
            )
        },
    )
}

/// The count after typing the digit `d`, saturating.
pub open spec fn count_after(count: usize, d: int) -> usize {
    let tens = if count * 10 > usize::MAX {
        usize::MAX as int
    } else {
        count * 10
    };
    if tens + d > usize::MAX {
        usize::MAX
    } else {
        (tens + d) as usize
    }
}

/// The prefix keys and what they wait for.
pub open spec fn prefix_of(ch: char) -> Option<Pending> {
    if ch == 'g' {
        Some(Pending::Goto)
    } else if ch == 'f' {
        Some(Pending::FindForward)
    } else if ch == 't' {
        Some(Pending::TilForward)
    } else if ch == 'F' {
        Some(Pending::FindBackward)
    } else if ch == 'T' {
        Some(Pending::TilBackward)
    } else if ch == 'r' {
        Some(Pending::Replace)
    } else {
        None
    }
}

/// A key in normal or select mode (other than `Ctrl-C`, `Ctrl-D` and
/// `Esc`).
pub open spec fn normal_select_step(s: HxState, code: KeyCode, modifiers: KeyModifiers) -> (HxState, EventView) {
    if s.pending == Pending::Goto {
        goto_step(s, code)
    } else if is_find_pending(s.pending) {
        match code {
            KeyCode::Char(c) => find_step(s, s.pending, c),
            _ => (HxState { pending: Pending::Idle, ..s }, EventView::Nothing),
        }
    } else if s.pending == Pending::Replace {
        match code {
            KeyCode::Char(c) => (
                HxState { pending: Pending::Idle, ..s },
                EventView::Edit(
                    seq![EditCommand::HxEnsureSelection, EditCommand::HxReplaceSelectionWithChar(c)],
                ),
            ),
            _ => (HxState { pending: Pending::Idle, ..s }, EventView::Nothing),
        }
    } else if code is Char && '1' <= code->Char_0 <= '9' {
        (
            HxState { count: count_after(s.count, (code->Char_0 as u32) - ('0' as u32)), ..s },
            EventView::Nothing,
        )
    } else if code == KeyCode::Char('0') && s.count > 0 {
        (HxState { count: count_after(s.count, 0), ..s }, EventView::Nothing)
    } else if code is Char && prefix_of(code->Char_0) is Some {
        (HxState { pending: prefix_of(code->Char_0)->0, ..s }, EventView::Nothing)
    } else if motion_step(s, code) is Some {
        motion_step(s, code)->0
    } else {
        let s0 = HxState { count: 0, ..s };
        match code {
            KeyCode::Char('i') => entered_insert(
                HxState { insert_style: InsertStyle::Before, ..s0 },
                EventView::Edit(
                    seq![EditCommand::HxEnsureSelection, EditCommand::HxMoveToSelectionStart],
                ),
            ),
            KeyCode::Char('a') => entered_insert(
                HxState { insert_style: InsertStyle::After, ..s0 },
                EventView::Edit(seq![EditCommand::HxEnsureSelection, EditCommand::HxMoveToSelectionEnd]),
            ),
            KeyCode::Char('I') => entered_insert(
                s0,
                EventView::Edit(
                    seq![EditCommand::HxClearSelection, EditCommand::MoveToLineStart { select: false }],
                ),
            ),
            KeyCode::Char('A') => entered_insert(
                s0,
                EventView::Edit(
                    seq![EditCommand::HxClearSelection, EditCommand::MoveToLineEnd { select: false }],
                ),
            ),
            KeyCode::Char('v') => if s.mode == HelixMode::Normal {
                (HxState { mode: HelixMode::Select, ..s0 }, EventView::Repaint)
            } else if s.mode == HelixMode::Select {
                (
                    HxState { mode: HelixMode::Normal, ..s0 },
                    EventView::Multiple(
                        seq![EventView::Edit(seq![EditCommand::HxRestartSelection]), EventView::Repaint],
                    ),
                )
            } else {
                (s0, EventView::Nothing)
            },
            KeyCode::Char(';') => (s0, EventView::Edit(seq![EditCommand::HxRestartSelection])),
            _ => non_counted_step(s0, code, modifiers),
        }
    }
}

/// An edit in insert mode, followed by what keeps the selection in step
/// with the insert style.
pub open spec fn styled(style: InsertStyle, cmd: EditCommand) -> EventView {
    match style {
        InsertStyle::Before => EventView::Edit(
            seq![cmd, EditCommand::HxShiftSelectionToInsertionPoint],
        ),
        InsertStyle::After => EventView::Edit(
            seq![cmd, EditCommand::HxExtendSelectionToInsertionPoint],
        ),
        InsertStyle::Plain => EventView::Edit(seq![cmd]),
    }
}

/// A key in insert mode (other than `Ctrl-C`).
pub open spec fn insert_key_step(s: HxState, code: KeyCode, modifiers: KeyModifiers) -> (HxState, EventView) {
    let plain = HxState { insert_style: InsertStyle::Plain, ..s };
    match code {
        KeyCode::Esc => (
            HxState { mode: HelixMode::Normal, insert_style: InsertStyle::Plain, ..s },
            EventView::Multiple(
                seq![
                    EventView::Esc,
                    EventView::Edit(seq![EditCommand::MoveLeft { select: false }]),
                    EventView::Edit(seq![EditCommand::HxRestartSelection]),
                    EventView::Repaint,
                ],
            ),
        ),
        KeyCode::Char(c) => if c == 'd' && modifiers.bits == 2 {
            (s, EventView::Edit(seq![EditCommand::Delete]))
        } else {
            (s, styled(s.insert_style, EditCommand::InsertChar(c)))
        },
        KeyCode::Enter => (s, EventView::Enter),
        KeyCode::Backspace => (s, styled(s.insert_style, EditCommand::Backspace)),
        KeyCode::Delete => (s, EventView::Edit(seq![EditCommand::Delete])),
        KeyCode::Left => (
            plain,
            EventView::Edit(seq![EditCommand::MoveLeft { select: false }, EditCommand::HxClearSelection]),
        ),
        KeyCode::Right => (
            plain,
            EventView::Edit(seq![EditCommand::MoveRight { select: false }, EditCommand::HxClearSelection]),
        ),
        KeyCode::Home => (
            plain,
            EventView::Edit(
                seq![EditCommand::MoveToLineStart { select: false }, EditCommand::HxClearSelection],
            ),
        ),
        KeyCode::End => (
            plain,
            EventView::Edit(
                seq![EditCommand::MoveToLineEnd { select: false }, EditCommand::HxClearSelection],
            ),
        ),
        KeyCode::Up => (s, EventView::Up),
        KeyCode::Down => (s, EventView::Down),
        _ => (s, EventView::Nothing),
    }
}

/// A key in any mode: `Ctrl-C` interrupts everywhere; `Ctrl-D` ends
/// input outside insert mode, and `Esc` there returns to normal mode,
/// dropping what is pending.
pub open spec fn hx_key_step(s: HxState, code: KeyCode, modifiers: KeyModifiers) -> (HxState, EventView) {
    if modifiers.bits == 2 && code == KeyCode::Char('c') {
        (s, EventView::CtrlC)
    } else if s.mode == HelixMode::Insert {
        insert_key_step(s, code, modifiers)
    } else if modifiers.bits == 2 && code == KeyCode::Char('d') {
        (s, EventView::CtrlD)
    } else if code == KeyCode::Esc {
        (
            HxState { mode: HelixMode::Normal, pending: Pending::Idle, count: 0, ..s },
            EventView::Multiple(
                seq![EventView::Esc, EventView::Edit(seq![EditCommand::HxRestartSelection]), EventView::Repaint],
            ),
        )
    } else {
        normal_select_step(s, code, modifiers)
    }
}

/// The commands x0, in order.
fn cmds1(x0: EditCommand) -> (r: Vec<EditCommand>)
    ensures
        r@ == seq![x0],
{
    let v = vec![x0];
    assert(v@ == seq![x0]);
    v
}

/// The commands x0, x1, in order.
fn cmds2(x0: EditCommand, x1: EditCommand) -> (r: Vec<EditCommand>)
    ensures
        r@ == seq![x0, x1],
{
    let v = vec![x0, x1];
    assert(v@ == seq![x0, x1]);
    v
}

/// The commands x0, x1, x2, in order.
fn cmds3(x0: EditCommand, x1: EditCommand, x2: EditCommand) -> (r: Vec<EditCommand>)
    ensures
        r@ == seq![x0, x1, x2],
{
    let v = vec![x0, x1, x2];
    assert(v@ == seq![x0, x1, x2]);
    v
}

/// The commands x0, x1, x2, x3, in order.
fn cmds4(x0: EditCommand, x1: EditCommand, x2: EditCommand, x3: EditCommand) -> (r: Vec<EditCommand>)
    ensures
        r@ == seq![x0, x1, x2, x3],
{
    let v = vec![x0, x1, x2, x3];
    assert(v@ == seq![x0, x1, x2, x3]);
    v
}

/// The commands x0, x1, x2, x3, x4, in order.
fn cmds5(x0: EditCommand, x1: EditCommand, x2: EditCommand, x3: EditCommand, x4: EditCommand) -> (r: Vec<EditCommand>)
    ensures
        r@ == seq![x0, x1, x2, x3, x4],
{
    let v = vec![x0, x1, x2, x3, x4];
    assert(v@ == seq![x0, x1, x2, x3, x4]);
    v
}

/// `v` as a vector.
fn edits(v: Vec<EditCommand>) -> (r: ReedlineEvent)
    ensures
        r@ == EventView::Edit(v@),
{
    ReedlineEvent::Edit(v)
}

/// `n` copies of `e`.
fn repeat_event(e: &ReedlineEvent, n: usize) -> (r: Vec<ReedlineEvent>)
    ensures
        events_view(r@) == copies(e@, n as nat),
{
    let mut v: Vec<ReedlineEvent> = Vec::new();
    let mut i: usize = 0;
    while i < n
        invariant
            i <= n,
            events_view(v@) == copies(e@, i as nat),
        decreases n - i,
    {
        let ghost before = v@;
        let x = e.duplicate();
        v.push(x);
        proof {
            lemma_events_view_push(before, x);
            assert(copies(e@, i as nat).push(e@) =~= copies(e@, (i + 1) as nat));
        }
        i = i + 1;
    }
    v
}

/// What parsing `event` does in this mode: `f` is the state after `o`,
/// and `r` the event.
pub open spec fn hx_parsed(o: Helix, f: Helix, event: InputEvent, r: ReedlineEvent) -> bool {
    &&& (match event {
        InputEvent::Key { code, modifiers } => (f.state(), r@) == hx_key_step(
            o.state(),
            code,
            modifiers,
        ),
        _ => f.state() == o.state() && r@ == EventView::Nothing
    })
}

impl Helix {
    pub open spec fn state(&self) -> HxState {
        HxState {
            mode: self.mode,
            pending: self.pending,
            count: self.count,
            insert_style: self.insert_style,
        }
    }

    /// Normal mode, nothing pending, no count.
    pub fn new() -> (r: Self)
        ensures
            r.state() == (HxState {
                mode: HelixMode::Normal,
                pending: Pending::Idle,
                count: 0,
                insert_style: InsertStyle::Plain,
            }),
    {
        Helix {
            mode: HelixMode::Normal,
            pending: Pending::Idle,
            count: 0,
            insert_style: InsertStyle::Plain,
        }
    }

    /// A motion that extends the selection: `cmds`, then the head follows
    /// the cursor.
    pub fn hx_extend(cmds: Vec<EditCommand>) -> (r: ReedlineEvent)
        ensures
            r@ == EventView::Edit(cmds@.push(EditCommand::HxSyncCursor)),
    {
        let mut cmds = cmds;
        cmds.push(EditCommand::HxSyncCursor);
        ReedlineEvent::Edit(cmds)
    }

    /// An extending motion in the present mode.
    pub fn extending_motion_event(&self, cmds: Vec<EditCommand>) -> (r: ReedlineEvent)
        ensures
            r@ == extending_wrap(self.mode, cmds@),
    {
        if self.mode == HelixMode::Select {
            return Self::hx_extend(cmds);
        }
        let mut v = cmds;
        v.push(EditCommand::HxSyncCursorWithRestart);
        ReedlineEvent::Edit(v)
    }

    /// A cursor motion in the present mode.
    pub fn motion_event(&self, cmds: Vec<EditCommand>) -> (r: ReedlineEvent)
        ensures
            r@ == motion_wrap(self.mode, cmds@),
    {
        if self.mode == HelixMode::Select {
            return Self::hx_extend(cmds);
        }
        let mut v = cmds;
        v.push(EditCommand::HxRestartSelection);
        ReedlineEvent::Edit(v)
    }

    /// Switches to insert mode after the event `pre`.
    pub fn enter_insert(&mut self, pre: ReedlineEvent) -> (r: ReedlineEvent)
        ensures
            (final(self).state(), r@) == entered_insert(old(self).state(), pre@),
    {
        self.mode = HelixMode::Insert;
        let ghost p = pre@;
        let events = vec![pre, ReedlineEvent::Repaint];
        proof {
            lemma_events_view_len(events@);
            assert(events_view(events@) =~= seq![p, EventView::Repaint]);
        }
        ReedlineEvent::Multiple(events)
    }

    /// Consumes the count: at least 1, at most 100 000.
    pub fn take_count(&mut self) -> (r: usize)
        ensures
            r == clamped(old(self).count),
            final(self).count == 0,
            final(self).mode == old(self).mode,
            final(self).pending == old(self).pending,
            final(self).insert_style == old(self).insert_style,
    {
        let c = if self.count < 1 {
            1
        } else if self.count > 100_000 {
            100_000
        } else {
            self.count
        };
        self.count = 0;
        c
    }

    /// A word motion; the editor handles the selection itself.
    pub fn word_motion_event(&self, target: WordMotionTarget, count: usize) -> (r: ReedlineEvent)
        ensures
            r@ == EventView::Edit(
                seq![
                    EditCommand::HxWordMotion {
                        target,
                        movement: if self.mode == HelixMode::Select {
                            Movement::Extend
                        } else {
                            Movement::Move
                        },
                        count,
                    },
                ],
            ),
    {
        let movement = if self.mode == HelixMode::Select {
            Movement::Extend
        } else {
            Movement::Move
        };
        edits(cmds1(EditCommand::HxWordMotion { target, movement, count }))
    }

    /// Resolves `g` with `code`.
    pub fn parse_goto(&mut self, code: KeyCode) -> (r: ReedlineEvent)
        ensures
            (final(self).state(), r@) == goto_step(old(self).state(), code),
    {
        self.pending = Pending::Idle;
        self.count = 0;
        match code {
            KeyCode::Char('g') => self.motion_event(cmds1(EditCommand::MoveToStart { select: false })),
            KeyCode::Char('h') => self.motion_event(
                cmds1(EditCommand::MoveToLineStart { select: false }),
            ),
            KeyCode::Char('l') => self.motion_event(cmds1(EditCommand::MoveToLineEnd { select: false })),
            _ => ReedlineEvent::Nothing,
        }
    }

    /// Resolves a character search with its character.
    pub fn parse_find_char(&mut self, pending: Pending, c: char) -> (r: ReedlineEvent)
        requires
            is_find_pending(pending),
        ensures
            (final(self).state(), r@) == find_step(old(self).state(), pending, c),
    {
        self.pending = Pending::Idle;
        let count = self.take_count();
        let cmd = match pending {
            Pending::FindForward => EditCommand::MoveRightUntil { c, select: false },
            Pending::TilForward => EditCommand::MoveRightBefore { c, select: false },
            Pending::FindBackward => EditCommand::MoveLeftUntil { c, select: false },
            _ => EditCommand::MoveLeftBefore { c, select: false },
        };
        if count <= 1 {
            self.extending_motion_event(cmds1(cmd))
        } else {
            let first = self.extending_motion_event(cmds1(cmd.duplicate()));
            let rest = Self::hx_extend(cmds1(cmd));
            proof {
                assert(seq![cmd].push(EditCommand::HxSyncCursor) =~= seq![
                    cmd,
                    EditCommand::HxSyncCursor,
                ]);
            }
            let tail = repeat_event(&rest, count - 1);
            let ghost (vf, vr) = (first@, rest@);
            let mut events = vec![first];
            let mut i: usize = 0;
            proof {
                lemma_events_view_len(events@);
                assert(events_view(events@) =~= seq![vf]);
            }
            while i < tail.len()
                invariant
                    i <= tail@.len(),
                    events_view(tail@) == copies(vr, (count - 1) as nat),
                    events_view(events@) == seq![vf] + events_view(tail@).take(i as int),
                decreases tail.len() - i,
            {
                let ghost before = events@;
                let x = tail[i].duplicate();
                events.push(x);
                proof {
                    lemma_events_view_push(before, x);
                    lemma_events_view_len(tail@);
                    assert(events_view(tail@).take(i + 1) == events_view(tail@).take(i as int).push(
                        events_view(tail@)[i as int],
                    ));
                }
                i = i + 1;
            }
            proof {
                lemma_events_view_len(tail@);
                assert(events_view(tail@).take(tail@.len() as int) == events_view(tail@));
                assert(events_view(events@) =~= seq![vf] + copies(
                    EventView::Edit(seq![cmd, EditCommand::HxSyncCursor]),
                    (count - 1) as nat,
                ));
            }
            ReedlineEvent::Multiple(events)
        }
    }

    /// Resolves `r` with the replacement character.
    pub fn parse_replace_char(&mut self, c: char) -> (r: ReedlineEvent)
        ensures
            final(self).state() == (HxState { pending: Pending::Idle, ..old(self).state() }),
            r@ == EventView::Edit(
                seq![EditCommand::HxEnsureSelection, EditCommand::HxReplaceSelectionWithChar(c)],
            ),
    {
        self.pending = Pending::Idle;
        edits(cmds2(EditCommand::HxEnsureSelection, EditCommand::HxReplaceSelectionWithChar(c)))
    }

    /// The counted motions; `None` for other keys, leaving the state as
    /// it is.
    pub fn parse_motion(&mut self, code: KeyCode) -> (r: Option<ReedlineEvent>)
        ensures
            match motion_step(old(self).state(), code) {
                Some((s, e)) => r is Some && r->0@ == e && final(self).state() == s,
                None => r is None && final(self).state() == old(self).state(),
            },
    {
        let target = match code {
            KeyCode::Char('w') => Some(WordMotionTarget::NextWordStart),
            KeyCode::Char('b') => Some(WordMotionTarget::PrevWordStart),
            KeyCode::Char('e') => Some(WordMotionTarget::NextWordEnd),
            KeyCode::Char('W') => Some(WordMotionTarget::NextLongWordStart),
            KeyCode::Char('B') => Some(WordMotionTarget::PrevLongWordStart),
            KeyCode::Char('E') => Some(WordMotionTarget::NextLongWordEnd),
            _ => None,
        };
        if let Some(t) = target {
            let count = self.take_count();
            return Some(self.word_motion_event(t, count));
        }
        let event = match code {
            KeyCode::Char('h') => {
                let count = self.take_count();
                if self.mode == HelixMode::Select {
                    let motion = Self::hx_extend(cmds1(EditCommand::MoveLeft { select: false }));
                    if count <= 1 {
                        motion
                    } else {
                        ReedlineEvent::Multiple(repeat_event(&motion, count))
                    }
                } else {
                    let mut cmds: Vec<EditCommand> = Vec::new();
                    let mut i: usize = 0;
                    while i < count
                        invariant
                            i <= count,
                            cmds@ == copies(EditCommand::MoveLeft { select: false }, i as nat),
                        decreases count - i,
                    {
                        cmds.push(EditCommand::MoveLeft { select: false });
                        proof {
                            assert(cmds@ =~= copies(
                                EditCommand::MoveLeft { select: false },
                                (i + 1) as nat,
                            ));
                        }
                        i = i + 1;
                    }
                    cmds.push(EditCommand::HxRestartSelection);
                    ReedlineEvent::Edit(cmds)
                }
            },
            KeyCode::Char('l') => {
                let count = self.take_count();
                let inner = self.motion_event(cmds1(EditCommand::MoveRight { select: false }));
                let ghost vi = inner@;
                let v = vec![ReedlineEvent::HistoryHintComplete, ReedlineEvent::MenuRight, inner];
                proof {
                    lemma_events_view_len(v@);
                    assert(events_view(v@) =~= seq![
                        EventView::HistoryHintComplete,
                        EventView::MenuRight,
                        vi,
                    ]);
                }
                let motion = ReedlineEvent::UntilFound(v);
                if count <= 1 {
                    motion
                } else {
                    ReedlineEvent::Multiple(repeat_event(&motion, count))
                }
            },
            KeyCode::Char('j') | KeyCode::Char('k') => {
                let count = self.take_count();
                let v = if code == KeyCode::Char('j') {
                    vec![ReedlineEvent::MenuDown, ReedlineEvent::Down]
                } else {
                    vec![ReedlineEvent::MenuUp, ReedlineEvent::Up]
                };
                proof {
                    lemma_events_view_len(v@);
                    if code == KeyCode::Char('j') {
                        assert(events_view(v@) =~= seq![EventView::MenuDown, EventView::Down]);
                    } else {
                        assert(events_view(v@) =~= seq![EventView::MenuUp, EventView::Up]);
                    }
                }
                let motion = ReedlineEvent::UntilFound(v);
                if count <= 1 {
                    motion
                } else {
                    ReedlineEvent::Multiple(repeat_event(&motion, count))
                }
            },
            KeyCode::Home => {
                self.count = 0;
                self.motion_event(cmds1(EditCommand::MoveToLineStart { select: false }))
            },
            KeyCode::End => {
                self.count = 0;
                self.motion_event(cmds1(EditCommand::MoveToLineEnd { select: false }))
            },
            _ => {
                return None;
            },
        };
        Some(event)
    }

    /// The commands on the selection, which take no count.
    pub fn parse_non_counted(&mut self, code: KeyCode, modifiers: KeyModifiers) -> (r: ReedlineEvent)
        ensures
            (final(self).state(), r@) == non_counted_step(old(self).state(), code, modifiers),
    {
        let alt = modifiers.bits == 4;
        let cut = if alt {
            EditCommand::HxDeleteSelection
        } else {
            EditCommand::CutSelection { granularity: Granularity::CharWise }
        };
        match code {
            KeyCode::Char('%') => edits(
                cmds4(EditCommand::MoveToStart { select: false }, EditCommand::HxRestartSelection, EditCommand::MoveToEnd { select: false }, EditCommand::HxSyncCursor),
            ),
            KeyCode::Char('x') | KeyCode::Char('X') => edits(
                cmds4(EditCommand::MoveToLineStart { select: false }, EditCommand::HxRestartSelection, EditCommand::MoveToLineEnd { select: false }, EditCommand::HxSyncCursor),
            ),
            KeyCode::Char('d') => edits(
                cmds3(EditCommand::HxEnsureSelection, cut, EditCommand::HxRestartSelection),
            ),
            KeyCode::Char('c') => {
                let pre = edits(
                    cmds3(EditCommand::HxEnsureSelection, cut, EditCommand::HxClearSelection),
                );
                self.enter_insert(pre)
            },
            KeyCode::Char('y') => edits(
                cmds2(EditCommand::HxEnsureSelection, EditCommand::CopySelection),
            ),
            KeyCode::Char('p') => edits(
                cmds5(EditCommand::HxEnsureSelection, EditCommand::HxMoveToSelectionEnd, EditCommand::HxClearSelection, EditCommand::PasteCutBufferBefore, EditCommand::HxRestartSelection),
            ),
            KeyCode::Char('P') => edits(
                cmds5(EditCommand::HxEnsureSelection, EditCommand::HxMoveToSelectionStart, EditCommand::HxClearSelection, EditCommand::PasteCutBufferBefore, EditCommand::HxRestartSelection),
            ),
            KeyCode::Char('R') => edits(
                cmds4(EditCommand::HxEnsureSelection, EditCommand::HxDeleteSelection, EditCommand::PasteCutBufferBefore, EditCommand::HxRestartSelection),
            ),
            KeyCode::Char('u') => edits(cmds2(EditCommand::Undo, EditCommand::HxRestartSelection)),
            KeyCode::Char('U') => edits(cmds2(EditCommand::Redo, EditCommand::HxRestartSelection)),
            KeyCode::Char('~') => edits(
                cmds2(EditCommand::HxEnsureSelection, EditCommand::HxSwitchCaseSelection),
            ),
            KeyCode::Char('o') => edits(cmds1(EditCommand::HxFlipSelection)),
            KeyCode::Enter => ReedlineEvent::Enter,
            _ => ReedlineEvent::Nothing,
        }
    }

    /// A key in normal or select mode (other than `Ctrl-C`, `Ctrl-D` and
    /// `Esc`).
    pub fn parse_normal_select(&mut self, code: KeyCode, modifiers: KeyModifiers) -> (r: ReedlineEvent)
        ensures
            (final(self).state(), r@) == normal_select_step(old(self).state(), code, modifiers),
    {
        match self.pending {
            Pending::Goto => {
                return self.parse_goto(code);
            },
            Pending::FindForward | Pending::TilForward | Pending::FindBackward
            | Pending::TilBackward => {
                let p = self.pending;
                if let KeyCode::Char(c) = code {
                    return self.parse_find_char(p, c);
                }
                self.pending = Pending::Idle;
                return ReedlineEvent::Nothing;
            },
            Pending::Replace => {
                if let KeyCode::Char(c) = code {
                    return self.parse_replace_char(c);
                }
                self.pending = Pending::Idle;
                return ReedlineEvent::Nothing;
            },
            Pending::Idle => {},
        }
        if let KeyCode::Char(c) = code {
            if '1' <= c && c <= '9' {
                let d: usize = ((c as u32) - ('0' as u32)) as usize;
                let tens: usize = match self.count.checked_mul(10) {
                    Some(v) => v,
                    None => usize::MAX,
                };
                self.count = tens.saturating_add(d);
                return ReedlineEvent::Nothing;
            }
            if c == '0' && self.count > 0 {
                self.count = match self.count.checked_mul(10) {
                    Some(v) => v,
                    None => usize::MAX,
                };
                return ReedlineEvent::Nothing;
            }
            let prefix = if c == 'g' {
                Some(Pending::Goto)
            } else if c == 'f' {
                Some(Pending::FindForward)
            } else if c == 't' {
                Some(Pending::TilForward)
            } else if c == 'F' {
                Some(Pending::FindBackward)
            } else if c == 'T' {
                Some(Pending::TilBackward)
            } else if c == 'r' {
                Some(Pending::Replace)
            } else {
                None
            };
            if let Some(p) = prefix {
                self.pending = p;
                return ReedlineEvent::Nothing;
            }
        }
        if let Some(event) = self.parse_motion(code) {
            return event;
        }
        // Everything below ignores the count; drop it so it does not leak.
        self.count = 0;
        match code {
            KeyCode::Char('i') => {
                self.insert_style = InsertStyle::Before;
                self.enter_insert(
                    edits(cmds2(EditCommand::HxEnsureSelection, EditCommand::HxMoveToSelectionStart)),
                )
            },
            KeyCode::Char('a') => {
                self.insert_style = InsertStyle::After;
                self.enter_insert(
                    edits(cmds2(EditCommand::HxEnsureSelection, EditCommand::HxMoveToSelectionEnd)),
                )
            },
            KeyCode::Char('I') => self.enter_insert(
                edits(
                    cmds2(EditCommand::HxClearSelection, EditCommand::MoveToLineStart { select: false }),
                ),
            ),
            KeyCode::Char('A') => self.enter_insert(
                edits(cmds2(EditCommand::HxClearSelection, EditCommand::MoveToLineEnd { select: false })),
            ),
            KeyCode::Char('v') => match self.mode {
                HelixMode::Normal => {
                    self.mode = HelixMode::Select;
                    ReedlineEvent::Repaint
                },
                HelixMode::Select => {
                    self.mode = HelixMode::Normal;
                    let a = edits(cmds1(EditCommand::HxRestartSelection));
                    let ghost va = a@;
                    let v = vec![a, ReedlineEvent::Repaint];
                    proof {
                        lemma_events_view_len(v@);
                        assert(events_view(v@) =~= seq![va, EventView::Repaint]);
                    }
                    ReedlineEvent::Multiple(v)
                },
                HelixMode::Insert => ReedlineEvent::Nothing,
            },
            KeyCode::Char(';') => edits(cmds1(EditCommand::HxRestartSelection)),
            _ => self.parse_non_counted(code, modifiers),
        }
    }

    /// A key in insert mode (other than `Ctrl-C`).
    fn parse_insert_key(&mut self, code: KeyCode, modifiers: KeyModifiers) -> (r: ReedlineEvent)
        ensures
            (final(self).state(), r@) == insert_key_step(old(self).state(), code, modifiers),
    {
        let style = self.insert_style;
        match code {
            KeyCode::Esc => {
                self.mode = HelixMode::Normal;
                self.insert_style = InsertStyle::Plain;
                // Step back so the block cursor lands on the last typed
                // character.
                let a = edits(cmds1(EditCommand::MoveLeft { select: false }));
                let b = edits(cmds1(EditCommand::HxRestartSelection));
                let ghost (va, vb) = (a@, b@);
                let v = vec![ReedlineEvent::Esc, a, b, ReedlineEvent::Repaint];
                proof {
                    lemma_events_view_len(v@);
                    assert(events_view(v@) =~= seq![EventView::Esc, va, vb, EventView::Repaint]);
                }
                ReedlineEvent::Multiple(v)
            },
            KeyCode::Char(c) => {
                if c == 'd' && modifiers.bits == 2 {
                    edits(cmds1(EditCommand::Delete))
                } else {
                    match style {
                        InsertStyle::Before => edits(
                            cmds2(EditCommand::InsertChar(c), EditCommand::HxShiftSelectionToInsertionPoint),
                        ),
                        InsertStyle::After => edits(
                            cmds2(EditCommand::InsertChar(c), EditCommand::HxExtendSelectionToInsertionPoint),
                        ),
                        InsertStyle::Plain => edits(cmds1(EditCommand::InsertChar(c))),
                    }
                }
            },
            KeyCode::Enter => ReedlineEvent::Enter,
            KeyCode::Backspace => match style {
                InsertStyle::Before => edits(
                    cmds2(EditCommand::Backspace, EditCommand::HxShiftSelectionToInsertionPoint),
                ),
                InsertStyle::After => edits(
                    cmds2(EditCommand::Backspace, EditCommand::HxExtendSelectionToInsertionPoint),
                ),
                InsertStyle::Plain => edits(cmds1(EditCommand::Backspace)),
            },
            KeyCode::Delete => edits(cmds1(EditCommand::Delete)),
            // Moving away from the insert position drops the tracked
            // selection.
            KeyCode::Left => {
                self.insert_style = InsertStyle::Plain;
                edits(cmds2(EditCommand::MoveLeft { select: false }, EditCommand::HxClearSelection))
            },
            KeyCode::Right => {
                self.insert_style = InsertStyle::Plain;
                edits(cmds2(EditCommand::MoveRight { select: false }, EditCommand::HxClearSelection))
            },
            KeyCode::Home => {
                self.insert_style = InsertStyle::Plain;
                edits(
                    cmds2(EditCommand::MoveToLineStart { select: false }, EditCommand::HxClearSelection),
                )
            },
            KeyCode::End => {
                self.insert_style = InsertStyle::Plain;
                edits(cmds2(EditCommand::MoveToLineEnd { select: false }, EditCommand::HxClearSelection))
            },
            KeyCode::Up => ReedlineEvent::Up,
            KeyCode::Down => ReedlineEvent::Down,
            _ => ReedlineEvent::Nothing,
        }
    }

    /// Turns one input event into editor events; only keys mean anything
    /// to this mode.
    pub fn parse_hx_event(&mut self, event: InputEvent) -> (r: ReedlineEvent)
        ensures
            hx_parsed(*old(self), *final(self), event, r),
    {
        let (code, modifiers) = match event {
            InputEvent::Key { code, modifiers } => (code, modifiers),
            _ => {
                return ReedlineEvent::Nothing;
            },
        };
        if modifiers.bits == 2 && code == KeyCode::Char('c') {
            return ReedlineEvent::CtrlC;
        }
        match self.mode {
            HelixMode::Insert => self.parse_insert_key(code, modifiers),
            HelixMode::Normal | HelixMode::Select => {
                if modifiers.bits == 2 && code == KeyCode::Char('d') {
                    return ReedlineEvent::CtrlD;
                }
                match code {
                    KeyCode::Esc => {
                        self.mode = HelixMode::Normal;
                        self.pending = Pending::Idle;
                        self.count = 0;
                        // Collapse the selection so a stale one does not
                        // persist.
                        let a = edits(cmds1(EditCommand::HxRestartSelection));
                        let ghost va = a@;
                        let v = vec![ReedlineEvent::Esc, a, ReedlineEvent::Repaint];
                        proof {
                            lemma_events_view_len(v@);
                            assert(events_view(v@) =~= seq![EventView::Esc, va, EventView::Repaint]);
                        }
                        ReedlineEvent::Multiple(v)
                    },
                    _ => self.parse_normal_select(code, modifiers),
                }
            },
        }
    }

    /// What the prompt shows for the present mode.
    pub fn prompt_mode(&self) -> (r: PromptEditMode)
        ensures
            r == PromptEditMode::Helix(
                match self.mode {
                    HelixMode::Insert => PromptHelixMode::Insert,
                    HelixMode::Normal => PromptHelixMode::Normal,
                    HelixMode::Select => PromptHelixMode::Select,
                },
            ),
    {
        match self.mode {
            HelixMode::Insert => PromptEditMode::Helix(PromptHelixMode::Insert),
            HelixMode::Normal => PromptEditMode::Helix(PromptHelixMode::Normal),
            HelixMode::Select => PromptEditMode::Helix(PromptHelixMode::Select),
        }
    }
}

impl Default for Helix {
    /// Normal mode, nothing pending, no count.
    fn default() -> (r: Self)
        ensures
            r.state() == (HxState {
                mode: HelixMode::Normal,
                pending: Pending::Idle,
                count: 0,
                insert_style: InsertStyle::Plain,
            }),
    {
        Helix::new()
    }
}

impl EditMode for Helix {
    open spec fn ready(&self) -> bool {
        true
    }

    open spec fn accepts(&self, event: InputEvent) -> bool {
        true
    }

    fn parse_event(&mut self, event: InputEvent) -> (r: ReedlineEvent)
        ensures
            hx_parsed(*old(self), *final(self), event, r),
    {
        self.parse_hx_event(event)
    }

    fn edit_mode(&self) -> (r: PromptEditMode)
        ensures
            r == PromptEditMode::Helix(
                match self.mode {
                    HelixMode::Insert => PromptHelixMode::Insert,
                    HelixMode::Normal => PromptHelixMode::Normal,
                    HelixMode::Select => PromptHelixMode::Select,
                },
            ),
    {
        self.prompt_mode()
    }
}

// ── Laws ──────────────────────────────────────────────────────────────
/// `Ctrl-C` is always an interrupt, in every mode and state, and changes
/// nothing.
pub proof fn ctrl_c_always_interrupts(s: HxState)
    ensures
        hx_key_step(s, KeyCode::Char('c'), KeyModifiers { bits: 2 }) == (s, EventView::CtrlC),
{
}

/// `Esc` leaves for normal mode from every mode, whatever the modifiers.
pub proof fn esc_leaves_for_normal(s: HxState, modifiers: KeyModifiers)
    ensures
        hx_key_step(s, KeyCode::Esc, modifiers).0.mode == HelixMode::Normal,
{
}

/// `Ctrl-D` ends input in normal and select mode and deletes forward in
/// insert mode; either way the state stays.
pub proof fn ctrl_d_ends_input_outside_insert(s: HxState)
    ensures
        ({
            let (t, ev) = hx_key_step(s, KeyCode::Char('d'), KeyModifiers { bits: 2 });
            &&& t == s
            &&& ev == (if s.mode == HelixMode::Insert {
                EventView::Edit(seq![EditCommand::Delete])
            } else {
                EventView::CtrlD
            })
        }),
{
}

} // verus!
