//! The vocabulary shared by every edit mode: editing commands, motion
//! targets and the events handed to the engine.
use vstd::prelude::*;

verus! {

/// Which way a motion, a selection or a search runs.
#[derive(Clone, Copy, Debug, PartialEq, Eq, Hash, Structural)]
pub enum Direction {
    Forward,
    Backward,
}

impl Direction {
    /// The opposite direction.
    pub fn reversed(self) -> (r: Direction)
        ensures
            r == reverse_direction(self),
    {
        match self {
            Direction::Forward => Direction::Backward,
            Direction::Backward => Direction::Forward,
        }
    }
}

pub open spec fn reverse_direction(d: Direction) -> Direction {
    match d {
        Direction::Forward => Direction::Backward,
        Direction::Backward => Direction::Forward,
    }
}

/// Small words break at every character-class change, long words only at
/// whitespace.
#[derive(Clone, Copy, Debug, PartialEq, Eq, Hash, Structural)]
pub enum WordKind {
    Word,
    LongWord,
}

/// Which edge of a word a motion lands on.
#[derive(Clone, Copy, Debug, PartialEq, Eq, Hash, Structural)]
pub enum WordEdge {
    Start,
    End,
}

/// Whether a character search stops on the character or just before it.
#[derive(Clone, Copy, Debug, PartialEq, Eq, Hash, Structural)]
pub enum FindStop {
    On,
    Before,
}

/// Whether an operator works on characters or on whole lines.
#[derive(Clone, Copy, Debug, PartialEq, Eq, Hash, Structural)]
pub enum Granularity {
    CharWise,
    LineWise,
}

/// A position in the buffer that a motion resolves to.
#[derive(Clone, Copy, Debug, PartialEq, Eq, Hash, Structural)]
pub enum MotionTarget {
    Grapheme(Direction),
    Word { kind: WordKind, edge: WordEdge, direction: Direction },
    LineEdge(Direction),
    LineStartNonBlank,
    Line(Direction),
    BufferEdge(Direction),
    Find { ch: char, direction: Direction, stop: FindStop },
}

impl MotionTarget {
    /// The same target looked for in the opposite direction (`,` after
    /// `f`/`t`/`F`/`T`).
    pub fn reversed(self) -> (r: MotionTarget)
        ensures
            r == reverse_target(self),
    {
        match self {
            MotionTarget::Grapheme(d) => MotionTarget::Grapheme(d.reversed()),
            MotionTarget::Word { kind, edge, direction } => MotionTarget::Word {
                kind,
                edge,
                direction: direction.reversed(),
            },
            MotionTarget::LineEdge(d) => MotionTarget::LineEdge(d.reversed()),
            MotionTarget::LineStartNonBlank => MotionTarget::LineStartNonBlank,
            MotionTarget::Line(d) => MotionTarget::Line(d.reversed()),
            MotionTarget::BufferEdge(d) => MotionTarget::BufferEdge(d.reversed()),
            MotionTarget::Find { ch, direction, stop } => MotionTarget::Find {
                ch,
                direction: direction.reversed(),
                stop,
            },
        }
    }
}

pub open spec fn reverse_target(t: MotionTarget) -> MotionTarget {
    match t {
        MotionTarget::Grapheme(d) => MotionTarget::Grapheme(reverse_direction(d)),
        MotionTarget::Word { kind, edge, direction } => MotionTarget::Word {
            kind,
            edge,
            direction: reverse_direction(direction),
        },
        MotionTarget::LineEdge(d) => MotionTarget::LineEdge(reverse_direction(d)),
        MotionTarget::LineStartNonBlank => MotionTarget::LineStartNonBlank,
        MotionTarget::Line(d) => MotionTarget::Line(reverse_direction(d)),
        MotionTarget::BufferEdge(d) => MotionTarget::BufferEdge(reverse_direction(d)),
        MotionTarget::Find { ch, direction, stop } => MotionTarget::Find {
            ch,
            direction: reverse_direction(direction),
            stop,
        },
    }
}

/// Helix word motion targets.
#[derive(Clone, Copy, Debug, PartialEq, Eq, Hash, Structural)]
pub enum WordMotionTarget {
    NextWordStart,
    NextWordEnd,
    PrevWordStart,
    NextLongWordStart,
    NextLongWordEnd,
    PrevLongWordStart,
}

/// Whether a Helix motion restarts the selection or extends it.
#[derive(Clone, Copy, Debug, PartialEq, Eq, Hash, Structural)]
pub enum Movement {
    Move,
    Extend,
}

/// Whether a text object includes its delimiters.
#[derive(Clone, Copy, Debug, PartialEq, Eq, Hash, Structural)]
pub enum TextObjectScope {
    Inner,
    Around,
}

/// Bracket kinds of a text object.
#[derive(Clone, Copy, Debug, PartialEq, Eq, Hash, Structural)]
pub enum TextObjectBracket {
    All,
    Parenthesis,
    Square,
    Curly,
    Angle,
}

/// Quote kinds of a text object.
#[derive(Clone, Copy, Debug, PartialEq, Eq, Hash, Structural)]
pub enum TextObjectQuote {
    All,
    Double,
    Single,
    Backtick,
}

/// What a text object spans.
#[derive(Clone, Copy, Debug, PartialEq, Eq, Hash, Structural)]
pub enum TextObjectType {
    Word,
    BigWord,
    Brackets(TextObjectBracket),
    Quotes(TextObjectQuote),
}

pub open spec fn text_object_type_of(c: char) -> Option<TextObjectType> {
    if c == 'w' {
        Some(TextObjectType::Word)
    } else if c == 'W' {
        Some(TextObjectType::BigWord)
    } else if c == '(' || c == ')' {
        Some(TextObjectType::Brackets(TextObjectBracket::Parenthesis))
    } else if c == '[' || c == ']' {
        Some(TextObjectType::Brackets(TextObjectBracket::Square))
    } else if c == '{' || c == '}' {
        Some(TextObjectType::Brackets(TextObjectBracket::Curly))
    } else if c == '<' || c == '>' {
        Some(TextObjectType::Brackets(TextObjectBracket::Angle))
    } else if c == '"' {
        Some(TextObjectType::Quotes(TextObjectQuote::Double))
    } else if c == '\'' {
        Some(TextObjectType::Quotes(TextObjectQuote::Single))
    } else if c == '`' {
        Some(TextObjectType::Quotes(TextObjectQuote::Backtick))
    } else {
        None
    }
}

impl TextObjectType {
    /// The text object named by the character after `i`/`a`.
    pub fn from_char(c: char) -> (r: Option<TextObjectType>)
        ensures
            r == text_object_type_of(c),
    {
        if c == 'w' {
            Some(TextObjectType::Word)
        } else if c == 'W' {
            Some(TextObjectType::BigWord)
        } else if c == '(' || c == ')' {
            Some(TextObjectType::Brackets(TextObjectBracket::Parenthesis))
        } else if c == '[' || c == ']' {
            Some(TextObjectType::Brackets(TextObjectBracket::Square))
        } else if c == '{' || c == '}' {
            Some(TextObjectType::Brackets(TextObjectBracket::Curly))
        } else if c == '<' || c == '>' {
            Some(TextObjectType::Brackets(TextObjectBracket::Angle))
        } else if c == '"' {
            Some(TextObjectType::Quotes(TextObjectQuote::Double))
        } else if c == '\'' {
            Some(TextObjectType::Quotes(TextObjectQuote::Single))
        } else if c == '`' {
            Some(TextObjectType::Quotes(TextObjectQuote::Backtick))
        } else {
            None
        }
    }
}

/// A text object: `iw`, `a(`, `i"` and the like.
#[derive(Clone, Copy, Debug, PartialEq, Eq, Hash, Structural)]
pub struct TextObject {
    pub scope: TextObjectScope,
    pub object_type: TextObjectType,
}

/// Mouse buttons reported with a click.
#[derive(Clone, Copy, Debug, PartialEq, Eq, Hash, Structural)]
pub enum MouseButton {
    Left,
    Right,
    Middle,
}

/// A single editing operation applied to the line buffer.
#[derive(Clone, Debug, PartialEq, Eq, Hash)]
pub enum EditCommand {
    InsertChar(char),
    InsertString(String),
    InsertNewline,
    InsertNewlineAbove,
    InsertNewlineBelow,
    InsertPair { open: char, close: char },
    BackspacePair { open: char, close: char },
    ReplaceChar(char),
    ReplaceChars(usize, String),
    Backspace,
    Delete,
    BackspaceWord,
    Clear,
    ClearToLineEnd,
    Complete,
    Undo,
    Redo,
    KillLine,
    CutChar,
    CutCharLeft,
    CutCurrentLine,
    CutFromLineStart,
    CutFromLineNonBlankStart,
    CutToLineEnd,
    CutWordLeft,
    CutBigWordLeft,
    CutWordRight,
    CutBigWordRight,
    CutWordRightToNext,
    CutBigWordRightToNext,
    CutRightUntil(char),
    CutRightBefore(char),
    CutLeftUntil(char),
    CutLeftBefore(char),
    CopyFromLineNonBlankStart,
    CopyLeft,
    CopyRight,
    CopySelection,
    CutSelection { granularity: Granularity },
    Cut { target: MotionTarget, granularity: Granularity },
    Copy { target: MotionTarget, granularity: Granularity },
    Change { target: MotionTarget, granularity: Granularity },
    CutTextObject { text_object: TextObject },
    CopyTextObject { text_object: TextObject },
    EraseSelection,
    PasteCutBufferAfter,
    PasteCutBufferBefore,
    PasteAtSelectionEdge { direction: Direction, count: usize },
    SwapCursorAndAnchor,
    SelectAll,
    SelectLine,
    Select(MotionTarget),
    Move(MotionTarget),
    Extend(MotionTarget),
    CollapseSelection(Direction),
    MoveLeft { select: bool },
    MoveRight { select: bool },
    MoveToStart { select: bool },
    MoveToEnd { select: bool },
    MoveToLineStart { select: bool },
    MoveToLineEnd { select: bool },
    MoveToLineNonBlankStart { select: bool },
    MoveLineUp { select: bool },
    MoveLineDown { select: bool },
    MoveWordLeft { select: bool },
    MoveBigWordLeft { select: bool },
    MoveWordRightStart { select: bool },
    MoveBigWordRightStart { select: bool },
    MoveWordRightEnd { select: bool },
    MoveBigWordRightEnd { select: bool },
    MoveRightUntil { c: char, select: bool },
    MoveRightBefore { c: char, select: bool },
    MoveLeftUntil { c: char, select: bool },
    MoveLeftBefore { c: char, select: bool },
    MoveToPosition { position: usize, select: bool },
    LowercaseSelection,
    UppercaseSelection,
    SwitchcaseSelection,
    SwitchcaseChar,
    HxRestartSelection,
    HxEnsureSelection,
    HxClearSelection,
    HxSyncCursor,
    HxSyncCursorWithRestart,
    HxShiftSelectionToInsertionPoint,
    HxMoveToSelectionStart,
    HxMoveToSelectionEnd,
    HxExtendSelectionToInsertionPoint,
    HxDeleteSelection,
    HxSwitchCaseSelection,
    HxReplaceSelectionWithChar(char),
    HxFlipSelection,
    HxWordMotion { target: WordMotionTarget, movement: Movement, count: usize },
    CapitalizeChar,
    CutFromStart,
    DeleteWord,
    LowercaseWord,
    UppercaseWord,
    SwapGraphemes,
    MoveWordRight { select: bool },
}

impl EditCommand {
    /// A copy of the command.
    pub fn duplicate(&self) -> (r: EditCommand)
        ensures
            r == *self,
    {
        match self {
            EditCommand::InsertChar(x) => EditCommand::InsertChar(*x),
            EditCommand::InsertString(s) => EditCommand::InsertString(s.clone()),
            EditCommand::InsertNewline => EditCommand::InsertNewline,
            EditCommand::InsertNewlineAbove => EditCommand::InsertNewlineAbove,
            EditCommand::InsertNewlineBelow => EditCommand::InsertNewlineBelow,
            EditCommand::InsertPair { open, close } => EditCommand::InsertPair { open: *open, close: *close },
            EditCommand::BackspacePair { open, close } => EditCommand::BackspacePair { open: *open, close: *close },
            EditCommand::ReplaceChar(x) => EditCommand::ReplaceChar(*x),
            EditCommand::ReplaceChars(n, s) => EditCommand::ReplaceChars(*n, s.clone()),
            EditCommand::Backspace => EditCommand::Backspace,
            EditCommand::Delete => EditCommand::Delete,
            EditCommand::BackspaceWord => EditCommand::BackspaceWord,
            EditCommand::Clear => EditCommand::Clear,
            EditCommand::ClearToLineEnd => EditCommand::ClearToLineEnd,
            EditCommand::Complete => EditCommand::Complete,
            EditCommand::Undo => EditCommand::Undo,
            EditCommand::Redo => EditCommand::Redo,
            EditCommand::KillLine => EditCommand::KillLine,
            EditCommand::CutChar => EditCommand::CutChar,
            EditCommand::CutCharLeft => EditCommand::CutCharLeft,
            EditCommand::CutCurrentLine => EditCommand::CutCurrentLine,
            EditCommand::CutFromLineStart => EditCommand::CutFromLineStart,
            EditCommand::CutFromLineNonBlankStart => EditCommand::CutFromLineNonBlankStart,
            EditCommand::CutToLineEnd => EditCommand::CutToLineEnd,
            EditCommand::CutWordLeft => EditCommand::CutWordLeft,
            EditCommand::CutBigWordLeft => EditCommand::CutBigWordLeft,
            EditCommand::CutWordRight => EditCommand::CutWordRight,
            EditCommand::CutBigWordRight => EditCommand::CutBigWordRight,
            EditCommand::CutWordRightToNext => EditCommand::CutWordRightToNext,
            EditCommand::CutBigWordRightToNext => EditCommand::CutBigWordRightToNext,
            EditCommand::CutRightUntil(x) => EditCommand::CutRightUntil(*x),
            EditCommand::CutRightBefore(x) => EditCommand::CutRightBefore(*x),
            EditCommand::CutLeftUntil(x) => EditCommand::CutLeftUntil(*x),
            EditCommand::CutLeftBefore(x) => EditCommand::CutLeftBefore(*x),
            EditCommand::CopyFromLineNonBlankStart => EditCommand::CopyFromLineNonBlankStart,
            EditCommand::CopyLeft => EditCommand::CopyLeft,
            EditCommand::CopyRight => EditCommand::CopyRight,
            EditCommand::CopySelection => EditCommand::CopySelection,
            EditCommand::CutSelection { granularity } => EditCommand::CutSelection { granularity: *granularity },
            EditCommand::Cut { target, granularity } => EditCommand::Cut { target: *target, granularity: *granularity },
            EditCommand::Copy { target, granularity } => EditCommand::Copy { target: *target, granularity: *granularity },
            EditCommand::Change { target, granularity } => EditCommand::Change { target: *target, granularity: *granularity },
            EditCommand::CutTextObject { text_object } => EditCommand::CutTextObject { text_object: *text_object },
            EditCommand::CopyTextObject { text_object } => EditCommand::CopyTextObject { text_object: *text_object },
            EditCommand::EraseSelection => EditCommand::EraseSelection,
            EditCommand::PasteCutBufferAfter => EditCommand::PasteCutBufferAfter,
            EditCommand::PasteCutBufferBefore => EditCommand::PasteCutBufferBefore,
            EditCommand::PasteAtSelectionEdge { direction, count } => EditCommand::PasteAtSelectionEdge { direction: *direction, count: *count },
            EditCommand::SwapCursorAndAnchor => EditCommand::SwapCursorAndAnchor,
            EditCommand::SelectAll => EditCommand::SelectAll,
            EditCommand::SelectLine => EditCommand::SelectLine,
            EditCommand::Select(x) => EditCommand::Select(*x),
            EditCommand::Move(x) => EditCommand::Move(*x),
            EditCommand::Extend(x) => EditCommand::Extend(*x),
            EditCommand::CollapseSelection(x) => EditCommand::CollapseSelection(*x),
            EditCommand::MoveLeft { select } => EditCommand::MoveLeft { select: *select },
            EditCommand::MoveRight { select } => EditCommand::MoveRight { select: *select },
            EditCommand::MoveToStart { select } => EditCommand::MoveToStart { select: *select },
            EditCommand::MoveToEnd { select } => EditCommand::MoveToEnd { select: *select },
            EditCommand::MoveToLineStart { select } => EditCommand::MoveToLineStart { select: *select },
            EditCommand::MoveToLineEnd { select } => EditCommand::MoveToLineEnd { select: *select },
            EditCommand::MoveToLineNonBlankStart { select } => EditCommand::MoveToLineNonBlankStart { select: *select },
            EditCommand::MoveLineUp { select } => EditCommand::MoveLineUp { select: *select },
            EditCommand::MoveLineDown { select } => EditCommand::MoveLineDown { select: *select },
            EditCommand::MoveWordLeft { select } => EditCommand::MoveWordLeft { select: *select },
            EditCommand::MoveBigWordLeft { select } => EditCommand::MoveBigWordLeft { select: *select },
            EditCommand::MoveWordRightStart { select } => EditCommand::MoveWordRightStart { select: *select },
            EditCommand::MoveBigWordRightStart { select } => EditCommand::MoveBigWordRightStart { select: *select },
            EditCommand::MoveWordRightEnd { select } => EditCommand::MoveWordRightEnd { select: *select },
            EditCommand::MoveBigWordRightEnd { select } => EditCommand::MoveBigWordRightEnd { select: *select },
            EditCommand::MoveRightUntil { c, select } => EditCommand::MoveRightUntil { c: *c, select: *select },
            EditCommand::MoveRightBefore { c, select } => EditCommand::MoveRightBefore { c: *c, select: *select },
            EditCommand::MoveLeftUntil { c, select } => EditCommand::MoveLeftUntil { c: *c, select: *select },
            EditCommand::MoveLeftBefore { c, select } => EditCommand::MoveLeftBefore { c: *c, select: *select },
            EditCommand::MoveToPosition { position, select } => EditCommand::MoveToPosition { position: *position, select: *select },
            EditCommand::LowercaseSelection => EditCommand::LowercaseSelection,
            EditCommand::UppercaseSelection => EditCommand::UppercaseSelection,
            EditCommand::SwitchcaseSelection => EditCommand::SwitchcaseSelection,
            EditCommand::SwitchcaseChar => EditCommand::SwitchcaseChar,
            EditCommand::HxRestartSelection => EditCommand::HxRestartSelection,
            EditCommand::HxEnsureSelection => EditCommand::HxEnsureSelection,
            EditCommand::HxClearSelection => EditCommand::HxClearSelection,
            EditCommand::HxSyncCursor => EditCommand::HxSyncCursor,
            EditCommand::HxSyncCursorWithRestart => EditCommand::HxSyncCursorWithRestart,
            EditCommand::HxShiftSelectionToInsertionPoint => EditCommand::HxShiftSelectionToInsertionPoint,
            EditCommand::HxMoveToSelectionStart => EditCommand::HxMoveToSelectionStart,
            EditCommand::HxMoveToSelectionEnd => EditCommand::HxMoveToSelectionEnd,
            EditCommand::HxExtendSelectionToInsertionPoint => EditCommand::HxExtendSelectionToInsertionPoint,
            EditCommand::HxDeleteSelection => EditCommand::HxDeleteSelection,
            EditCommand::HxSwitchCaseSelection => EditCommand::HxSwitchCaseSelection,
            EditCommand::HxReplaceSelectionWithChar(x) => EditCommand::HxReplaceSelectionWithChar(*x),
            EditCommand::HxFlipSelection => EditCommand::HxFlipSelection,
            EditCommand::HxWordMotion { target, movement, count } => EditCommand::HxWordMotion { target: *target, movement: *movement, count: *count },
            EditCommand::CapitalizeChar => EditCommand::CapitalizeChar,
            EditCommand::CutFromStart => EditCommand::CutFromStart,
            EditCommand::DeleteWord => EditCommand::DeleteWord,
            EditCommand::LowercaseWord => EditCommand::LowercaseWord,
            EditCommand::UppercaseWord => EditCommand::UppercaseWord,
            EditCommand::SwapGraphemes => EditCommand::SwapGraphemes,
            EditCommand::MoveWordRight { select } => EditCommand::MoveWordRight { select: *select },
        }
    }
}

/// The Vi states a prompt can show.
#[derive(Clone, Copy, Debug, PartialEq, Eq, Hash, Structural)]
pub enum PromptViMode {
    Normal,
    Insert,
    Visual,
}

/// The Helix states a prompt can show.
#[derive(Clone, Copy, Debug, PartialEq, Eq, Hash, Structural)]
pub enum PromptHelixMode {
    Normal,
    Insert,
    Select,
}

/// The edit-mode state a prompt shows.
#[derive(Clone, Debug, PartialEq, Eq, Hash)]
pub enum PromptEditMode {
    Default,
    Emacs,
    Vi(PromptViMode),
    Helix(PromptHelixMode),
    Custom(String),
}

/// How an input session ended.
#[derive(Clone, Debug, PartialEq, Eq)]
pub enum Signal {
    /// The line was submitted.
    Success(String),
    CtrlC,
    CtrlD,
    /// A break was requested from outside; the buffer so far.
    ExternalBreak(String),
    /// A host command bound to a key.
    HostCommand(String),
}

/// Whether the handler of an event took it.
#[derive(Clone, Debug, PartialEq, Eq)]
pub enum EventStatus {
    Handled,
    Inapplicable,
    Exits(Signal),
}

/// What the edit mode hands to the engine for one input event.
#[derive(Debug, PartialEq, Eq)]
pub enum ReedlineEvent {
    Nothing,
    HistoryHintComplete,
    HistoryHintWordComplete,
    CtrlD,
    CtrlC,
    ClearScreen,
    ClearScrollback,
    Enter,
    Submit,
    SubmitOrNewline,
    Esc,
    Mouse { column: u16, row: u16, button: MouseButton },
    Resize(u16, u16),
    Edit(Vec<EditCommand>),
    Repaint,
    PreviousHistory,
    Up,
    Down,
    Right,
    Left,
    NextHistory,
    SearchHistory,
    Multiple(Vec<ReedlineEvent>),
    UntilFound(Vec<ReedlineEvent>),
    Menu(String),
    MenuNext,
    MenuPrevious,
    MenuUp,
    MenuDown,
    MenuLeft,
    MenuRight,
    MenuPageNext,
    MenuPagePrevious,
    MenuAccept,
    ExecuteHostCommand(String),
    OpenEditor,
    ViChangeMode(String),
    HelixChangeMode(String),
    SwitchMode(PromptEditMode),
    ToStart,
    ToEnd,
}

/// The mathematical value of a [`ReedlineEvent`]: the same shape with
/// sequences in place of vectors and strings.
pub enum EventView {
    Nothing,
    HistoryHintComplete,
    HistoryHintWordComplete,
    CtrlD,
    CtrlC,
    ClearScreen,
    ClearScrollback,
    Enter,
    Submit,
    SubmitOrNewline,
    Esc,
    Mouse { column: u16, row: u16, button: MouseButton },
    Resize(u16, u16),
    Edit(Seq<EditCommand>),
    Repaint,
    PreviousHistory,
    Up,
    Down,
    Right,
    Left,
    NextHistory,
    SearchHistory,
    Multiple(Seq<EventView>),
    UntilFound(Seq<EventView>),
    Menu(Seq<char>),
    MenuNext,
    MenuPrevious,
    MenuUp,
    MenuDown,
    MenuLeft,
    MenuRight,
    MenuPageNext,
    MenuPagePrevious,
    MenuAccept,
    ExecuteHostCommand(Seq<char>),
    OpenEditor,
    ViChangeMode(Seq<char>),
    HelixChangeMode(Seq<char>),
    SwitchMode(PromptEditMode),
    ToStart,
    ToEnd,
}

/// The views of a sequence of events, element by element.
pub open spec fn events_view(s: Seq<ReedlineEvent>) -> Seq<EventView>
    decreases s,
{
    if s.len() == 0 {
        Seq::empty()
    } else {
        seq![event_view(s[0])].add(events_view(s.drop_first()))
    }
}

pub open spec fn event_view(e: ReedlineEvent) -> EventView
    decreases e,
{
    match e {
        ReedlineEvent::Nothing => EventView::Nothing,
        ReedlineEvent::HistoryHintComplete => EventView::HistoryHintComplete,
        ReedlineEvent::HistoryHintWordComplete => EventView::HistoryHintWordComplete,
        ReedlineEvent::CtrlD => EventView::CtrlD,
        ReedlineEvent::CtrlC => EventView::CtrlC,
        ReedlineEvent::ClearScreen => EventView::ClearScreen,
        ReedlineEvent::ClearScrollback => EventView::ClearScrollback,
        ReedlineEvent::Enter => EventView::Enter,
        ReedlineEvent::Submit => EventView::Submit,
        ReedlineEvent::SubmitOrNewline => EventView::SubmitOrNewline,
        ReedlineEvent::Esc => EventView::Esc,
        ReedlineEvent::Mouse { column, row, button } => EventView::Mouse { column, row, button },
        ReedlineEvent::Resize(w, h) => EventView::Resize(w, h),
        ReedlineEvent::Edit(v) => EventView::Edit(v@),
        ReedlineEvent::Repaint => EventView::Repaint,
        ReedlineEvent::PreviousHistory => EventView::PreviousHistory,
        ReedlineEvent::Up => EventView::Up,
        ReedlineEvent::Down => EventView::Down,
        ReedlineEvent::Right => EventView::Right,
        ReedlineEvent::Left => EventView::Left,
        ReedlineEvent::NextHistory => EventView::NextHistory,
        ReedlineEvent::SearchHistory => EventView::SearchHistory,
        ReedlineEvent::Multiple(v) => EventView::Multiple(events_view(v@)),
        ReedlineEvent::UntilFound(v) => EventView::UntilFound(events_view(v@)),
        ReedlineEvent::Menu(s) => EventView::Menu(s@),
        ReedlineEvent::MenuNext => EventView::MenuNext,
        ReedlineEvent::MenuPrevious => EventView::MenuPrevious,
        ReedlineEvent::MenuUp => EventView::MenuUp,
        ReedlineEvent::MenuDown => EventView::MenuDown,
        ReedlineEvent::MenuLeft => EventView::MenuLeft,
        ReedlineEvent::MenuRight => EventView::MenuRight,
        ReedlineEvent::MenuPageNext => EventView::MenuPageNext,
        ReedlineEvent::MenuPagePrevious => EventView::MenuPagePrevious,
        ReedlineEvent::MenuAccept => EventView::MenuAccept,
        ReedlineEvent::ExecuteHostCommand(s) => EventView::ExecuteHostCommand(s@),
        ReedlineEvent::OpenEditor => EventView::OpenEditor,
        ReedlineEvent::ViChangeMode(s) => EventView::ViChangeMode(s@),
        ReedlineEvent::HelixChangeMode(s) => EventView::HelixChangeMode(s@),
        ReedlineEvent::SwitchMode(m) => EventView::SwitchMode(m),
        ReedlineEvent::ToStart => EventView::ToStart,
        ReedlineEvent::ToEnd => EventView::ToEnd,
    }
}

/// Copies of the events of `v`, in order.
pub fn duplicate_events(v: &Vec<ReedlineEvent>) -> (r: Vec<ReedlineEvent>)
    ensures
        events_view(r@) == events_view(v@),
    decreases v,
{
    let mut r: Vec<ReedlineEvent> = Vec::new();
    let mut i: usize = 0;
    while i < v.len()
        invariant
            i <= v.len(),
            events_view(r@) == events_view(v@.take(i as int)),
        decreases v.len() - i,
    {
        proof {
            assert(decreases_to!(v => v@[i as int]));
        }
        let e = v[i].duplicate();
        let ghost old_r = r@;
        r.push(e);
        proof {
            lemma_events_view_push(old_r, e);
            lemma_events_view_push(v@.take(i as int), v@[i as int]);
            assert(v@.take(i as int).push(v@[i as int]) == v@.take(i + 1));
        }
        i = i + 1;
    }
    proof {
        assert(v@.take(v.len() as int) == v@);
    }
    r
}

/// Appending an event appends its view.
pub proof fn lemma_events_view_push(s: Seq<ReedlineEvent>, e: ReedlineEvent)
    ensures
        events_view(s.push(e)) == events_view(s).push(event_view(e)),
    decreases s.len(),
{
    if s.len() == 0 {
        assert(s.push(e).drop_first() == Seq::<ReedlineEvent>::empty());
        assert(events_view(Seq::<ReedlineEvent>::empty()) == Seq::<EventView>::empty());
    } else {
        assert(s.push(e).drop_first() == s.drop_first().push(e));
        lemma_events_view_push(s.drop_first(), e);
        assert(s.push(e)[0] == s[0]);
    }
}

/// The view of a sequence of events has one element per event.
pub proof fn lemma_events_view_len(s: Seq<ReedlineEvent>)
    ensures
        events_view(s).len() == s.len(),
        forall|i: int| 0 <= i < s.len() ==> #[trigger] events_view(s)[i] == event_view(s[i]),
    decreases s.len(),
{
    if s.len() > 0 {
        lemma_events_view_len(s.drop_first());
        assert forall|i: int| 0 <= i < s.len() implies #[trigger] events_view(s)[i] == event_view(
            s[i],
        ) by {
            if i > 0 {
                assert(s.drop_first()[i - 1] == s[i]);
            }
        }
    }
}

impl ReedlineEvent {
    /// A copy of the event, nested events included.
    pub fn duplicate(&self) -> (r: ReedlineEvent)
        ensures
            r@ == self@,
        decreases self,
    {
        match self {
            ReedlineEvent::Edit(v) => {
                let mut w: Vec<EditCommand> = Vec::new();
                let mut i: usize = 0;
                while i < v.len()
                    invariant
                        i <= v.len(),
                        w@ == v@.take(i as int),
                    decreases v.len() - i,
                {
                    w.push(v[i].duplicate());
                    i = i + 1;
                }
                assert(v@.take(v.len() as int) == v@);
                ReedlineEvent::Edit(w)
            },
            ReedlineEvent::Multiple(v) => ReedlineEvent::Multiple(duplicate_events(v)),
            ReedlineEvent::UntilFound(v) => ReedlineEvent::UntilFound(duplicate_events(v)),
            ReedlineEvent::Menu(s) => ReedlineEvent::Menu(s.clone()),
            ReedlineEvent::ExecuteHostCommand(s) => ReedlineEvent::ExecuteHostCommand(s.clone()),
            ReedlineEvent::ViChangeMode(s) => ReedlineEvent::ViChangeMode(s.clone()),
            ReedlineEvent::HelixChangeMode(s) => ReedlineEvent::HelixChangeMode(s.clone()),
            ReedlineEvent::SwitchMode(m) => ReedlineEvent::SwitchMode(m.duplicate()),
            ReedlineEvent::Nothing => ReedlineEvent::Nothing,
            ReedlineEvent::HistoryHintComplete => ReedlineEvent::HistoryHintComplete,
            ReedlineEvent::HistoryHintWordComplete => ReedlineEvent::HistoryHintWordComplete,
            ReedlineEvent::CtrlD => ReedlineEvent::CtrlD,
            ReedlineEvent::CtrlC => ReedlineEvent::CtrlC,
            ReedlineEvent::ClearScreen => ReedlineEvent::ClearScreen,
            ReedlineEvent::ClearScrollback => ReedlineEvent::ClearScrollback,
            ReedlineEvent::Enter => ReedlineEvent::Enter,
            ReedlineEvent::Submit => ReedlineEvent::Submit,
            ReedlineEvent::SubmitOrNewline => ReedlineEvent::SubmitOrNewline,
            ReedlineEvent::Esc => ReedlineEvent::Esc,
            ReedlineEvent::Mouse { column, row, button } => ReedlineEvent::Mouse {
                column: *column,
                row: *row,
                button: *button,
            },
            ReedlineEvent::Resize(w, h) => ReedlineEvent::Resize(*w, *h),
            ReedlineEvent::Repaint => ReedlineEvent::Repaint,
            ReedlineEvent::PreviousHistory => ReedlineEvent::PreviousHistory,
            ReedlineEvent::Up => ReedlineEvent::Up,
            ReedlineEvent::Down => ReedlineEvent::Down,
            ReedlineEvent::Right => ReedlineEvent::Right,
            ReedlineEvent::Left => ReedlineEvent::Left,
            ReedlineEvent::NextHistory => ReedlineEvent::NextHistory,
            ReedlineEvent::SearchHistory => ReedlineEvent::SearchHistory,
            ReedlineEvent::MenuNext => ReedlineEvent::MenuNext,
            ReedlineEvent::MenuPrevious => ReedlineEvent::MenuPrevious,
            ReedlineEvent::MenuUp => ReedlineEvent::MenuUp,
            ReedlineEvent::MenuDown => ReedlineEvent::MenuDown,
            ReedlineEvent::MenuLeft => ReedlineEvent::MenuLeft,
            ReedlineEvent::MenuRight => ReedlineEvent::MenuRight,
            ReedlineEvent::MenuPageNext => ReedlineEvent::MenuPageNext,
            ReedlineEvent::MenuPagePrevious => ReedlineEvent::MenuPagePrevious,
            ReedlineEvent::MenuAccept => ReedlineEvent::MenuAccept,
            ReedlineEvent::OpenEditor => ReedlineEvent::OpenEditor,
            ReedlineEvent::ToStart => ReedlineEvent::ToStart,
            ReedlineEvent::ToEnd => ReedlineEvent::ToEnd,
        }
    }
}

impl Clone for ReedlineEvent {
    fn clone(&self) -> (r: ReedlineEvent)
        ensures
            r@ == self@,
    {
        self.duplicate()
    }
}

impl PromptEditMode {
    /// A copy of the mode.
    pub fn duplicate(&self) -> (r: PromptEditMode)
        ensures
            r == *self,
    {
        match self {
            PromptEditMode::Default => PromptEditMode::Default,
            PromptEditMode::Emacs => PromptEditMode::Emacs,
            PromptEditMode::Vi(m) => PromptEditMode::Vi(*m),
            PromptEditMode::Helix(m) => PromptEditMode::Helix(*m),
            PromptEditMode::Custom(s) => PromptEditMode::Custom(s.clone()),
        }
    }
}

impl View for ReedlineEvent {
    type V = EventView;

    open spec fn view(&self) -> EventView {
        event_view(*self)
    }
}

/// The events `a` and `b`, in order.
pub fn events_of2(a: ReedlineEvent, b: ReedlineEvent) -> (r: Vec<ReedlineEvent>)
    ensures
        events_view(r@) == seq![a@, b@],
{
    let ghost (va, vb) = (a@, b@);
    let r = vec![a, b];
    proof {
        lemma_events_view_len(r@);
        assert(events_view(r@) =~= seq![va, vb]);
    }
    r
}

/// The events `a`, `b` and `c`, in order.
pub fn events_of3(a: ReedlineEvent, b: ReedlineEvent, c: ReedlineEvent) -> (r: Vec<ReedlineEvent>)
    ensures
        events_view(r@) == seq![a@, b@, c@],
{
    let ghost (va, vb, vc) = (a@, b@, c@);
    let r = vec![a, b, c];
    proof {
        lemma_events_view_len(r@);
        assert(events_view(r@) =~= seq![va, vb, vc]);
    }
    r
}

/// Try `a`, then `b`.
pub fn until_found2(a: ReedlineEvent, b: ReedlineEvent) -> (r: ReedlineEvent)
    ensures
        r@ == EventView::UntilFound(seq![a@, b@]),
{
    ReedlineEvent::UntilFound(events_of2(a, b))
}

/// Try `a`, then `b`, then `c`.
pub fn until_found3(a: ReedlineEvent, b: ReedlineEvent, c: ReedlineEvent) -> (r: ReedlineEvent)
    ensures
        r@ == EventView::UntilFound(seq![a@, b@, c@]),
{
    ReedlineEvent::UntilFound(events_of3(a, b, c))
}

/// `a` and then `b`.
pub fn multiple2(a: ReedlineEvent, b: ReedlineEvent) -> (r: ReedlineEvent)
    ensures
        r@ == EventView::Multiple(seq![a@, b@]),
{
    ReedlineEvent::Multiple(events_of2(a, b))
}

// ── Laws ──────────────────────────────────────────────────────────────
/// Reversing a motion's direction twice gives the motion back.
pub proof fn reversing_twice_restores(t: MotionTarget)
    ensures
        reverse_target(reverse_target(t)) == t,
{
}

} // verus!
