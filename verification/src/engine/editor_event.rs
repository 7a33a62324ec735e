//! What the engine does with an event while the user edits the line: the
//! decision, apart from the menus, hinter, validator and terminal that it
//! acts on, and how the answers of a group of events combine.
use vstd::prelude::*;

use crate::enums::{
    EditCommand, EventStatus, EventView, MouseButton, PromptEditMode, ReedlineEvent, Signal,
};
use crate::text::str_equals;
use vstd::string::StrSliceExecFns;

verus! {

/// What the engine knows of its own state when it takes an event.
///
/// For `Enter`, `Submit` and `SubmitOrNewline` the engine first expands
/// the abbreviation before the cursor; the snapshot is taken after that.
pub struct EditorSnapshot {
    /// What the line buffer holds.
    pub buffer: String,
    /// The cursor stands at the end of the buffer.
    pub cursor_at_end: bool,
    /// A menu is open.
    pub menu_active: bool,
    /// The open menu has values to choose from.
    pub menu_has_values: bool,
    /// The open menu holds a single final value that it may complete at once.
    pub menu_quick_completes: bool,
    /// Moving through a menu first completes the common prefix of its values.
    pub partial_completions: bool,
    /// Menus complete a lone value at once, and follow each edit.
    pub quick_completions: bool,
    /// The open menu is one that may complete at once.
    pub menu_can_quick_complete: bool,
    /// Menus stay open when the buffer is emptied or the edit deletes
    /// backward.
    pub persistent_menus: bool,
    /// The names of the menus, in the order they were added.
    pub menu_names: Vec<String>,
    /// What the hinter offers for the whole hint, if there is a hinter.
    pub complete_hint: Option<String>,
    /// What the hinter offers for its next token, if there is a hinter.
    pub hint_token: Option<String>,
    /// Hints are shown.
    pub hints_active: bool,
    /// The validator's answer on the buffer, `Some(true)` where the line is
    /// complete; `None` where there is no validator.
    pub validator_complete: Option<bool>,
    /// The edit-mode state that the active mode reports.
    pub mode: PromptEditMode,
}

/// A move inside the open menu.
#[derive(Clone, Copy, Debug, PartialEq, Eq, Structural)]
pub enum MenuMove {
    NextElement,
    PreviousElement,
    MoveUp,
    MoveDown,
    MoveLeft,
    MoveRight,
    NextPage,
    PreviousPage,
}

/// What the engine does with one event while the line is edited.
#[derive(Debug, PartialEq, Eq)]
pub enum EditorStep {
    /// The event means nothing now.
    Inapplicable,
    /// Open the menu at this position among the menus.
    ActivateMenu(usize),
    /// Move inside the open menu.
    Menu(MenuMove),
    /// Complete the common prefix of the open menu's values, then move to
    /// its next element.
    CompletePartiallyThenNext,
    /// Put the open menu's selection into the buffer and close the menu.
    AcceptMenu,
    /// Append the hint at the end of the buffer.
    AppendHint(String),
    /// Close the menus and clear the selection.
    Leave,
    /// Forget the undo history and end the session with Ctrl-D.
    ExitOnCtrlD,
    /// Close the menus, clear the buffer, forget the undo history and end
    /// the session with Ctrl-C.
    ExitOnCtrlC,
    /// Close the menus and clear the screen.
    ClearScreen,
    /// Close the menus and clear the scrollback.
    ClearScrollback,
    /// Run these commands on the buffer, and nothing more.
    RunCommands(Vec<EditCommand>),
    /// Run these edit commands; then, after a typed space, hand on the
    /// expansion of the abbreviation before the cursor where there is one
    /// (see [`edit_expands_abbreviation`]), and otherwise bring the open
    /// menu along (see [`edit_menu_step`]).
    Edit(Vec<EditCommand>),
    /// Submit the buffer.
    Submit,
    /// End the session to run this host command.
    HostCommand(String),
    OpenEditor,
    Resize(u16, u16),
    /// Nothing to do but paint again.
    Repaint,
    PreviousHistory,
    NextHistory,
    Up,
    Down,
    ToStart,
    ToEnd,
    SearchHistory,
    /// Move the cursor to the clicked cell.
    Click { column: u16, row: u16 },
    /// Hand each of the grouped events to the engine in turn.
    HandleEach,
    /// Hand the grouped events to the engine until one applies.
    HandleFirstOf,
    /// Let the active edit mode take the mode change.
    ChangeMode,
    /// Offer the target state to the active mode, then to the others.
    SwitchMode,
}

/// The mathematical value of an [`EditorStep`].
pub enum EditorStepView {
    Inapplicable,
    ActivateMenu(usize),
    Menu(MenuMove),
    CompletePartiallyThenNext,
    AcceptMenu,
    AppendHint(Seq<char>),
    Leave,
    ExitOnCtrlD,
    ExitOnCtrlC,
    ClearScreen,
    ClearScrollback,
    RunCommands(Seq<EditCommand>),
    Edit(Seq<EditCommand>),
    Submit,
    HostCommand(Seq<char>),
    OpenEditor,
    Resize(u16, u16),
    Repaint,
    PreviousHistory,
    NextHistory,
    Up,
    Down,
    ToStart,
    ToEnd,
    SearchHistory,
    Click { column: u16, row: u16 },
    HandleEach,
    HandleFirstOf,
    ChangeMode,
    SwitchMode,
}

impl View for EditorStep {
    type V = EditorStepView;

    open spec fn view(&self) -> EditorStepView {
        match self {
            EditorStep::Inapplicable => EditorStepView::Inapplicable,
            EditorStep::ActivateMenu(i) => EditorStepView::ActivateMenu(*i),
            EditorStep::Menu(m) => EditorStepView::Menu(*m),
            EditorStep::CompletePartiallyThenNext => EditorStepView::CompletePartiallyThenNext,
            EditorStep::AcceptMenu => EditorStepView::AcceptMenu,
            EditorStep::AppendHint(h) => EditorStepView::AppendHint(h@),
            EditorStep::Leave => EditorStepView::Leave,
            EditorStep::ExitOnCtrlD => EditorStepView::ExitOnCtrlD,
            EditorStep::ExitOnCtrlC => EditorStepView::ExitOnCtrlC,
            EditorStep::ClearScreen => EditorStepView::ClearScreen,
            EditorStep::ClearScrollback => EditorStepView::ClearScrollback,
            EditorStep::RunCommands(c) => EditorStepView::RunCommands(c@),
            EditorStep::Edit(c) => EditorStepView::Edit(c@),
            EditorStep::Submit => EditorStepView::Submit,
            EditorStep::HostCommand(s) => EditorStepView::HostCommand(s@),
            EditorStep::OpenEditor => EditorStepView::OpenEditor,
            EditorStep::Resize(w, h) => EditorStepView::Resize(*w, *h),
            EditorStep::Repaint => EditorStepView::Repaint,
            EditorStep::PreviousHistory => EditorStepView::PreviousHistory,
            EditorStep::NextHistory => EditorStepView::NextHistory,
            EditorStep::Up => EditorStepView::Up,
            EditorStep::Down => EditorStepView::Down,
            EditorStep::ToStart => EditorStepView::ToStart,
            EditorStep::ToEnd => EditorStepView::ToEnd,
            EditorStep::SearchHistory => EditorStepView::SearchHistory,
            EditorStep::Click { column, row } => EditorStepView::Click { column: *column, row: *row },
            EditorStep::HandleEach => EditorStepView::HandleEach,
            EditorStep::HandleFirstOf => EditorStepView::HandleFirstOf,
            EditorStep::ChangeMode => EditorStepView::ChangeMode,
            EditorStep::SwitchMode => EditorStepView::SwitchMode,
        }
    }
}

/// The position, at `i` or after it, of the first of `names` that reads
/// `name`.
pub open spec fn first_named_from(names: Seq<String>, name: Seq<char>, i: int) -> Option<usize>
    decreases names.len() - i,
{
    if i < 0 || i >= names.len() {
        None
    } else if names[i]@ == name {
        Some(i as usize)
    } else {
        first_named_from(names, name, i + 1)
    }
}

/// The two edit-mode states are the same, strings compared by their
/// characters.
pub open spec fn same_mode(a: PromptEditMode, b: PromptEditMode) -> bool {
    match (a, b) {
        (PromptEditMode::Custom(x), PromptEditMode::Custom(y)) => x@ == y@,
        (PromptEditMode::Custom(_), _) => false,
        (_, PromptEditMode::Custom(_)) => false,
        _ => a == b,
    }
}

/// What submitting does, as the validator answers.
pub open spec fn submit_or_newline(validator_complete: Option<bool>) -> EditorStepView {
    match validator_complete {
        Some(false) => EditorStepView::RunCommands(seq![EditCommand::InsertNewline]),
        _ => EditorStepView::Submit,
    }
}

/// What taking a hint does: the hint is appended where hints are shown,
/// the cursor is at the end, the hint is not empty and no menu is open.
pub open spec fn hint_step(hint: Option<String>, st: EditorSnapshot) -> EditorStepView {
    match hint {
        Some(h) => if st.hints_active && st.cursor_at_end && h@.len() > 0 && !st.menu_active {
            EditorStepView::AppendHint(h@)
        } else {
            EditorStepView::Inapplicable
        },
        None => EditorStepView::Inapplicable,
    }
}

/// A move inside the open menu, where one is open.
pub open spec fn menu_step(m: MenuMove, st: EditorSnapshot) -> EditorStepView {
    if st.menu_active {
        EditorStepView::Menu(m)
    } else {
        EditorStepView::Inapplicable
    }
}

/// What the event `e` does while the line is edited, in the state `st`.
pub open spec fn editor_step(e: EventView, st: EditorSnapshot) -> EditorStepView {
    match e {
        EventView::Menu(name) => if st.menu_active {
            EditorStepView::Inapplicable
        } else {
            match first_named_from(st.menu_names@, name, 0) {
                Some(i) => EditorStepView::ActivateMenu(i),
                None => EditorStepView::Inapplicable,
            }
        },
        EventView::MenuAccept => if st.menu_active && st.menu_has_values {
            EditorStepView::AcceptMenu
        } else {
            EditorStepView::Inapplicable
        },
        EventView::MenuNext => if !st.menu_active {
            EditorStepView::Inapplicable
        } else if st.menu_quick_completes {
            EditorStepView::AcceptMenu
        } else if st.partial_completions {
            EditorStepView::CompletePartiallyThenNext
        } else {
            EditorStepView::Menu(MenuMove::NextElement)
        },
        EventView::MenuPrevious => menu_step(MenuMove::PreviousElement, st),
        EventView::MenuUp => menu_step(MenuMove::MoveUp, st),
        EventView::MenuDown => menu_step(MenuMove::MoveDown, st),
        EventView::MenuLeft => menu_step(MenuMove::MoveLeft, st),
        EventView::MenuRight => menu_step(MenuMove::MoveRight, st),
        EventView::MenuPageNext => menu_step(MenuMove::NextPage, st),
        EventView::MenuPagePrevious => menu_step(MenuMove::PreviousPage, st),
        EventView::HistoryHintComplete => hint_step(st.complete_hint, st),
        EventView::HistoryHintWordComplete => hint_step(st.hint_token, st),
        EventView::Esc => EditorStepView::Leave,
        EventView::CtrlD => if st.buffer@.len() == 0 {
            EditorStepView::ExitOnCtrlD
        } else {
            EditorStepView::RunCommands(seq![EditCommand::Delete])
        },
        EventView::CtrlC => EditorStepView::ExitOnCtrlC,
        EventView::ClearScreen => EditorStepView::ClearScreen,
        EventView::ClearScrollback => EditorStepView::ClearScrollback,
        EventView::Enter => if st.menu_active {
            EditorStepView::AcceptMenu
        } else {
            submit_or_newline(st.validator_complete)
        },
        EventView::Submit => if st.menu_active {
            EditorStepView::AcceptMenu
        } else {
            EditorStepView::Submit
        },
        EventView::SubmitOrNewline => if st.menu_active {
            EditorStepView::AcceptMenu
        } else if !st.cursor_at_end {
            EditorStepView::RunCommands(seq![EditCommand::InsertNewline])
        } else {
            submit_or_newline(st.validator_complete)
        },
        EventView::ExecuteHostCommand(s) => EditorStepView::HostCommand(s),
        EventView::Edit(c) => EditorStepView::Edit(c),
        EventView::OpenEditor => EditorStepView::OpenEditor,
        EventView::Resize(w, h) => EditorStepView::Resize(w, h),
        EventView::Repaint => EditorStepView::Repaint,
        EventView::PreviousHistory => EditorStepView::PreviousHistory,
        EventView::NextHistory => EditorStepView::NextHistory,
        EventView::Up => EditorStepView::Up,
        EventView::Down => EditorStepView::Down,
        EventView::Left => EditorStepView::RunCommands(seq![EditCommand::MoveLeft { select: false }]),
        EventView::Right => EditorStepView::RunCommands(seq![EditCommand::MoveRight { select: false }]),
        EventView::ToStart => EditorStepView::ToStart,
        EventView::ToEnd => EditorStepView::ToEnd,
        EventView::SearchHistory => EditorStepView::SearchHistory,
        EventView::Multiple(_) => EditorStepView::HandleEach,
        EventView::UntilFound(_) => EditorStepView::HandleFirstOf,
        EventView::ViChangeMode(_) | EventView::HelixChangeMode(_) => EditorStepView::ChangeMode,
        EventView::SwitchMode(m) => if same_mode(m, st.mode) {
            EditorStepView::Inapplicable
        } else {
            EditorStepView::SwitchMode
        },
        EventView::Mouse { column, row, button } => if button == MouseButton::Left {
            EditorStepView::Click { column, row }
        } else {
            EditorStepView::Repaint
        },
        EventView::Nothing => EditorStepView::Inapplicable,
    }
}


/// Copies of the commands of `v`, in order.
fn copy_commands(v: &Vec<EditCommand>) -> (r: Vec<EditCommand>)
    ensures
        r@ == v@,
{
    let mut w: Vec<EditCommand> = Vec::new();
    let mut i: usize = 0;
    while i < v.len()
        invariant
            i <= v.len(),
            w@ == v@.take(i as int),
        decreases v.len() - i,
    {
        w.push(v[i].duplicate());
        proof {
            assert(v@.take(i + 1) == v@.take(i as int).push(v@[i as int]));
        }
        i = i + 1;
    }
    proof {
        assert(v@.take(v.len() as int) == v@);
    }
    w
}

/// A single command to run.
fn one_command(c: EditCommand) -> (r: EditorStep)
    ensures
        r@ == EditorStepView::RunCommands(seq![c]),
{
    let v = vec![c];
    proof {
        assert(v@ == seq![c]);
    }
    EditorStep::RunCommands(v)
}

/// The position of the first menu called `name`.
fn menu_position(names: &Vec<String>, name: &String) -> (r: Option<usize>)
    ensures
        r == first_named_from(names@, name@, 0),
{
    let mut i: usize = 0;
    while i < names.len()
        invariant
            i <= names@.len(),
            first_named_from(names@, name@, i as int) == first_named_from(names@, name@, 0),
        decreases names.len() - i,
    {
        if str_equals(names[i].as_str(), name.as_str()) {
            return Some(i);
        }
        i = i + 1;
    }
    None
}

/// Whether the two edit-mode states are the same.
fn modes_equal(a: &PromptEditMode, b: &PromptEditMode) -> (r: bool)
    ensures
        r == same_mode(*a, *b),
{
    match (a, b) {
        (PromptEditMode::Custom(x), PromptEditMode::Custom(y)) => str_equals(x.as_str(), y.as_str()),
        (PromptEditMode::Custom(_), _) => false,
        (_, PromptEditMode::Custom(_)) => false,
        (PromptEditMode::Default, PromptEditMode::Default) => true,
        (PromptEditMode::Emacs, PromptEditMode::Emacs) => true,
        (PromptEditMode::Vi(x), PromptEditMode::Vi(y)) => *x == *y,
        (PromptEditMode::Helix(x), PromptEditMode::Helix(y)) => *x == *y,
        _ => false,
    }
}

/// What submitting does, as the validator answers.
fn submit_step(validator_complete: Option<bool>) -> (r: EditorStep)
    ensures
        r@ == submit_or_newline(validator_complete),
{
    match validator_complete {
        Some(false) => one_command(EditCommand::InsertNewline),
        _ => EditorStep::Submit,
    }
}

/// What taking `hint` does in the state `st`.
fn take_hint(hint: &Option<String>, st: &EditorSnapshot) -> (r: EditorStep)
    ensures
        r@ == hint_step(*hint, *st),
{
    match hint {
        Some(h) => if st.hints_active && st.cursor_at_end && h.as_str().unicode_len() > 0 && !st.menu_active {
            EditorStep::AppendHint(h.clone())
        } else {
            EditorStep::Inapplicable
        },
        None => EditorStep::Inapplicable,
    }
}

/// A move inside the open menu, where one is open.
fn move_in_menu(m: MenuMove, st: &EditorSnapshot) -> (r: EditorStep)
    ensures
        r@ == menu_step(m, *st),
{
    if st.menu_active {
        EditorStep::Menu(m)
    } else {
        EditorStep::Inapplicable
    }
}

/// Decides what `event` does while the line is edited, in the state `st`.
pub fn editor_event_step(event: &ReedlineEvent, st: &EditorSnapshot) -> (r: EditorStep)
    ensures
        r@ == editor_step(event@, *st),
{
    match event {
        ReedlineEvent::Menu(name) => if st.menu_active {
            EditorStep::Inapplicable
        } else {
            match menu_position(&st.menu_names, name) {
                Some(i) => EditorStep::ActivateMenu(i),
                None => EditorStep::Inapplicable,
            }
        },
        ReedlineEvent::MenuAccept => if st.menu_active && st.menu_has_values {
            EditorStep::AcceptMenu
        } else {
            EditorStep::Inapplicable
        },
        ReedlineEvent::MenuNext => if !st.menu_active {
            EditorStep::Inapplicable
        } else if st.menu_quick_completes {
            EditorStep::AcceptMenu
        } else if st.partial_completions {
            EditorStep::CompletePartiallyThenNext
        } else {
            EditorStep::Menu(MenuMove::NextElement)
        },
        ReedlineEvent::MenuPrevious => move_in_menu(MenuMove::PreviousElement, st),
        ReedlineEvent::MenuUp => move_in_menu(MenuMove::MoveUp, st),
        ReedlineEvent::MenuDown => move_in_menu(MenuMove::MoveDown, st),
        ReedlineEvent::MenuLeft => move_in_menu(MenuMove::MoveLeft, st),
        ReedlineEvent::MenuRight => move_in_menu(MenuMove::MoveRight, st),
        ReedlineEvent::MenuPageNext => move_in_menu(MenuMove::NextPage, st),
        ReedlineEvent::MenuPagePrevious => move_in_menu(MenuMove::PreviousPage, st),
        ReedlineEvent::HistoryHintComplete => take_hint(&st.complete_hint, st),
        ReedlineEvent::HistoryHintWordComplete => take_hint(&st.hint_token, st),
        ReedlineEvent::Esc => EditorStep::Leave,
        ReedlineEvent::CtrlD => if st.buffer.as_str().unicode_len() == 0 {
            EditorStep::ExitOnCtrlD
        } else {
            one_command(EditCommand::Delete)
        },
        ReedlineEvent::CtrlC => EditorStep::ExitOnCtrlC,
        ReedlineEvent::ClearScreen => EditorStep::ClearScreen,
        ReedlineEvent::ClearScrollback => EditorStep::ClearScrollback,
        ReedlineEvent::Enter => if st.menu_active {
            EditorStep::AcceptMenu
        } else {
            submit_step(st.validator_complete)
        },
        ReedlineEvent::Submit => if st.menu_active {
            EditorStep::AcceptMenu
        } else {
            EditorStep::Submit
        },
        ReedlineEvent::SubmitOrNewline => if st.menu_active {
            EditorStep::AcceptMenu
        } else if !st.cursor_at_end {
            one_command(EditCommand::InsertNewline)
        } else {
            submit_step(st.validator_complete)
        },
        ReedlineEvent::ExecuteHostCommand(s) => EditorStep::HostCommand(s.clone()),
        ReedlineEvent::Edit(c) => EditorStep::Edit(copy_commands(c)),
        ReedlineEvent::OpenEditor => EditorStep::OpenEditor,
        ReedlineEvent::Resize(w, h) => EditorStep::Resize(*w, *h),
        ReedlineEvent::Repaint => EditorStep::Repaint,
        ReedlineEvent::PreviousHistory => EditorStep::PreviousHistory,
        ReedlineEvent::NextHistory => EditorStep::NextHistory,
        ReedlineEvent::Up => EditorStep::Up,
        ReedlineEvent::Down => EditorStep::Down,
        ReedlineEvent::Left => one_command(EditCommand::MoveLeft { select: false }),
        ReedlineEvent::Right => one_command(EditCommand::MoveRight { select: false }),
        ReedlineEvent::ToStart => EditorStep::ToStart,
        ReedlineEvent::ToEnd => EditorStep::ToEnd,
        ReedlineEvent::SearchHistory => EditorStep::SearchHistory,
        ReedlineEvent::Multiple(_) => EditorStep::HandleEach,
        ReedlineEvent::UntilFound(_) => EditorStep::HandleFirstOf,
        ReedlineEvent::ViChangeMode(_) | ReedlineEvent::HelixChangeMode(_) => EditorStep::ChangeMode,
        ReedlineEvent::SwitchMode(m) => if modes_equal(m, &st.mode) {
            EditorStep::Inapplicable
        } else {
            EditorStep::SwitchMode
        },
        ReedlineEvent::Mouse { column, row, button } => if *button == MouseButton::Left {
            EditorStep::Click { column: *column, row: *row }
        } else {
            EditorStep::Repaint
        },
        ReedlineEvent::Nothing => EditorStep::Inapplicable,
    }
}

/// How the engine answers a step in the state `st`, where the step alone
/// decides it: `None` for a group, whose answer its events give (see
/// [`fold_each`] and [`fold_first_found`]), and for a mode change, which
/// the edit modes answer. Submitting ends the session with the buffer; an
/// edit is handled whatever follows it, since a lone menu value is taken
/// as `Enter` over an open menu is, and an expanded abbreviation is itself
/// an edit.
pub open spec fn step_answer(step: EditorStepView, st: EditorSnapshot, r: Option<EventStatus>) -> bool {
    match step {
        EditorStepView::Inapplicable => r == Some(EventStatus::Inapplicable),
        EditorStepView::ExitOnCtrlD => r == Some(EventStatus::Exits(Signal::CtrlD)),
        EditorStepView::ExitOnCtrlC => r == Some(EventStatus::Exits(Signal::CtrlC)),
        EditorStepView::HostCommand(c) => r matches Some(EventStatus::Exits(Signal::HostCommand(x)))
            && x@ == c,
        EditorStepView::Submit => r matches Some(EventStatus::Exits(Signal::Success(x))) && x@
            == st.buffer@,
        EditorStepView::HandleEach | EditorStepView::HandleFirstOf | EditorStepView::ChangeMode
        | EditorStepView::SwitchMode => r is None,
        _ => r == Some(EventStatus::Handled),
    }
}

impl EditorStep {
    /// How the engine answers this step in the state `st`, where the step
    /// alone decides it.
    pub fn answer(&self, st: &EditorSnapshot) -> (r: Option<EventStatus>)
        ensures
            step_answer(self@, *st, r),
    {
        match self {
            EditorStep::Inapplicable => Some(EventStatus::Inapplicable),
            EditorStep::ExitOnCtrlD => Some(EventStatus::Exits(Signal::CtrlD)),
            EditorStep::ExitOnCtrlC => Some(EventStatus::Exits(Signal::CtrlC)),
            EditorStep::HostCommand(c) => Some(EventStatus::Exits(Signal::HostCommand(c.clone()))),
            EditorStep::Submit => Some(EventStatus::Exits(Signal::Success(st.buffer.clone()))),
            EditorStep::HandleEach | EditorStep::HandleFirstOf | EditorStep::ChangeMode
            | EditorStep::SwitchMode => None,
            _ => Some(EventStatus::Handled),
        }
    }
}

/// What becomes of the open menu once the commands of an edit ran.
#[derive(Debug, PartialEq, Eq, Structural)]
pub enum EditMenuStep {
    /// Nothing more to do.
    Done,
    /// Close the menu, then settle it (see [`menu_settles_closed`]).
    CloseThenSettle,
    /// Tell the menu of the edit, update its values, and look at them
    /// (see [`after_menu_refresh`]).
    Refresh,
    /// Settle the menu (see [`menu_settles_closed`]).
    Settle,
    /// Take the menu's lone value, as `Enter` over an open menu does.
    AcceptLone,
    /// Complete the common prefix of the menu's values: nothing more to do
    /// where that completed something, else settle the menu.
    TryPartial,
}

/// The first command of an edit is a typed space, after which the
/// abbreviation before the cursor is expanded.
pub open spec fn expands_after(commands: Seq<EditCommand>) -> bool {
    commands.len() > 0 && commands[0] == EditCommand::InsertChar(' ')
}

/// The first command of an edit deletes backward or goes to the line
/// start, which closes a menu that is not persistent.
pub open spec fn closes_quick_menu(c: EditCommand) -> bool {
    c == EditCommand::Backspace || c == EditCommand::BackspaceWord || c
        == EditCommand::MoveToLineStart { select: false }
}

/// What becomes of the open menu once `commands` ran, in the state `st`.
pub open spec fn edit_menu_decision(commands: Seq<EditCommand>, st: EditorSnapshot) -> EditMenuStep {
    if !st.menu_active {
        EditMenuStep::Done
    } else if st.quick_completions && st.menu_can_quick_complete {
        if commands.len() > 0 && closes_quick_menu(commands[0]) && !st.persistent_menus {
            EditMenuStep::CloseThenSettle
        } else {
            EditMenuStep::Refresh
        }
    } else {
        EditMenuStep::Settle
    }
}

/// What follows a refresh of the menu's values, `values` of them: a lone
/// value asked for by `Complete` is taken; else `Complete` completes the
/// common prefix where that is on.
pub open spec fn refresh_decision(commands: Seq<EditCommand>, values: nat, partial_completions: bool) -> EditMenuStep {
    if commands.len() > 0 && commands[0] == EditCommand::Complete {
        if values == 1 {
            EditMenuStep::AcceptLone
        } else if partial_completions {
            EditMenuStep::TryPartial
        } else {
            EditMenuStep::Settle
        }
    } else {
        EditMenuStep::Settle
    }
}

/// Whether the abbreviation before the cursor is to be expanded once
/// `commands` ran.
pub fn edit_expands_abbreviation(commands: &Vec<EditCommand>) -> (r: bool)
    ensures
        r == expands_after(commands@),
{
    if commands.len() == 0 {
        return false;
    }
    match &commands[0] {
        EditCommand::InsertChar(c) => *c == ' ',
        _ => false,
    }
}

/// What becomes of the open menu once `commands` ran, in the state `st`.
pub fn edit_menu_step(commands: &Vec<EditCommand>, st: &EditorSnapshot) -> (r: EditMenuStep)
    ensures
        r == edit_menu_decision(commands@, *st),
{
    if !st.menu_active {
        EditMenuStep::Done
    } else if st.quick_completions && st.menu_can_quick_complete {
        let closes = commands.len() > 0 && match &commands[0] {
            EditCommand::Backspace | EditCommand::BackspaceWord => true,
            EditCommand::MoveToLineStart { select } => !*select,
            _ => false,
        };
        if closes && !st.persistent_menus {
            EditMenuStep::CloseThenSettle
        } else {
            EditMenuStep::Refresh
        }
    } else {
        EditMenuStep::Settle
    }
}

/// What follows a refresh of the open menu's values, `values` of them,
/// after `commands` ran.
pub fn after_menu_refresh(commands: &Vec<EditCommand>, values: usize, partial_completions: bool) -> (r: EditMenuStep)
    ensures
        r == refresh_decision(commands@, values as nat, partial_completions),
{
    let complete = commands.len() > 0 && match &commands[0] {
        EditCommand::Complete => true,
        _ => false,
    };
    if complete {
        if values == 1 {
            EditMenuStep::AcceptLone
        } else if partial_completions {
            EditMenuStep::TryPartial
        } else {
            EditMenuStep::Settle
        }
    } else {
        EditMenuStep::Settle
    }
}

/// Settling the open menu after an edit: it closes where menus are not
/// persistent and the buffer is now empty; else it is told of the edit.
pub fn menu_settles_closed(persistent_menus: bool, buffer_empty: bool) -> (r: bool)
    ensures
        r == (!persistent_menus && buffer_empty),
{
    !persistent_menus && buffer_empty
}

/// The answer of a group whose events are each handled in turn, given the
/// answers of its events: the first exit ends the group with that exit;
/// else the group was handled where any of its events was.
pub open spec fn each_status(s: Seq<EventStatus>) -> EventStatus
    decreases s.len(),
{
    if s.len() == 0 {
        EventStatus::Inapplicable
    } else {
        match s[0] {
            EventStatus::Exits(sig) => EventStatus::Exits(sig),
            EventStatus::Handled => match each_status(s.drop_first()) {
                EventStatus::Exits(sig) => EventStatus::Exits(sig),
                _ => EventStatus::Handled,
            },
            EventStatus::Inapplicable => each_status(s.drop_first()),
        }
    }
}

/// The answer of a group of alternatives, given the answers of its events
/// in turn: the first that is not inapplicable.
pub open spec fn first_found_status(s: Seq<EventStatus>) -> EventStatus
    decreases s.len(),
{
    if s.len() == 0 {
        EventStatus::Inapplicable
    } else if s[0] != EventStatus::Inapplicable {
        s[0]
    } else {
        first_found_status(s.drop_first())
    }
}

/// `rest` seen after events of which some were handled, where `handled`.
spec fn after_handled(handled: bool, rest: EventStatus) -> EventStatus {
    match rest {
        EventStatus::Inapplicable => if handled {
            EventStatus::Handled
        } else {
            EventStatus::Inapplicable
        },
        EventStatus::Handled => EventStatus::Handled,
        EventStatus::Exits(sig) => EventStatus::Exits(sig),
    }
}

/// The answer of a group whose events were each handled in turn, from the
/// answers they gave, in order.
pub fn fold_each(statuses: Vec<EventStatus>) -> (r: EventStatus)
    ensures
        r == each_status(statuses@),
{
    let mut handled = false;
    let mut i: usize = 0;
    proof {
        assert(statuses@.skip(0) == statuses@);
    }
    while i < statuses.len()
        invariant
            i <= statuses@.len(),
            each_status(statuses@) == after_handled(handled, each_status(statuses@.skip(i as int))),
        decreases statuses.len() - i,
    {
        let ghost rest = statuses@.skip(i as int);
        proof {
            assert(rest[0] == statuses@[i as int]);
            assert(rest.drop_first() == statuses@.skip(i + 1));
        }
        if matches!(statuses[i], EventStatus::Exits(_)) {
            let mut v = statuses;
            return v.remove(i);
        } else if matches!(statuses[i], EventStatus::Handled) {
            handled = true;
        }
        i = i + 1;
    }
    proof {
        assert(statuses@.skip(i as int).len() == 0);
    }
    if handled {
        EventStatus::Handled
    } else {
        EventStatus::Inapplicable
    }
}

/// The answer of a group of alternatives that were tried in turn, from the
/// answers they gave, in order.
pub fn fold_first_found(statuses: Vec<EventStatus>) -> (r: EventStatus)
    ensures
        r == first_found_status(statuses@),
{
    let mut i: usize = 0;
    proof {
        assert(statuses@.skip(0) == statuses@);
    }
    while i < statuses.len()
        invariant
            i <= statuses@.len(),
            first_found_status(statuses@) == first_found_status(statuses@.skip(i as int)),
        decreases statuses.len() - i,
    {
        let ghost rest = statuses@.skip(i as int);
        proof {
            assert(rest[0] == statuses@[i as int]);
            assert(rest.drop_first() == statuses@.skip(i + 1));
        }
        if !matches!(statuses[i], EventStatus::Inapplicable) {
            let mut v = statuses;
            return v.remove(i);
        }
        i = i + 1;
    }
    proof {
        assert(statuses@.skip(i as int).len() == 0);
    }
    EventStatus::Inapplicable
}

/// A group whose events are each handled ends with its first exit; with no
/// exit among its answers it was handled if any event was, and is
/// inapplicable otherwise.
pub proof fn each_status_law(s: Seq<EventStatus>)
    ensures
        forall|i: int|
            0 <= i < s.len() && s[i] is Exits && (forall|j: int| 0 <= j < i ==> !(s[j] is Exits))
                ==> each_status(s) == s[i],
        (forall|j: int| 0 <= j < s.len() ==> !(s[j] is Exits)) ==> each_status(s) == (if exists|
            j: int,
        | 0 <= j < s.len() && s[j] is Handled {
            EventStatus::Handled
        } else {
            EventStatus::Inapplicable
        }),
    decreases s.len(),
{
    if s.len() > 0 {
        let t = s.drop_first();
        each_status_law(t);
        assert forall|i: int|
            0 <= i < s.len() && s[i] is Exits && (forall|j: int| 0 <= j < i ==> !(s[j] is Exits))
                implies each_status(s) == s[i] by {
            if i > 0 {
                assert(t[i - 1] == s[i]);
                assert forall|j: int| 0 <= j < i - 1 implies !(t[j] is Exits) by {
                    assert(t[j] == s[j + 1]);
                }
            }
        }
        if forall|j: int| 0 <= j < s.len() ==> !(s[j] is Exits) {
            assert forall|j: int| 0 <= j < t.len() implies !(t[j] is Exits) by {
                assert(t[j] == s[j + 1]);
            }
            if exists|j: int| 0 <= j < t.len() && t[j] is Handled {
                let j = choose|j: int| 0 <= j < t.len() && t[j] is Handled;
                assert(s[j + 1] == t[j]);
            }
            if exists|j: int| 0 <= j < s.len() && s[j] is Handled {
                let j = choose|j: int| 0 <= j < s.len() && s[j] is Handled;
                if j > 0 {
                    assert(t[j - 1] == s[j]);
                }
            }
        }
    }
}

/// A group of alternatives answers as the first of them that applies, and
/// is inapplicable where none does.
pub proof fn first_found_law(s: Seq<EventStatus>)
    ensures
        forall|i: int|
            0 <= i < s.len() && s[i] != EventStatus::Inapplicable && (forall|j: int|
                0 <= j < i ==> s[j] == EventStatus::Inapplicable) ==> first_found_status(s) == s[i],
        (forall|j: int| 0 <= j < s.len() ==> s[j] == EventStatus::Inapplicable)
            ==> first_found_status(s) == EventStatus::Inapplicable,
    decreases s.len(),
{
    if s.len() > 0 {
        let t = s.drop_first();
        first_found_law(t);
        assert forall|i: int|
            0 <= i < s.len() && s[i] != EventStatus::Inapplicable && (forall|j: int|
                0 <= j < i ==> s[j] == EventStatus::Inapplicable) implies first_found_status(s)
            == s[i] by {
            if i > 0 {
                assert(t[i - 1] == s[i]);
                assert forall|j: int| 0 <= j < i - 1 implies t[j] == EventStatus::Inapplicable by {
                    assert(t[j] == s[j + 1]);
                }
            }
        }
        if forall|j: int| 0 <= j < s.len() ==> s[j] == EventStatus::Inapplicable {
            assert forall|j: int| 0 <= j < t.len() implies t[j] == EventStatus::Inapplicable by {
                assert(t[j] == s[j + 1]);
            }
        }
    }
}
} // verus!
