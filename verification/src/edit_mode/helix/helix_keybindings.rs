//! The default Helix keybinding tables: the keys the key machine does
//! not interpret itself.
use vstd::prelude::*;

use crate::edit_mode::keybindings::{
    add_common_control_bindings, add_common_edit_bindings, add_common_navigation_bindings,
    add_common_selection_bindings, common_control_bindings, common_edit_bindings,
    common_navigation_bindings, common_selection_bindings, edit_bind, Keybindings,
};
use crate::enums::{Direction, EditCommand, EventView, MotionTarget, WordEdge, WordKind};
use crate::keys::{KeyCode, KeyCombination, KeyModifiers};

verus! {

pub open spec fn kc(bits: u8, code: KeyCode) -> KeyCombination {
    KeyCombination { modifier: KeyModifiers { bits }, key_code: code }
}

/// The default normal-mode table: the common control, navigation and
/// selection bindings; `Backspace` moves left and `Delete` deletes;
/// `Alt-d` drops the selection without filling the register and
/// ``Alt-` `` uppercases it.
pub open spec fn helix_normal_bindings() -> Map<KeyCombination, EventView> {
    Map::<KeyCombination, EventView>::empty().union_prefer_right(common_control_bindings()).union_prefer_right(
        common_navigation_bindings(),
    ).union_prefer_right(common_selection_bindings()).insert(
        kc(0, KeyCode::Backspace),
        EventView::Edit(seq![EditCommand::MoveLeft { select: false }]),
    ).insert(kc(0, KeyCode::Delete), EventView::Edit(seq![EditCommand::Delete])).insert(
        kc(4, KeyCode::Char('d')),
        EventView::Edit(seq![EditCommand::EraseSelection]),
    ).insert(kc(4, KeyCode::Char('`')), EventView::Edit(seq![EditCommand::UppercaseSelection]))
}

pub open spec fn word_start(direction: Direction) -> MotionTarget {
    MotionTarget::Word { kind: WordKind::Word, edge: WordEdge::Start, direction }
}

fn word_start_target(direction: Direction) -> (r: MotionTarget)
    ensures
        r == word_start(direction),
{
    MotionTarget::Word { kind: WordKind::Word, edge: WordEdge::Start, direction }
}

/// What select mode binds in place of normal mode: every navigation key
/// extends the selection as its modal twin does, and up and down never
/// reach menus or history.
pub open spec fn helix_select_overrides() -> Map<KeyCombination, EventView> {
    map![
        kc(0, KeyCode::Left) => EventView::Edit(seq![EditCommand::Extend(MotionTarget::Grapheme(Direction::Backward))]),
        kc(0, KeyCode::Right) => EventView::Edit(seq![EditCommand::Extend(MotionTarget::Grapheme(Direction::Forward))]),
        kc(0, KeyCode::Up) => EventView::Edit(seq![EditCommand::MoveLineUp { select: true }]),
        kc(0, KeyCode::Down) => EventView::Edit(seq![EditCommand::MoveLineDown { select: true }]),
        kc(2, KeyCode::Char('p')) => EventView::Edit(seq![EditCommand::MoveLineUp { select: true }]),
        kc(2, KeyCode::Char('n')) => EventView::Edit(seq![EditCommand::MoveLineDown { select: true }]),
        kc(2, KeyCode::Left) => EventView::Edit(seq![EditCommand::Extend(word_start(Direction::Backward))]),
        kc(2, KeyCode::Right) => EventView::Edit(seq![EditCommand::Extend(word_start(Direction::Forward))]),
        kc(0, KeyCode::Home) => EventView::Edit(seq![EditCommand::Extend(MotionTarget::LineEdge(Direction::Backward))]),
        kc(0, KeyCode::End) => EventView::Edit(seq![EditCommand::Extend(MotionTarget::LineEdge(Direction::Forward))]),
        kc(2, KeyCode::Char('a')) => EventView::Edit(seq![EditCommand::Extend(MotionTarget::LineEdge(Direction::Backward))]),
        kc(2, KeyCode::Char('e')) => EventView::Edit(seq![EditCommand::Extend(MotionTarget::LineEdge(Direction::Forward))]),
        kc(2, KeyCode::Home) => EventView::Edit(seq![EditCommand::Extend(MotionTarget::BufferEdge(Direction::Backward))]),
        kc(2, KeyCode::End) => EventView::Edit(seq![EditCommand::Extend(MotionTarget::BufferEdge(Direction::Forward))]),
        kc(4, KeyCode::Char('<')) => EventView::Edit(seq![EditCommand::Extend(MotionTarget::BufferEdge(Direction::Backward))]),
        kc(4, KeyCode::Char('>')) => EventView::Edit(seq![EditCommand::Extend(MotionTarget::BufferEdge(Direction::Forward))]),
        kc(5, KeyCode::Char(',')) => EventView::Edit(seq![EditCommand::Extend(MotionTarget::BufferEdge(Direction::Backward))]),
        kc(5, KeyCode::Char('.')) => EventView::Edit(seq![EditCommand::Extend(MotionTarget::BufferEdge(Direction::Forward))]),
        kc(0, KeyCode::Backspace) => EventView::Edit(seq![EditCommand::Extend(MotionTarget::Grapheme(Direction::Backward))]),
    ]
}

/// The default insert-mode table, the same as Vi's.
pub open spec fn helix_insert_bindings() -> Map<KeyCombination, EventView> {
    Map::<KeyCombination, EventView>::empty().union_prefer_right(common_control_bindings()).union_prefer_right(
        common_navigation_bindings(),
    ).union_prefer_right(common_edit_bindings()).union_prefer_right(common_selection_bindings())
}

/// The default Helix normal-mode keybindings.
pub fn default_helix_normal_keybindings() -> (r: Keybindings)
    ensures
        r.wf(),
        r.combos() == helix_normal_bindings(),
        r.sequences() == Map::<Seq<KeyCombination>, EventView>::empty(),
{
    let mut kb = Keybindings::new();
    add_common_control_bindings(&mut kb);
    add_common_navigation_bindings(&mut kb);
    add_common_selection_bindings(&mut kb);
    kb.add_binding(
        KeyModifiers::none(),
        KeyCode::Backspace,
        edit_bind(EditCommand::MoveLeft { select: false }),
    );
    kb.add_binding(KeyModifiers::none(), KeyCode::Delete, edit_bind(EditCommand::Delete));
    kb.add_binding(KeyModifiers::alt(), KeyCode::Char('d'), edit_bind(EditCommand::EraseSelection));
    kb.add_binding(
        KeyModifiers::alt(),
        KeyCode::Char('`'),
        edit_bind(EditCommand::UppercaseSelection),
    );
    kb
}

/// The default Helix select-mode keybindings: the normal table with its
/// navigation keys rebound to extend.
pub fn default_helix_select_keybindings() -> (r: Keybindings)
    ensures
        r.wf(),
        r.combos() == helix_normal_bindings().union_prefer_right(helix_select_overrides()),
        r.sequences() == Map::<Seq<KeyCombination>, EventView>::empty(),
{
    let mut kb = default_helix_normal_keybindings();
    kb.add_binding(KeyModifiers::none(), KeyCode::Left, edit_bind(EditCommand::Extend(MotionTarget::Grapheme(Direction::Backward))));
    kb.add_binding(KeyModifiers::none(), KeyCode::Right, edit_bind(EditCommand::Extend(MotionTarget::Grapheme(Direction::Forward))));
    kb.add_binding(KeyModifiers::none(), KeyCode::Up, edit_bind(EditCommand::MoveLineUp { select: true }));
    kb.add_binding(KeyModifiers::none(), KeyCode::Down, edit_bind(EditCommand::MoveLineDown { select: true }));
    kb.add_binding(KeyModifiers::control(), KeyCode::Char('p'), edit_bind(EditCommand::MoveLineUp { select: true }));
    kb.add_binding(KeyModifiers::control(), KeyCode::Char('n'), edit_bind(EditCommand::MoveLineDown { select: true }));
    kb.add_binding(KeyModifiers::control(), KeyCode::Left, edit_bind(EditCommand::Extend(word_start_target(Direction::Backward))));
    kb.add_binding(KeyModifiers::control(), KeyCode::Right, edit_bind(EditCommand::Extend(word_start_target(Direction::Forward))));
    kb.add_binding(KeyModifiers::none(), KeyCode::Home, edit_bind(EditCommand::Extend(MotionTarget::LineEdge(Direction::Backward))));
    kb.add_binding(KeyModifiers::none(), KeyCode::End, edit_bind(EditCommand::Extend(MotionTarget::LineEdge(Direction::Forward))));
    kb.add_binding(KeyModifiers::control(), KeyCode::Char('a'), edit_bind(EditCommand::Extend(MotionTarget::LineEdge(Direction::Backward))));
    kb.add_binding(KeyModifiers::control(), KeyCode::Char('e'), edit_bind(EditCommand::Extend(MotionTarget::LineEdge(Direction::Forward))));
    kb.add_binding(KeyModifiers::control(), KeyCode::Home, edit_bind(EditCommand::Extend(MotionTarget::BufferEdge(Direction::Backward))));
    kb.add_binding(KeyModifiers::control(), KeyCode::End, edit_bind(EditCommand::Extend(MotionTarget::BufferEdge(Direction::Forward))));
    kb.add_binding(KeyModifiers::alt(), KeyCode::Char('<'), edit_bind(EditCommand::Extend(MotionTarget::BufferEdge(Direction::Backward))));
    kb.add_binding(KeyModifiers::alt(), KeyCode::Char('>'), edit_bind(EditCommand::Extend(MotionTarget::BufferEdge(Direction::Forward))));
    kb.add_binding(KeyModifiers { bits: 5 }, KeyCode::Char(','), edit_bind(EditCommand::Extend(MotionTarget::BufferEdge(Direction::Backward))));
    kb.add_binding(KeyModifiers { bits: 5 }, KeyCode::Char('.'), edit_bind(EditCommand::Extend(MotionTarget::BufferEdge(Direction::Forward))));
    kb.add_binding(KeyModifiers::none(), KeyCode::Backspace, edit_bind(EditCommand::Extend(MotionTarget::Grapheme(Direction::Backward))));
    assert(kb.combos() =~= helix_normal_bindings().union_prefer_right(helix_select_overrides()));
    kb
}

/// The default Helix insert-mode keybindings.
pub fn default_helix_insert_keybindings() -> (r: Keybindings)
    ensures
        r.wf(),
        r.combos() == helix_insert_bindings(),
        r.sequences() == Map::<Seq<KeyCombination>, EventView>::empty(),
{
    let mut kb = Keybindings::new();
    add_common_control_bindings(&mut kb);
    add_common_navigation_bindings(&mut kb);
    add_common_edit_bindings(&mut kb);
    add_common_selection_bindings(&mut kb);
    kb
}

// ── Laws ──────────────────────────────────────────────────────────────
/// Whether `e` can reach a menu, the history, or a history hint.
pub open spec fn reaches_history(e: EventView) -> bool
    decreases e,
{
    match e {
        EventView::HistoryHintComplete | EventView::HistoryHintWordComplete | EventView::Up
        | EventView::Down | EventView::PreviousHistory | EventView::NextHistory
        | EventView::MenuUp | EventView::MenuDown | EventView::MenuLeft | EventView::MenuRight => true,
        EventView::UntilFound(es) => exists|i: int| 0 <= i < es.len() && #[trigger] reaches_history(es[i]),
        EventView::Multiple(es) => exists|i: int| 0 <= i < es.len() && #[trigger] reaches_history(es[i]),
        _ => false,
    }
}

/// In select mode no key reaches a menu, the history or a history hint:
/// up and down move by line and extend the selection, since the history
/// would replace the buffer the selection is anchored in, and accepting a
/// hint, which inserts text, is bound in normal mode only.
pub proof fn select_keys_never_reach_history(k: KeyCombination)
    requires
        helix_normal_bindings().union_prefer_right(helix_select_overrides()).dom().contains(k),
    ensures
        !reaches_history(helix_normal_bindings().union_prefer_right(helix_select_overrides())[k]),
{
}

} // verus!
