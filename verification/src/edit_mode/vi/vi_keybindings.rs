//! The default Vi keybinding tables.
use vstd::prelude::*;

use crate::edit_mode::keybindings::{
    add_common_control_bindings, add_common_edit_bindings, add_common_navigation_bindings,
    add_common_selection_bindings, common_control_bindings, common_edit_bindings,
    common_navigation_bindings, common_selection_bindings, edit_bind, Keybindings,
};
use crate::enums::{EditCommand, EventView};
use crate::keys::{KeyCode, KeyCombination, KeyModifiers};

verus! {

/// The default normal-mode table: the common control, navigation and
/// selection bindings, with `Backspace` moving left and `Delete`
/// deleting.
pub open spec fn vi_normal_bindings() -> Map<KeyCombination, EventView> {
    Map::<KeyCombination, EventView>::empty().union_prefer_right(common_control_bindings()).union_prefer_right(
        common_navigation_bindings(),
    ).union_prefer_right(common_selection_bindings()).insert(
        KeyCombination { modifier: KeyModifiers { bits: 0 }, key_code: KeyCode::Backspace },
        EventView::Edit(seq![EditCommand::MoveLeft { select: false }]),
    ).insert(
        KeyCombination { modifier: KeyModifiers { bits: 0 }, key_code: KeyCode::Delete },
        EventView::Edit(seq![EditCommand::Delete]),
    )
}

/// The default insert-mode table: the common control, navigation, edit
/// and selection bindings.
pub open spec fn vi_insert_bindings() -> Map<KeyCombination, EventView> {
    Map::<KeyCombination, EventView>::empty().union_prefer_right(common_control_bindings()).union_prefer_right(
        common_navigation_bindings(),
    ).union_prefer_right(common_edit_bindings()).union_prefer_right(common_selection_bindings())
}

/// The default Vi normal-mode keybindings.
pub fn default_vi_normal_keybindings() -> (r: Keybindings)
    ensures
        r.wf(),
        r.combos() == vi_normal_bindings(),
        r.sequences() == Map::<Seq<KeyCombination>, EventView>::empty(),
{
    let mut kb = Keybindings::new();
    add_common_control_bindings(&mut kb);
    add_common_navigation_bindings(&mut kb);
    add_common_selection_bindings(&mut kb);
    kb.add_binding(
        KeyModifiers::none(),
        KeyCode::Backspace,
        edit_bind(EditCommand::MoveLeft { select: false }),
    );
    kb.add_binding(KeyModifiers::none(), KeyCode::Delete, edit_bind(EditCommand::Delete));
    kb
}

/// The default Vi insert-mode keybindings.
pub fn default_vi_insert_keybindings() -> (r: Keybindings)
    ensures
        r.wf(),
        r.combos() == vi_insert_bindings(),
        r.sequences() == Map::<Seq<KeyCombination>, EventView>::empty(),
{
    let mut kb = Keybindings::new();
    add_common_control_bindings(&mut kb);
    add_common_navigation_bindings(&mut kb);
    add_common_edit_bindings(&mut kb);
    add_common_selection_bindings(&mut kb);
    kb
}

} // verus!
