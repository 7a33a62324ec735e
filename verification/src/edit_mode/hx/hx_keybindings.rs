//! The default keybinding tables of the selection-first Helix mode.
use vstd::prelude::*;

use crate::edit_mode::keybindings::{
    add_common_control_bindings, add_common_edit_bindings, add_common_navigation_bindings,
    common_control_bindings, common_edit_bindings, common_navigation_bindings, Keybindings,
};
use crate::enums::EventView;
use crate::keys::KeyCombination;

verus! {

/// The default normal-mode table: the common control and navigation
/// bindings.
pub open spec fn hx_normal_bindings() -> Map<KeyCombination, EventView> {
    Map::<KeyCombination, EventView>::empty().union_prefer_right(common_control_bindings()).union_prefer_right(
        common_navigation_bindings(),
    )
}

/// The default insert-mode table: the common control, navigation and
/// edit bindings.
pub open spec fn hx_insert_bindings() -> Map<KeyCombination, EventView> {
    hx_normal_bindings().union_prefer_right(common_edit_bindings())
}

/// The default normal-mode keybindings.
pub fn default_hx_normal_keybindings() -> (r: Keybindings)
    ensures
        r.wf(),
        r.combos() == hx_normal_bindings(),
        r.sequences() == Map::<Seq<KeyCombination>, EventView>::empty(),
{
    let mut kb = Keybindings::new();
    add_common_control_bindings(&mut kb);
    add_common_navigation_bindings(&mut kb);
    kb
}

/// The default insert-mode keybindings.
pub fn default_hx_insert_keybindings() -> (r: Keybindings)
    ensures
        r.wf(),
        r.combos() == hx_insert_bindings(),
        r.sequences() == Map::<Seq<KeyCombination>, EventView>::empty(),
{
    let mut kb = Keybindings::new();
    add_common_control_bindings(&mut kb);
    add_common_navigation_bindings(&mut kb);
    add_common_edit_bindings(&mut kb);
    kb
}

} // verus!
