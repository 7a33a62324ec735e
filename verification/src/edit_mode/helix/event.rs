//! Key handling of the small two-mode Helix machine that needs no machine:
//! the interrupt key and the event of a bare mode change.
use vstd::prelude::*;

use super::action::{action_event, HelixAction};
use crate::enums::{EventView, ReedlineEvent};
use crate::keys::{KeyCode, KeyModifiers};

verus! {

/// `Ctrl-C` interrupts whatever the machine is doing.
pub fn is_interrupt_event(code: KeyCode, modifiers: KeyModifiers) -> (r: bool)
    ensures
        r == (code == KeyCode::Char('c') && modifiers.bits == 2),
{
    code == KeyCode::Char('c') && modifiers.bits == 2
}

/// A key that only changed the mode repaints the prompt; otherwise
/// nothing happens.
pub fn mode_change_event(mode_changed: bool) -> (r: ReedlineEvent)
    ensures
        r@ == (if mode_changed {
            EventView::Repaint
        } else {
            EventView::Nothing
        }),
{
    if mode_changed {
        ReedlineEvent::Repaint
    } else {
        ReedlineEvent::Nothing
    }
}

/// The event of a key the machine took: that of the action it gave, or,
/// when it gave none or one with no event, a repaint if only the mode
/// changed.
pub fn key_outcome(action: Option<HelixAction>, mode_changed: bool) -> (r: ReedlineEvent)
    ensures
        r@ == match action {
            Some(a) => match action_event(a) {
                Some(e) => e,
                None => if mode_changed {
                    EventView::Repaint
                } else {
                    EventView::Nothing
                },
            },
            None => if mode_changed {
                EventView::Repaint
            } else {
                EventView::Nothing
            },
        },
{
    match action {
        Some(a) => match a.into_reedline_event() {
            Some(e) => e,
            None => mode_change_event(mode_changed),
        },
        None => mode_change_event(mode_changed),
    }
}

} // verus!
