//! The actions of the small two-mode Helix machine.
use vstd::prelude::*;

use crate::enums::{EditCommand, EventView, ReedlineEvent};

verus! {

/// What a key in the two-mode machine asks for.
#[derive(Clone, Copy, Debug, PartialEq, Eq, Hash, Structural)]
pub enum HelixAction {
    Type(char),
    MoveCharRight,
    MoveCharLeft,
    NoOp,
}

/// The event an action stands for, if any.
pub open spec fn action_event(a: HelixAction) -> Option<EventView> {
    match a {
        HelixAction::Type(c) => Some(EventView::Edit(seq![EditCommand::InsertChar(c)])),
        HelixAction::MoveCharLeft => Some(EventView::Edit(seq![EditCommand::MoveLeft { select: false }])),
        HelixAction::MoveCharRight => Some(
            EventView::Edit(seq![EditCommand::MoveRight { select: false }]),
        ),
        HelixAction::NoOp => None,
    }
}

impl HelixAction {
    /// The event the action stands for; a no-op stands for none.
    pub fn into_reedline_event(self) -> (r: Option<ReedlineEvent>)
        ensures
            match action_event(self) {
                Some(e) => r is Some && r->0@ == e,
                None => r is None,
            },
    {
        let cmd = match self {
            HelixAction::Type(c) => EditCommand::InsertChar(c),
            HelixAction::MoveCharLeft => EditCommand::MoveLeft { select: false },
            HelixAction::MoveCharRight => EditCommand::MoveRight { select: false },
            HelixAction::NoOp => {
                return None;
            },
        };
        let v = vec![cmd];
        assert(v@ == seq![cmd]);
        Some(ReedlineEvent::Edit(v))
    }
}

impl Default for HelixAction {
    fn default() -> (r: Self)
        ensures
            r == HelixAction::NoOp,
    {
        HelixAction::NoOp
    }
}

} // verus!
