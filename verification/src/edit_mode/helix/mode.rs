//! The modes of the small two-mode Helix machine, what a key without a
//! binding does in each, and the machine's bindings.
use vstd::prelude::*;

use super::action::HelixAction;
use super::key::HelixKey;
use crate::keys::KeyCode;

verus! {

/// The two modes of the machine.
#[derive(Clone, Copy, Debug, PartialEq, Eq, Hash, Structural)]
pub enum HelixMode {
    Insert,
    Normal,
}

impl Default for HelixMode {
    fn default() -> (r: Self)
        ensures
            r == HelixMode::Insert,
    {
        HelixMode::Insert
    }
}

/// What a bound key does: an action, and the mode to go to.
pub type HelixStep = (Option<HelixAction>, Option<HelixMode>);

/// What a key without a binding does in `mode`: in insert mode a
/// character key with no modifier but Shift types its character;
/// anything else does nothing, and the mode stays.
pub open spec fn unmapped_step(mode: HelixMode, key: HelixKey) -> (Seq<HelixAction>, Option<HelixMode>) {
    match (mode, key.code) {
        (HelixMode::Insert, KeyCode::Char(c)) => if key.modifiers.bits & 0xfe == 0 {
            (seq![HelixAction::Type(c)], None)
        } else {
            (Seq::empty(), None)
        },
        _ => (Seq::empty(), None),
    }
}

impl HelixMode {
    /// What a key without a binding does in this mode.
    pub fn unmapped(&self, key: &HelixKey) -> (r: (Vec<HelixAction>, Option<HelixMode>))
        ensures
            (r.0@, r.1) == unmapped_step(*self, *key),
    {
        match self {
            HelixMode::Normal => (Vec::new(), None),
            HelixMode::Insert => {
                if let Some(c) = key.get_char() {
                    let v = vec![HelixAction::Type(c)];
                    assert(v@ == seq![HelixAction::Type(c)]);
                    return (v, None);
                }
                (Vec::new(), None)
            },
        }
    }
}

/// The machine's bindings, by mode, key and step: `Esc` leaves insert
/// mode; in normal mode `i` enters insert mode, `h`/`Left` and
/// `l`/`Right` move a character, and `a` moves right into insert mode.
pub open spec fn machine_bindings() -> Seq<(HelixMode, KeyCode, HelixStep)> {
    seq![
        (HelixMode::Insert, KeyCode::Esc, (None, Some(HelixMode::Normal))),
        (HelixMode::Normal, KeyCode::Char('i'), (None, Some(HelixMode::Insert))),
        (HelixMode::Normal, KeyCode::Char('h'), (Some(HelixAction::MoveCharLeft), None)),
        (HelixMode::Normal, KeyCode::Left, (Some(HelixAction::MoveCharLeft), None)),
        (HelixMode::Normal, KeyCode::Char('l'), (Some(HelixAction::MoveCharRight), None)),
        (HelixMode::Normal, KeyCode::Right, (Some(HelixAction::MoveCharRight), None)),
        (HelixMode::Normal, KeyCode::Char('a'), (Some(HelixAction::MoveCharRight), Some(HelixMode::Insert))),
    ]
}

/// The bindings the machine is set up with, each a single unmodified key.
pub fn setup_bindings() -> (r: Vec<(HelixMode, KeyCode, HelixStep)>)
    ensures
        r@ == machine_bindings(),
{
    let v = vec![
        (HelixMode::Insert, KeyCode::Esc, (None, Some(HelixMode::Normal))),
        (HelixMode::Normal, KeyCode::Char('i'), (None, Some(HelixMode::Insert))),
        (HelixMode::Normal, KeyCode::Char('h'), (Some(HelixAction::MoveCharLeft), None)),
        (HelixMode::Normal, KeyCode::Left, (Some(HelixAction::MoveCharLeft), None)),
        (HelixMode::Normal, KeyCode::Char('l'), (Some(HelixAction::MoveCharRight), None)),
        (HelixMode::Normal, KeyCode::Right, (Some(HelixAction::MoveCharRight), None)),
        (HelixMode::Normal, KeyCode::Char('a'), (Some(HelixAction::MoveCharRight), Some(HelixMode::Insert))),
    ];
    assert(v@ == machine_bindings());
    v
}

} // verus!
