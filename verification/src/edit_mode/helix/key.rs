//! The keys of the small two-mode Helix machine.
use vstd::prelude::*;

use crate::keys::{KeyCode, KeyModifiers};
use crate::text::{ascii_uppercase, is_ascii_uppercase, is_ascii_uppercase_char, to_ascii_uppercase};

verus! {

/// A key as the two-mode machine reads it.
#[derive(Clone, Copy, Debug, PartialEq, Eq, Hash, Structural)]
pub struct HelixKey {
    pub code: KeyCode,
    pub modifiers: KeyModifiers,
}

/// The key the machine reads for `code` under `modifiers`: a character
/// typed with Shift or Control is taken in upper case; an upper-case
/// character typed alone counts as shifted; and Shift alone is then
/// dropped, except on the space bar, so that a shifted letter is the
/// plain upper-case letter.
pub open spec fn normalized_key(code: KeyCode, modifiers: KeyModifiers) -> HelixKey {
    match code {
        KeyCode::Char(c) => {
            let shifted_or_ctrl = modifiers.bits & 3 != 0;
            let c2 = if shifted_or_ctrl {
                ascii_uppercase(c)
            } else {
                c
            };
            let m2 = if !shifted_or_ctrl && is_ascii_uppercase_char(c) {
                modifiers.bits | 1
            } else {
                modifiers.bits
            };
            let m3 = if m2 == 1 && c2 != ' ' {
                0
            } else {
                m2
            };
            HelixKey { code: KeyCode::Char(c2), modifiers: KeyModifiers { bits: m3 } }
        },
        _ => HelixKey { code, modifiers },
    }
}

impl HelixKey {
    /// The key the machine reads for `code` under `modifiers`.
    pub fn new(code: KeyCode, modifiers: KeyModifiers) -> (r: Self)
        ensures
            r == normalized_key(code, modifiers),
    {
        match code {
            KeyCode::Char(c) => {
                let shifted_or_ctrl = modifiers.bits & 3 != 0;
                let c2 = if shifted_or_ctrl {
                    to_ascii_uppercase(c)
                } else {
                    c
                };
                let m2 = if !shifted_or_ctrl && is_ascii_uppercase(c) {
                    modifiers.bits | 1
                } else {
                    modifiers.bits
                };
                let m3 = if m2 == 1 && c2 != ' ' {
                    0
                } else {
                    m2
                };
                HelixKey { code: KeyCode::Char(c2), modifiers: KeyModifiers { bits: m3 } }
            },
            _ => HelixKey { code, modifiers },
        }
    }

    /// The character the key types: a character key with no modifier but
    /// Shift.
    pub fn get_char(&self) -> (r: Option<char>)
        ensures
            r == match self.code {
                KeyCode::Char(c) => if self.modifiers.bits & 0xfe == 0 {
                    Some(c)
                } else {
                    None::<char>
                },
                _ => None::<char>,
            },
    {
        match self.code {
            KeyCode::Char(c) => if self.modifiers.bits & 0xfe == 0 {
                Some(c)
            } else {
                None
            },
            _ => None,
        }
    }

    /// The keys of a macro string: each character, unmodified.
    pub fn from_macro_str(mstr: &str) -> (r: Vec<Self>)
        ensures
            r@.len() == mstr@.len(),
            forall|i: int|
                0 <= i < r@.len() ==> #[trigger] r@[i] == normalized_key(
                    KeyCode::Char(mstr@[i]),
                    KeyModifiers { bits: 0 },
                ),
    {
        let chars = crate::text::chars_of(mstr);
        let mut keys: Vec<HelixKey> = Vec::new();
        let mut i: usize = 0;
        while i < chars.len()
            invariant
                chars@ == mstr@,
                i <= chars@.len(),
                keys@.len() == i,
                forall|j: int|
                    0 <= j < i ==> #[trigger] keys@[j] == normalized_key(
                        KeyCode::Char(mstr@[j]),
                        KeyModifiers { bits: 0 },
                    ),
            decreases chars.len() - i,
        {
            keys.push(HelixKey::new(KeyCode::Char(chars[i]), KeyModifiers::none()));
            i = i + 1;
        }
        keys
    }
}

} // verus!
