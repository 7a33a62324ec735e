//! Edit modes: how key events become editing commands.
pub mod cursors;
pub mod emacs;
pub mod helix;
pub mod hx;
pub mod keybindings;
pub mod vi;

use vstd::prelude::*;

use crate::enums::{EditCommand, EventStatus, EventView, PromptEditMode, ReedlineEvent};
use crate::keys::{control_alt_bits, control_alt_shift_bits, InputEvent, KeyModifiers};
use crate::text::chars_of;
use vstd::string::StrSliceExecFns;

verus! {

/// A style of turning input events into editor events.
pub trait EditMode: Sized {
    /// The mode's own invariant.
    spec fn ready(&self) -> bool;

    /// Whether the mode can take `event` in its present state.
    spec fn accepts(&self, event: InputEvent) -> bool;

    /// Turns one input event into what the editor understands.
    fn parse_event(&mut self, event: InputEvent) -> (r: ReedlineEvent)
        requires
            old(self).ready(),
            old(self).accepts(event),
        ensures
            final(self).ready(),
    ;

    /// What the prompt shows for the present state.
    fn edit_mode(&self) -> PromptEditMode;

    /// Handles the events that concern one edit mode only; the default
    /// declines them all and leaves the mode as it was.
    fn handle_mode_specific_event(&mut self, event: ReedlineEvent) -> (r: EventStatus)
        requires
            old(self).ready(),
        ensures
            final(self).ready(),
        default_ensures
            r == EventStatus::Inapplicable,
            *final(self) == *old(self),
    {
        EventStatus::Inapplicable
    }
}

/// `s` with each `\r\n` and each lone `\r` turned into `\n`.
pub open spec fn normalized_newlines(s: Seq<char>) -> Seq<char>
    decreases s.len(),
{
    if s.len() == 0 {
        Seq::empty()
    } else if s[0] == '\r' && s.len() > 1 && s[1] == '\n' {
        seq!['\n'] + normalized_newlines(s.skip(2))
    } else if s[0] == '\r' {
        seq!['\n'] + normalized_newlines(s.skip(1))
    } else {
        seq![s[0]] + normalized_newlines(s.skip(1))
    }
}

/// Pasted text with its line endings made `\n`.
pub fn normalize_newlines(body: &str) -> (r: String)
    ensures
        r@ == normalized_newlines(body@),
{
    let chars = chars_of(body);
    let n = chars.len();
    let newline = "\n";
    proof {
        reveal_strlit("\n");
    }
    let mut out = String::new();
    let mut i: usize = 0;
    proof {
        assert(body@.skip(0) == body@);
    }
    while i < n
        invariant
            chars@ == body@,
            n == chars@.len(),
            i <= n,
            newline@ == seq!['\n'],
            out@ + normalized_newlines(body@.skip(i as int)) == normalized_newlines(body@),
        decreases n - i,
    {
        let ghost rest = body@.skip(i as int);
        let c = chars[i];
        proof {
            assert(rest[0] == c);
            assert(rest.skip(1) == body@.skip(i + 1));
        }
        if c == '\r' && i + 1 < n && chars[i + 1] == '\n' {
            proof {
                assert(rest[1] == chars@[i + 1]);
                assert(rest.skip(2) == body@.skip(i + 2));
            }
            out.append(newline);
            i = i + 2;
        } else if c == '\r' {
            out.append(newline);
            i = i + 1;
        } else {
            let piece = body.substring_char(i, i + 1);
            proof {
                assert(piece@ == seq![c]);
            }
            out.append(piece);
            i = i + 1;
        }
    }
    proof {
        assert(body@.skip(n as int) == Seq::<char>::empty());
        assert(out@ + Seq::<char>::empty() == out@);
    }
    out
}

/// What every edit mode makes of a non-key event: a primary click, a
/// resize, or pasted text; focus changes and other mouse activity mean
/// nothing.
pub open spec fn non_key_event(event: InputEvent) -> EventView {
    match event {
        InputEvent::MouseDown { button, column, row, modifiers } => if modifiers.bits == 0 {
            EventView::Mouse { column, row, button }
        } else {
            EventView::Nothing
        },
        InputEvent::Resize(w, h) => EventView::Resize(w, h),
        InputEvent::Paste(body) => EventView::Edit(
            seq![EditCommand::InsertString(body)],
        ),
        _ => EventView::Nothing,
    }
}

/// `r` inserts exactly `text`.
pub open spec fn inserts_text(r: ReedlineEvent, text: Seq<char>) -> bool {
    match r {
        ReedlineEvent::Edit(v) => v@.len() == 1 && match v@[0] {
            EditCommand::InsertString(s) => s@ == text,
            _ => false,
        },
        _ => false,
    }
}

/// The non-key events every edit mode treats alike.
pub fn parse_non_key_event(event: InputEvent) -> (r: ReedlineEvent)
    ensures
        match event {
            InputEvent::Paste(body) => inserts_text(r, normalized_newlines(body@)),
            _ => r@ == non_key_event(event),
        },
{
    match event {
        InputEvent::Key { .. } => ReedlineEvent::Nothing,
        InputEvent::MouseDown { button, column, row, modifiers } => if modifiers.bits == 0 {
            ReedlineEvent::Mouse { column, row, button }
        } else {
            ReedlineEvent::Nothing
        },
        InputEvent::MouseOther => ReedlineEvent::Nothing,
        InputEvent::Resize(width, height) => ReedlineEvent::Resize(width, height),
        InputEvent::FocusGained => ReedlineEvent::Nothing,
        InputEvent::FocusLost => ReedlineEvent::Nothing,
        InputEvent::Paste(body) => {
            let v = vec![EditCommand::InsertString(normalize_newlines(body.as_str()))];
            ReedlineEvent::Edit(v)
        },
    }
}

/// A bare or shifted key: the chords that act as commands in a modal
/// normal mode.
pub open spec fn plain_char(modifiers: KeyModifiers) -> bool {
    modifiers.bits == 0 || modifiers.bits == 1
}

/// The modifier sets under which a character key types text: the plain
/// ones, and the Ctrl-Alt chords some terminals report for AltGr.
pub open spec fn text_char(modifiers: KeyModifiers) -> bool {
    plain_char(modifiers) || modifiers.bits == control_alt_bits() || modifiers.bits
        == control_alt_shift_bits()
}

/// Whether `modifiers` is empty or Shift alone.
pub fn is_plain_char(modifiers: KeyModifiers) -> (r: bool)
    ensures
        r == plain_char(modifiers),
{
    modifiers.bits == 0 || modifiers.bits == 1
}

/// Whether a character key under `modifiers` types text.
pub fn is_text_char(modifiers: KeyModifiers) -> (r: bool)
    ensures
        r == text_char(modifiers),
{
    is_plain_char(modifiers) || modifiers.bits == 6 || modifiers.bits == 7
}

} // verus!
