//! The cursor shape drawn in each edit mode.
use vstd::prelude::*;

use crossterm::cursor::SetCursorStyle;

use crate::enums::{PromptEditMode, PromptHelixMode, PromptViMode};

verus! {

/// crossterm's cursor shape command, carried through unopened.
#[verifier::external_type_specification]
#[verifier::external_body]
pub struct ExSetCursorStyle(SetCursorStyle);

/// The cursor shape for each edit mode (Emacs, Vi and Helix). A field
/// that is `None` leaves the cursor as it is in that mode.
///
/// A host that names only some of the fields should build it with
/// `..CursorConfig::default()`, so that a mode gaining a field of its
/// own does not break the literal.
pub struct CursorConfig {
    /// The cursor in Vi insert mode.
    pub vi_insert: Option<SetCursorStyle>,
    /// The cursor in Vi normal mode.
    pub vi_normal: Option<SetCursorStyle>,
    /// The cursor in Vi visual mode; `None` follows `vi_normal` instead of
    /// leaving the cursor alone.
    pub vi_visual: Option<SetCursorStyle>,
    /// The cursor in Emacs mode.
    pub emacs: Option<SetCursorStyle>,
    /// The cursor in Helix insert mode.
    pub hx_insert: Option<SetCursorStyle>,
    /// The cursor in Helix normal mode.
    pub hx_normal: Option<SetCursorStyle>,
    /// The cursor in Helix select mode.
    pub hx_select: Option<SetCursorStyle>,
}

/// The shape `c` asks for in `mode`: the mode's own field, Vi visual
/// falling back to Vi normal, and nothing for the other modes.
pub open spec fn shape_in(c: CursorConfig, mode: PromptEditMode) -> Option<SetCursorStyle> {
    match mode {
        PromptEditMode::Emacs => c.emacs,
        PromptEditMode::Vi(PromptViMode::Insert) => c.vi_insert,
        PromptEditMode::Vi(PromptViMode::Normal) => c.vi_normal,
        PromptEditMode::Vi(PromptViMode::Visual) => match c.vi_visual {
            Some(s) => Some(s),
            None => c.vi_normal,
        },
        PromptEditMode::Helix(PromptHelixMode::Insert) => c.hx_insert,
        PromptEditMode::Helix(PromptHelixMode::Normal) => c.hx_normal,
        PromptEditMode::Helix(PromptHelixMode::Select) => c.hx_select,
        _ => None,
    }
}

impl CursorConfig {
    /// The shape to draw in `mode`, `None` to leave the cursor as it is.
    pub fn shape_for(&self, mode: &PromptEditMode) -> (r: Option<SetCursorStyle>)
        ensures
            r == shape_in(*self, *mode),
    {
        match mode {
            PromptEditMode::Emacs => self.emacs,
            PromptEditMode::Vi(PromptViMode::Insert) => self.vi_insert,
            PromptEditMode::Vi(PromptViMode::Normal) => self.vi_normal,
            PromptEditMode::Vi(PromptViMode::Visual) => match self.vi_visual {
                Some(s) => Some(s),
                None => self.vi_normal,
            },
            PromptEditMode::Helix(PromptHelixMode::Insert) => self.hx_insert,
            PromptEditMode::Helix(PromptHelixMode::Normal) => self.hx_normal,
            PromptEditMode::Helix(PromptHelixMode::Select) => self.hx_select,
            PromptEditMode::Default | PromptEditMode::Custom(_) => None,
        }
    }
}

impl Default for CursorConfig {
    /// Leaves the cursor alone in every mode.
    fn default() -> (r: Self)
        ensures
            r.vi_insert is None,
            r.vi_normal is None,
            r.vi_visual is None,
            r.emacs is None,
            r.hx_insert is None,
            r.hx_normal is None,
            r.hx_select is None,
    {
        CursorConfig {
            vi_insert: None,
            vi_normal: None,
            vi_visual: None,
            emacs: None,
            hx_insert: None,
            hx_normal: None,
            hx_select: None,
        }
    }
}

} // verus!
