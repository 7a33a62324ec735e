//! Key-event interpretation for a line editor: Vi, Helix and Emacs style
//! edit modes, their keybinding tables, and the word/selection geometry
//! the modal editors rely on.
pub mod enums;
pub mod keys;
pub mod edit_mode;
pub mod text;
pub mod core_editor;
pub mod engine;
