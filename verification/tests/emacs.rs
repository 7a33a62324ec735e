//! The Emacs edit mode on key, sequence and non-key events.
use reedline::edit_mode::emacs::{default_emacs_keybindings, Emacs};
use reedline::edit_mode::keybindings::Keybindings;
use reedline::edit_mode::EditMode;
use reedline::enums::{EditCommand, MouseButton, PromptEditMode, ReedlineEvent};
use reedline::keys::{InputEvent, KeyCode, KeyCombination, KeyModifiers};

fn key(code: KeyCode, modifiers: KeyModifiers) -> InputEvent {
    InputEvent::Key { code, modifiers }
}

fn plain(c: char) -> KeyCombination {
    KeyCombination { modifier: KeyModifiers::none(), key_code: KeyCode::Char(c) }
}

#[test]
fn ctrl_l_leads_to_clear_screen_event() {
    let mut emacs = Emacs::default();
    let ctrl_l = key(KeyCode::Char('l'), KeyModifiers::control());
    let result = emacs.parse_event(ctrl_l);

    assert_eq!(result, ReedlineEvent::ClearScreen);
}

#[test]
fn overriding_default_keybindings_works() {
    let mut keybindings = default_emacs_keybindings();
    keybindings.add_binding(
        KeyModifiers::control(),
        KeyCode::Char('l'),
        ReedlineEvent::HistoryHintComplete,
    );

    let mut emacs = Emacs::new(keybindings);
    let ctrl_l = key(KeyCode::Char('l'), KeyModifiers::control());
    let result = emacs.parse_event(ctrl_l);

    assert_eq!(result, ReedlineEvent::HistoryHintComplete);
}

#[test]
fn inserting_character_works() {
    let mut emacs = Emacs::default();
    let l = key(KeyCode::Char('l'), KeyModifiers::none());
    let result = emacs.parse_event(l);

    assert_eq!(
        result,
        ReedlineEvent::Edit(vec![EditCommand::InsertChar('l')])
    );
}

#[test]
fn inserting_capital_character_works() {
    let mut emacs = Emacs::default();

    let uppercase_l = key(KeyCode::Char('l'), KeyModifiers::shift());
    let result = emacs.parse_event(uppercase_l);

    assert_eq!(
        result,
        ReedlineEvent::Edit(vec![EditCommand::InsertChar('L')])
    );
}

#[test]
fn return_none_reedline_event_when_keybinding_is_not_found() {
    let keybindings = Keybindings::default();

    let mut emacs = Emacs::new(keybindings);
    let ctrl_l = key(KeyCode::Char('l'), KeyModifiers::control());
    let result = emacs.parse_event(ctrl_l);

    assert_eq!(result, ReedlineEvent::Nothing);
}

#[test]
fn inserting_capital_character_for_non_ascii_remains_as_is() {
    let mut emacs = Emacs::default();

    let uppercase_l = key(KeyCode::Char('😀'), KeyModifiers::shift());
    let result = emacs.parse_event(uppercase_l);

    assert_eq!(
        result,
        ReedlineEvent::Edit(vec![EditCommand::InsertChar('😀')])
    );
}

#[test]
fn kill_line() {
    let mut emacs = Emacs::default();

    let ctrl_k = key(KeyCode::Char('k'), KeyModifiers::control());
    let result = emacs.parse_event(ctrl_k);

    assert_eq!(result, ReedlineEvent::Edit(vec![EditCommand::KillLine]));
}

#[test]
fn emacs_reports_its_prompt_mode() {
    let emacs = Emacs::default();
    assert_eq!(emacs.edit_mode(), PromptEditMode::Emacs);
}

#[test]
fn emacs_ctrl_shifted_letter_is_looked_up_in_lower_case() {
    let mut emacs = Emacs::default();
    let result = emacs.parse_event(key(KeyCode::Char('K'), KeyModifiers::control()));
    assert_eq!(result, ReedlineEvent::Edit(vec![EditCommand::KillLine]));
}

#[test]
fn emacs_altgr_chord_types_the_character() {
    let mut emacs = Emacs::new(Keybindings::new());
    let ctrl_alt = KeyModifiers::control().union(KeyModifiers::alt());
    let result = emacs.parse_event(key(KeyCode::Char('@'), ctrl_alt));
    assert_eq!(result, ReedlineEvent::Edit(vec![EditCommand::InsertChar('@')]));
}

#[test]
fn emacs_alt_arrow_moves_by_word() {
    let mut emacs = Emacs::default();
    let result = emacs.parse_event(key(KeyCode::Left, KeyModifiers::alt()));
    assert_eq!(
        result,
        ReedlineEvent::Edit(vec![EditCommand::MoveWordLeft { select: false }])
    );
}

#[test]
fn emacs_unbound_special_key_gives_nothing() {
    let mut emacs = Emacs::default();
    let result = emacs.parse_event(key(KeyCode::F(5), KeyModifiers::none()));
    assert_eq!(result, ReedlineEvent::Nothing);
}

#[test]
fn emacs_sequence_binding_fires_on_second_key() {
    let mut keybindings = default_emacs_keybindings();
    keybindings.add_sequence_binding(vec![plain('j'), plain('j')], ReedlineEvent::Esc);
    let mut emacs = Emacs::new(keybindings);

    let first = emacs.parse_event(key(KeyCode::Char('j'), KeyModifiers::none()));
    assert_eq!(first, ReedlineEvent::Nothing);
    assert!(emacs.has_pending_sequence());

    let second = emacs.parse_event(key(KeyCode::Char('j'), KeyModifiers::none()));
    assert_eq!(second, ReedlineEvent::Esc);
    assert!(!emacs.has_pending_sequence());
}

#[test]
fn emacs_flush_types_the_waiting_key() {
    let mut keybindings = default_emacs_keybindings();
    keybindings.add_sequence_binding(vec![plain('j'), plain('k')], ReedlineEvent::Esc);
    let mut emacs = Emacs::new(keybindings);

    let _ = emacs.parse_event(key(KeyCode::Char('j'), KeyModifiers::none()));
    let flushed = emacs.flush_pending_sequence();
    assert_eq!(
        flushed,
        Some(ReedlineEvent::Edit(vec![EditCommand::InsertChar('j')]))
    );
    assert_eq!(emacs.flush_pending_sequence(), None);
}

#[test]
fn emacs_resize_flushes_waiting_keys_first() {
    let mut keybindings = default_emacs_keybindings();
    keybindings.add_sequence_binding(vec![plain('j'), plain('k')], ReedlineEvent::Esc);
    let mut emacs = Emacs::new(keybindings);

    let _ = emacs.parse_event(key(KeyCode::Char('j'), KeyModifiers::none()));
    let result = emacs.parse_event(InputEvent::Resize(80, 24));
    assert_eq!(
        result,
        ReedlineEvent::Multiple(vec![
            ReedlineEvent::Edit(vec![EditCommand::InsertChar('j')]),
            ReedlineEvent::Resize(80, 24),
        ])
    );
}

#[test]
fn emacs_focus_change_after_waiting_key_gives_the_flush_alone() {
    let mut keybindings = default_emacs_keybindings();
    keybindings.add_sequence_binding(vec![plain('j'), plain('k')], ReedlineEvent::Esc);
    let mut emacs = Emacs::new(keybindings);

    let _ = emacs.parse_event(key(KeyCode::Char('j'), KeyModifiers::none()));
    let result = emacs.parse_event(InputEvent::FocusLost);
    assert_eq!(
        result,
        ReedlineEvent::Edit(vec![EditCommand::InsertChar('j')])
    );
}

#[test]
fn emacs_paste_normalizes_line_endings() {
    let mut emacs = Emacs::default();
    let result = emacs.parse_event(InputEvent::Paste(String::from("a\r\nb\rc")));
    assert_eq!(
        result,
        ReedlineEvent::Edit(vec![EditCommand::InsertString(String::from("a\nb\nc"))])
    );
}

#[test]
fn emacs_plain_click_is_a_mouse_event() {
    let mut emacs = Emacs::default();
    let result = emacs.parse_event(InputEvent::MouseDown {
        button: MouseButton::Left,
        column: 3,
        row: 4,
        modifiers: KeyModifiers::none(),
    });
    assert_eq!(
        result,
        ReedlineEvent::Mouse { column: 3, row: 4, button: MouseButton::Left }
    );
}

#[test]
fn emacs_non_key_event_passes_through_with_nothing_waiting() {
    let mut emacs = Emacs::default();
    assert_eq!(emacs.parse_event(InputEvent::Resize(5, 6)), ReedlineEvent::Resize(5, 6));
    assert_eq!(emacs.parse_event(InputEvent::FocusGained), ReedlineEvent::Nothing);
    assert_eq!(emacs.flush_pending_sequence(), None);
}
