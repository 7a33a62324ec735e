//! The small two-mode Helix machine: its keys, unbound keys, bindings and
//! the event of a key it took.
use reedline::edit_mode::helix::action::HelixAction;
use reedline::edit_mode::helix::event::{is_interrupt_event, key_outcome, mode_change_event};
use reedline::edit_mode::helix::key::HelixKey;
use reedline::edit_mode::helix::mode::{setup_bindings, HelixMode};
use reedline::enums::{EditCommand, ReedlineEvent};
use reedline::keys::{KeyCode, KeyModifiers};

#[test]
fn macro_string_becomes_plain_character_keys() {
    let keys = HelixKey::from_macro_str("ab");
    assert_eq!(
        keys,
        vec![
            HelixKey::new(KeyCode::Char('a'), KeyModifiers::none()),
            HelixKey::new(KeyCode::Char('b'), KeyModifiers::none()),
        ]
    );
    assert_eq!(keys[0].get_char(), Some('a'));
    assert_eq!(HelixKey::new(KeyCode::Esc, KeyModifiers::none()).get_char(), None);
}

#[test]
fn unmapped_character_types_only_in_insert_mode() {
    let key = HelixKey::new(KeyCode::Char('x'), KeyModifiers::none());
    assert_eq!(HelixMode::Insert.unmapped(&key), (vec![HelixAction::Type('x')], None));
    assert_eq!(HelixMode::Normal.unmapped(&key), (vec![], None));
    let esc = HelixKey::new(KeyCode::Esc, KeyModifiers::none());
    assert_eq!(HelixMode::Insert.unmapped(&esc), (vec![], None));
}

#[test]
fn machine_bindings_leave_and_enter_insert_mode() {
    let bindings = setup_bindings();
    assert_eq!(bindings.len(), 7);
    assert_eq!(bindings[0], (HelixMode::Insert, KeyCode::Esc, (None, Some(HelixMode::Normal))));
    assert_eq!(
        bindings[6],
        (HelixMode::Normal, KeyCode::Char('a'), (Some(HelixAction::MoveCharRight), Some(HelixMode::Insert)))
    );
}

#[test]
fn key_outcome_prefers_the_action_then_a_mode_change() {
    assert_eq!(
        key_outcome(Some(HelixAction::Type('q')), true),
        ReedlineEvent::Edit(vec![EditCommand::InsertChar('q')])
    );
    assert_eq!(key_outcome(Some(HelixAction::NoOp), true), ReedlineEvent::Repaint);
    assert_eq!(key_outcome(None, false), ReedlineEvent::Nothing);
    assert_eq!(mode_change_event(true), ReedlineEvent::Repaint);
    assert!(is_interrupt_event(KeyCode::Char('c'), KeyModifiers::control()));
    assert!(!is_interrupt_event(KeyCode::Char('c'), KeyModifiers::none()));
}

#[test]
fn machine_keys_are_normalized() {
    let shifted = HelixKey::new(KeyCode::Char('a'), KeyModifiers::shift());
    assert_eq!(shifted, HelixKey::new(KeyCode::Char('A'), KeyModifiers::none()));
    assert_eq!(shifted.code, KeyCode::Char('A'));
    assert_eq!(shifted.modifiers, KeyModifiers::none());
    let ctrl = HelixKey::new(KeyCode::Char('a'), KeyModifiers::control());
    assert_eq!(ctrl.code, KeyCode::Char('A'));
    assert_eq!(ctrl.modifiers, KeyModifiers::control());
    let space = HelixKey::new(KeyCode::Char(' '), KeyModifiers::shift());
    assert_eq!(space.modifiers, KeyModifiers::shift());
    assert_eq!(ctrl.get_char(), None);
    assert_eq!(space.get_char(), Some(' '));
    assert_eq!(HelixKey::new(KeyCode::Esc, KeyModifiers::shift()).modifiers, KeyModifiers::shift());
}
