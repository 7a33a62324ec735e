//! Keybinding tables and key sequences typed one combination at a time.
use reedline::edit_mode::keybindings::{KeySequenceMatch, KeySequenceState, Keybindings};
use reedline::enums::{EditCommand, ReedlineEvent};
use reedline::keys::{KeyCode, KeyCombination, KeyModifiers};

fn combo(c: char) -> KeyCombination {
    KeyCombination {
        modifier: KeyModifiers::none(),
        key_code: KeyCode::Char(c),
    }
}

fn fallback(combo: KeyCombination) -> ReedlineEvent {
    match combo.key_code {
        KeyCode::Char(c) => ReedlineEvent::Edit(vec![EditCommand::InsertChar(c)]),
        _ => ReedlineEvent::Nothing,
    }
}

#[test]
fn sequence_match_detects_prefix_and_exact() {
    let mut keybindings = Keybindings::new();
    keybindings.add_sequence_binding(vec![combo('j'), combo('j')], ReedlineEvent::Esc);

    assert!(matches!(
        keybindings.sequence_match(&[combo('j')]),
        KeySequenceMatch::Prefix
    ));
    assert!(matches!(
        keybindings.sequence_match(&[combo('j'), combo('j')]),
        KeySequenceMatch::Exact(ReedlineEvent::Esc)
    ));
}

#[test]
fn sequence_state_emits_on_match() {
    let mut keybindings = Keybindings::new();
    keybindings.add_sequence_binding(vec![combo('j'), combo('j')], ReedlineEvent::Esc);

    let mut state = KeySequenceState::default();
    let first = state.process_combo(&keybindings, combo('j'), fallback);
    assert_eq!(first, None);

    let second = state.process_combo(&keybindings, combo('j'), fallback);
    assert_eq!(second, Some(ReedlineEvent::Esc));
}

#[test]
fn sequence_state_flushes_on_miss() {
    let mut keybindings = Keybindings::new();
    keybindings.add_sequence_binding(vec![combo('j'), combo('j')], ReedlineEvent::Esc);

    let mut state = KeySequenceState::default();
    let _ = state.process_combo(&keybindings, combo('j'), fallback);
    let second = state.process_combo(&keybindings, combo('k'), fallback);

    assert_eq!(
        second,
        Some(ReedlineEvent::Multiple(vec![
            ReedlineEvent::Edit(vec![EditCommand::InsertChar('j')]),
            ReedlineEvent::Edit(vec![EditCommand::InsertChar('k')]),
        ]))
    );
}

#[test]
fn sequence_state_flushes_pending_on_timeout() {
    let mut keybindings = Keybindings::new();
    keybindings.add_sequence_binding(vec![combo('j'), combo('j')], ReedlineEvent::Esc);

    let mut state = KeySequenceState::default();
    let _ = state.process_combo(&keybindings, combo('j'), fallback);
    let flushed = state.flush(fallback);

    assert_eq!(
        flushed,
        Some(ReedlineEvent::Edit(vec![EditCommand::InsertChar('j')]))
    );
}

#[test]
fn sequence_state_without_sequences_passes_keys_through() {
    let keybindings = Keybindings::new();
    let mut state = KeySequenceState::new();
    let r = state.process_combo(&keybindings, combo('x'), fallback);
    assert_eq!(r, Some(ReedlineEvent::Edit(vec![EditCommand::InsertChar('x')])));
    assert!(!state.is_pending());
}

#[test]
fn sequence_state_remembers_exact_match_that_is_also_a_prefix() {
    let mut keybindings = Keybindings::new();
    keybindings.add_sequence_binding(vec![combo('j'), combo('k')], ReedlineEvent::Esc);
    keybindings.add_sequence_binding(vec![combo('j'), combo('k'), combo('l')], ReedlineEvent::Enter);

    let mut state = KeySequenceState::new();
    assert_eq!(state.process_combo(&keybindings, combo('j'), fallback), None);
    assert_eq!(state.process_combo(&keybindings, combo('k'), fallback), None);
    assert!(state.is_pending());
    // A miss fires the remembered match, then types the key after it.
    let r = state.process_combo(&keybindings, combo('x'), fallback);
    assert_eq!(
        r,
        Some(ReedlineEvent::Multiple(vec![
            ReedlineEvent::Esc,
            ReedlineEvent::Edit(vec![EditCommand::InsertChar('x')]),
        ]))
    );
    assert!(!state.is_pending());
}

#[test]
fn sequence_state_longer_match_wins() {
    let mut keybindings = Keybindings::new();
    keybindings.add_sequence_binding(vec![combo('j'), combo('k')], ReedlineEvent::Esc);
    keybindings.add_sequence_binding(vec![combo('j'), combo('k'), combo('l')], ReedlineEvent::Enter);

    let mut state = KeySequenceState::new();
    let _ = state.process_combo(&keybindings, combo('j'), fallback);
    let _ = state.process_combo(&keybindings, combo('k'), fallback);
    let r = state.process_combo(&keybindings, combo('l'), fallback);
    assert_eq!(r, Some(ReedlineEvent::Enter));
}

#[test]
fn sequence_state_flush_fires_remembered_match() {
    let mut keybindings = Keybindings::new();
    keybindings.add_sequence_binding(vec![combo('j'), combo('k')], ReedlineEvent::Esc);
    keybindings.add_sequence_binding(vec![combo('j'), combo('k'), combo('l')], ReedlineEvent::Enter);

    let mut state = KeySequenceState::new();
    let _ = state.process_combo(&keybindings, combo('j'), fallback);
    let _ = state.process_combo(&keybindings, combo('k'), fallback);
    assert_eq!(state.flush(fallback), Some(ReedlineEvent::Esc));
    assert_eq!(state.flush(fallback), None);
}

#[test]
fn sequence_state_clear_forgets_keys() {
    let mut keybindings = Keybindings::new();
    keybindings.add_sequence_binding(vec![combo('j'), combo('j')], ReedlineEvent::Esc);
    let mut state = KeySequenceState::new();
    let _ = state.process_combo(&keybindings, combo('j'), fallback);
    state.clear();
    assert!(!state.is_pending());
    assert_eq!(state.flush(fallback), None);
}

#[test]
fn added_binding_is_found_and_others_unchanged() {
    let mut kb = Keybindings::new();
    kb.add_binding(KeyModifiers::control(), KeyCode::Char('a'), ReedlineEvent::Enter);
    kb.add_binding(KeyModifiers::control(), KeyCode::Char('b'), ReedlineEvent::Esc);
    assert_eq!(kb.find_binding(KeyModifiers::control(), KeyCode::Char('b')), Some(ReedlineEvent::Esc));
    assert_eq!(kb.find_binding(KeyModifiers::control(), KeyCode::Char('a')), Some(ReedlineEvent::Enter));
    kb.add_binding(KeyModifiers::control(), KeyCode::Char('a'), ReedlineEvent::CtrlD);
    assert_eq!(kb.find_binding(KeyModifiers::control(), KeyCode::Char('a')), Some(ReedlineEvent::CtrlD));
    assert_eq!(kb.get_keybindings().len(), 2);
}

#[test]
fn remove_gives_back_what_was_added() {
    let mut kb = Keybindings::new();
    kb.add_binding(KeyModifiers::alt(), KeyCode::Left, ReedlineEvent::Left);
    assert_eq!(kb.remove_binding(KeyModifiers::alt(), KeyCode::Left), Some(ReedlineEvent::Left));
    assert_eq!(kb.find_binding(KeyModifiers::alt(), KeyCode::Left), None);
    assert_eq!(kb.remove_binding(KeyModifiers::alt(), KeyCode::Left), None);
}

#[test]
fn added_sequence_is_matched_exactly() {
    let mut kb = Keybindings::new();
    kb.add_sequence_binding(vec![combo('g'), combo('g')], ReedlineEvent::Enter);
    assert!(matches!(
        kb.sequence_match(&[combo('g'), combo('g')]),
        KeySequenceMatch::Exact(ReedlineEvent::Enter)
    ));
    assert!(matches!(kb.sequence_match(&[combo('x')]), KeySequenceMatch::NoMatch));
    assert_eq!(
        kb.remove_sequence_binding(vec![combo('g'), combo('g')]),
        Some(ReedlineEvent::Enter)
    );
    assert!(matches!(kb.sequence_match(&[combo('g')]), KeySequenceMatch::NoMatch));
}
