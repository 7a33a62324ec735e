//! The Vi edit mode on key, paste, resize, focus and mouse events.
use reedline::edit_mode::vi::vi_keybindings::{
    default_vi_insert_keybindings, default_vi_normal_keybindings,
};
use reedline::edit_mode::vi::{Vi, ViMode};
use reedline::edit_mode::EditMode;
use reedline::enums::{
    Direction, EditCommand, Granularity, MotionTarget, MouseButton, ReedlineEvent, WordEdge,
    WordKind,
};
use reedline::keys::{InputEvent, KeyCode, KeyModifiers};

fn key(code: KeyCode, modifiers: KeyModifiers) -> InputEvent {
    InputEvent::Key { code, modifiers }
}

#[test]
fn esc_leads_to_normal_mode_test() {
    let mut vi = Vi::default();
    let esc =
        key(KeyCode::Esc, KeyModifiers::none());
    let result = vi.parse_event(esc);

    assert_eq!(
        result,
        ReedlineEvent::Multiple(vec![ReedlineEvent::Esc, ReedlineEvent::Repaint])
    );
    assert!(matches!(vi.mode, ViMode::Normal));
}

#[test]
fn keybinding_without_modifier_test() {
    let mut keybindings = default_vi_normal_keybindings();
    keybindings.add_binding(
        KeyModifiers::none(),
        KeyCode::Char('e'),
        ReedlineEvent::ClearScreen,
    );

    let mut vi = Vi {
        insert_keybindings: default_vi_insert_keybindings(),
        normal_keybindings: keybindings,
        mode: ViMode::Normal,
        ..Default::default()
    };

    let esc = key(KeyCode::Char('e'), KeyModifiers::none());
    let result = vi.parse_event(esc);

    assert_eq!(result, ReedlineEvent::ClearScreen);
}

#[test]
fn keybinding_with_shift_modifier_test() {
    let mut keybindings = default_vi_normal_keybindings();
    keybindings.add_binding(
        KeyModifiers::shift(),
        KeyCode::Char('$'),
        ReedlineEvent::CtrlD,
    );

    let mut vi = Vi {
        insert_keybindings: default_vi_insert_keybindings(),
        normal_keybindings: keybindings,
        mode: ViMode::Normal,
        ..Default::default()
    };

    let esc = key(KeyCode::Char('$'), KeyModifiers::shift());
    let result = vi.parse_event(esc);

    assert_eq!(result, ReedlineEvent::CtrlD);
}

#[test]
fn keybinding_with_super_modifier_test() {
    let mut keybindings = default_vi_normal_keybindings();
    keybindings.add_binding(
        KeyModifiers::super_key(),
        KeyCode::Char('$'),
        ReedlineEvent::CtrlD,
    );

    let mut vi = Vi {
        insert_keybindings: default_vi_insert_keybindings(),
        normal_keybindings: keybindings,
        mode: ViMode::Normal,
        ..Default::default()
    };

    let esc = key(KeyCode::Char('$'), KeyModifiers::super_key());
    let result = vi.parse_event(esc);

    assert_eq!(result, ReedlineEvent::CtrlD);
}

#[test]
fn non_register_modifier_test() {
    let keybindings = default_vi_normal_keybindings();
    let mut vi = Vi {
        insert_keybindings: default_vi_insert_keybindings(),
        normal_keybindings: keybindings,
        mode: ViMode::Normal,
        ..Default::default()
    };

    let esc = key(KeyCode::Char('q'), KeyModifiers::none());
    let result = vi.parse_event(esc);

    assert_eq!(result, ReedlineEvent::Nothing);
}

#[test]
fn v_in_normal_enters_visual() {
    let mut vi = Vi {
        mode: ViMode::Normal,
        ..Default::default()
    };
    let result = vi.parse_event(key(KeyCode::Char('v'), KeyModifiers::none()));

    assert!(matches!(vi.mode, ViMode::Visual));
    assert_eq!(
        result,
        ReedlineEvent::Multiple(vec![ReedlineEvent::Esc, ReedlineEvent::Repaint])
    );
}

#[test]
fn esc_from_visual_returns_to_normal() {
    let mut vi = Vi {
        mode: ViMode::Visual,
        ..Default::default()
    };
    let _ = vi.parse_event(key(KeyCode::Esc, KeyModifiers::none()));
    assert!(matches!(vi.mode, ViMode::Normal));
}

#[test]
fn esc_clears_cache() {
    let mut vi = Vi {
        mode: ViMode::Normal,
        ..Default::default()
    };
    let _ = vi.parse_event(key(KeyCode::Char('d'), KeyModifiers::none()));
    assert!(
        !vi.cache.is_empty(),
        "cache should hold the partial sequence"
    );

    let _ = vi.parse_event(key(KeyCode::Esc, KeyModifiers::none()));
    assert!(vi.cache.is_empty(), "Esc should clear the cache");
}

#[test]
fn incomplete_sequence_returns_none_and_holds_cache() {
    let mut vi = Vi {
        mode: ViMode::Normal,
        ..Default::default()
    };
    let result = vi.parse_event(key(KeyCode::Char('d'), KeyModifiers::none()));

    assert_eq!(result, ReedlineEvent::Nothing);
    assert_eq!(vi.cache, vec!['d']);
}

#[test]
fn non_char_key_in_normal_uses_keybindings() {
    let mut kb = default_vi_normal_keybindings();
    kb.add_binding(KeyModifiers::none(), KeyCode::Up, ReedlineEvent::Up);

    let mut vi = Vi {
        normal_keybindings: kb,
        mode: ViMode::Normal,
        ..Default::default()
    };

    let result = vi.parse_event(key(KeyCode::Up, KeyModifiers::none()));
    assert_eq!(result, ReedlineEvent::Up);
}

#[test]
fn enter_in_normal_with_no_binding_submits_and_enters_insert() {
    let mut vi = Vi {
        mode: ViMode::Normal,
        ..Default::default()
    };
    let result = vi.parse_event(key(KeyCode::Enter, KeyModifiers::none()));

    assert_eq!(result, ReedlineEvent::Enter);
    assert!(matches!(vi.mode, ViMode::Insert));
}

#[test]
fn unbound_char_in_insert_inserts_char() {
    let mut vi = Vi {
        mode: ViMode::Insert,
        ..Default::default()
    };
    let result = vi.parse_event(key(KeyCode::Char('x'), KeyModifiers::none()));

    assert_eq!(
        result,
        ReedlineEvent::Edit(vec![EditCommand::InsertChar('x')]),
    );
}

#[test]
fn shift_char_in_insert_inserts_uppercase() {
    let mut vi = Vi {
        mode: ViMode::Insert,
        ..Default::default()
    };
    let result = vi.parse_event(key(KeyCode::Char('a'), KeyModifiers::shift()));

    assert_eq!(
        result,
        ReedlineEvent::Edit(vec![EditCommand::InsertChar('A')]),
    );
}

#[test]
fn ctrl_char_in_insert_with_no_binding_returns_none() {
    let mut vi = Vi {
        mode: ViMode::Insert,
        ..Default::default()
    };
    let result = vi.parse_event(key(KeyCode::Char('z'), KeyModifiers::control()));

    assert_eq!(result, ReedlineEvent::Nothing);
}

#[test]
fn i_in_normal_transitions_to_insert() {
    let mut vi = Vi {
        mode: ViMode::Normal,
        ..Default::default()
    };
    let _ = vi.parse_event(key(KeyCode::Char('i'), KeyModifiers::none()));
    assert!(matches!(vi.mode, ViMode::Insert));
}

#[test]
fn previous_set_after_complete_command() {
    let mut vi = Vi {
        mode: ViMode::Normal,
        ..Default::default()
    };
    let _ = vi.parse_event(key(KeyCode::Char('d'), KeyModifiers::none()));
    let _ = vi.parse_event(key(KeyCode::Char('w'), KeyModifiers::none()));
    assert!(
        vi.previous.is_some(),
        "previous should track the last complete command"
    );
}

#[test]
fn paste_event_produces_insert_string() {
    let mut vi = Vi::default();
    let paste = InputEvent::Paste("hello".to_string());
    let result = vi.parse_event(paste);

    assert_eq!(
        result,
        ReedlineEvent::Edit(vec![EditCommand::InsertString("hello".to_string())]),
    );
}

#[test]
fn resize_event_passes_through() {
    let mut vi = Vi::default();
    let resize = InputEvent::Resize(80, 24);
    let result = vi.parse_event(resize);
    assert_eq!(result, ReedlineEvent::Resize(80, 24));
}

#[test]
fn focus_gained_returns_none() {
    let mut vi = Vi::default();
    let ev = InputEvent::FocusGained;
    assert_eq!(vi.parse_event(ev), ReedlineEvent::Nothing);
}

#[test]
fn mouse_down_event_produces_mouse_event() {
    let mut vi = Vi::default();
    let ev = InputEvent::MouseDown { button: MouseButton::Left, column: 5, row: 10, modifiers: KeyModifiers::none() };

    assert_eq!(
        vi.parse_event(ev),
        ReedlineEvent::Mouse {
            column: 5,
            row: 10,
            button: MouseButton::Left,
        },
    );
}

#[test]
fn partial_multiplier_holds_cache() {
    let mut vi = Vi {
        mode: ViMode::Normal,
        ..Default::default()
    };
    let result = vi.parse_event(key(KeyCode::Char('2'), KeyModifiers::none()));

    assert_eq!(result, ReedlineEvent::Nothing);
    assert_eq!(vi.cache, vec!['2']);
}

#[test]
fn invalid_motion_after_operator_clears_cache() {
    let mut vi = Vi {
        mode: ViMode::Normal,
        ..Default::default()
    };
    let _ = vi.parse_event(key(KeyCode::Char('d'), KeyModifiers::none()));
    assert_eq!(vi.cache, vec!['d']);

    let result = vi.parse_event(key(KeyCode::Char('z'), KeyModifiers::none()));

    assert_eq!(result, ReedlineEvent::Nothing);
    assert!(
        vi.cache.is_empty(),
        "an invalid motion should drop the cached operator",
    );
}

#[test]
fn dot_replays_previous_wrapped_in_outer_multiple() {
    // `.` produces Multiple([previous]); this assertion pins the shape.
    let mut vi = Vi {
        mode: ViMode::Normal,
        ..Default::default()
    };
    let _ = vi.parse_event(key(KeyCode::Char('d'), KeyModifiers::none()));
    let dw = vi.parse_event(key(KeyCode::Char('w'), KeyModifiers::none()));
    assert!(vi.previous.is_some());

    let dot = vi.parse_event(key(KeyCode::Char('.'), KeyModifiers::none()));
    assert_eq!(dot, ReedlineEvent::Multiple(vec![dw]));
}

#[test]
fn repeating_dot_replays_the_same_change() {
    let mut vi = Vi {
        mode: ViMode::Normal,
        ..Default::default()
    };
    let _ = vi.parse_event(key(KeyCode::Char('d'), KeyModifiers::none()));
    let dw = vi.parse_event(key(KeyCode::Char('w'), KeyModifiers::none()));
    let first = vi.parse_event(key(KeyCode::Char('.'), KeyModifiers::none()));
    let second = vi.parse_event(key(KeyCode::Char('.'), KeyModifiers::none()));
    assert_eq!(first, second);
    assert_eq!(vi.previous, Some(dw));
}

#[test]
fn count_that_would_overflow_is_not_accepted() {
    let mut vi = Vi {
        mode: ViMode::Normal,
        ..Default::default()
    };
    for c in "1844674407370955161".chars() {
        assert!(vi.accepts_key(KeyCode::Char(c), KeyModifiers::none()));
        assert_eq!(
            vi.parse_event(key(KeyCode::Char(c), KeyModifiers::none())),
            ReedlineEvent::Nothing
        );
    }
    assert!(vi.accepts_key(KeyCode::Char('5'), KeyModifiers::none()));
    assert!(!vi.accepts_key(KeyCode::Char('6'), KeyModifiers::none()));
    assert!(vi.accepts_key(KeyCode::Esc, KeyModifiers::none()));
}

#[test]
fn unbound_char_in_normal_feeds_parser() {
    let mut vi = Vi {
        mode: ViMode::Normal,
        ..Default::default()
    };

    let _ = vi.parse_event(key(KeyCode::Char('d'), KeyModifiers::none()));
    let result = vi.parse_event(key(KeyCode::Char('w'), KeyModifiers::none()));

    // `dw` lowers to the general cut over a word motion.
    assert_eq!(
        result,
        ReedlineEvent::Multiple(vec![ReedlineEvent::Edit(vec![EditCommand::Cut {
            target: MotionTarget::Word {
                kind: WordKind::Word,
                edge: WordEdge::Start,
                direction: Direction::Forward,
            },
            granularity: Granularity::CharWise,
        }])]),
    );
    assert!(
        vi.cache.is_empty(),
        "cache should be cleared after a complete sequence"
    );
}

#[test]
fn shift_char_pushed_uppercase_into_cache() {
    let mut vi = Vi {
        mode: ViMode::Normal,
        ..Default::default()
    };
    let result = vi.parse_event(key(KeyCode::Char('w'), KeyModifiers::shift()));

    assert_eq!(
        result,
        ReedlineEvent::Multiple(vec![ReedlineEvent::Edit(vec![EditCommand::Move(
            MotionTarget::Word {
                kind: WordKind::LongWord,
                edge: WordEdge::Start,
                direction: Direction::Forward,
            }
        )])]),
    );
}

#[test]
fn d_in_visual_emits_cut_selection_and_returns_to_normal() {
    let mut vi = Vi {
        mode: ViMode::Visual,
        ..Default::default()
    };
    let result = vi.parse_event(key(KeyCode::Char('d'), KeyModifiers::none()));

    assert_eq!(
        result,
        ReedlineEvent::Multiple(vec![ReedlineEvent::Edit(vec![EditCommand::CutSelection {
            granularity: Granularity::CharWise,
        }])]),
    );
    assert!(matches!(vi.mode, ViMode::Normal));
}

#[test]
fn multiplier_repeats_operator_motion() {
    let mut vi = Vi {
        mode: ViMode::Normal,
        ..Default::default()
    };
    let _ = vi.parse_event(key(KeyCode::Char('2'), KeyModifiers::none()));
    let _ = vi.parse_event(key(KeyCode::Char('d'), KeyModifiers::none()));
    let result = vi.parse_event(key(KeyCode::Char('w'), KeyModifiers::none()));

    let cut = || {
        ReedlineEvent::Edit(vec![EditCommand::Cut {
            target: MotionTarget::Word {
                kind: WordKind::Word,
                edge: WordEdge::Start,
                direction: Direction::Forward,
            },
            granularity: Granularity::CharWise,
        }])
    };
    assert_eq!(result, ReedlineEvent::Multiple(vec![cut(), cut()]));
    assert!(vi.cache.is_empty());
}

#[test]
fn multiplier_alone_repeats_motion() {
    let mut vi = Vi {
        mode: ViMode::Normal,
        ..Default::default()
    };
    let _ = vi.parse_event(key(KeyCode::Char('3'), KeyModifiers::none()));
    let result = vi.parse_event(key(KeyCode::Char('w'), KeyModifiers::none()));

    let mv = || {
        ReedlineEvent::Edit(vec![EditCommand::Move(MotionTarget::Word {
            kind: WordKind::Word,
            edge: WordEdge::Start,
            direction: Direction::Forward,
        })])
    };
    assert_eq!(result, ReedlineEvent::Multiple(vec![mv(), mv(), mv()]));
    assert!(vi.cache.is_empty());
}

#[test]
fn linewise_dd_emits_cut_current_line() {
    let mut vi = Vi {
        mode: ViMode::Normal,
        ..Default::default()
    };
    let _ = vi.parse_event(key(KeyCode::Char('d'), KeyModifiers::none()));
    let result = vi.parse_event(key(KeyCode::Char('d'), KeyModifiers::none()));

    assert_eq!(
        result,
        ReedlineEvent::Multiple(vec![ReedlineEvent::Edit(vec![EditCommand::Cut {
            target: MotionTarget::LineEdge(Direction::Forward),
            granularity: Granularity::LineWise,
        }])]),
    );
    assert!(vi.cache.is_empty());
}

#[test]
fn repeated_dot_accumulates_nesting_in_previous() {
    // `.` replays the last change without recording itself, so the
    // remembered change keeps its depth however often it is repeated.
    fn depth(ev: &ReedlineEvent) -> usize {
        match ev {
            ReedlineEvent::Multiple(v) if v.len() == 1 => 1 + depth(&v[0]),
            _ => 0,
        }
    }
    let mut vi = Vi {
        mode: ViMode::Normal,
        ..Default::default()
    };
    let _ = vi.parse_event(key(KeyCode::Char('d'), KeyModifiers::none()));
    let _ = vi.parse_event(key(KeyCode::Char('w'), KeyModifiers::none()));
    assert_eq!(depth(vi.previous.as_ref().unwrap()), 1);

    let _ = vi.parse_event(key(KeyCode::Char('.'), KeyModifiers::none()));
    assert_eq!(depth(vi.previous.as_ref().unwrap()), 1);

    let _ = vi.parse_event(key(KeyCode::Char('.'), KeyModifiers::none()));
    assert_eq!(depth(vi.previous.as_ref().unwrap()), 1);

    let _ = vi.parse_event(key(KeyCode::Char('.'), KeyModifiers::none()));
    assert_eq!(depth(vi.previous.as_ref().unwrap()), 1);
}
