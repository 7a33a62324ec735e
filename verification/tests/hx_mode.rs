//! The older Helix mode's key machine, key by key.
use reedline::edit_mode::hx::hx_keybindings::{
    default_hx_insert_keybindings, default_hx_normal_keybindings,
};
use reedline::edit_mode::hx::{Helix, HelixMode, InsertStyle, Pending};
use reedline::edit_mode::EditMode;
use reedline::enums::{
    EditCommand, Granularity, Movement, PromptEditMode, PromptHelixMode, ReedlineEvent,
    WordMotionTarget,
};
use reedline::keys::{InputEvent, KeyCode, KeyModifiers};

fn key_press(code: KeyCode, modifiers: KeyModifiers) -> InputEvent {
    InputEvent::Key { code, modifiers }
}

fn char_key(c: char) -> InputEvent {
    key_press(KeyCode::Char(c), KeyModifiers::none())
}

fn edit_mode_hx(hx: &Helix) -> PromptHelixMode {
    match hx.edit_mode() {
        PromptEditMode::Helix(m) => m,
        other => panic!("unexpected prompt edit mode: {:?}", other),
    }
}

#[test]
fn ctrl_c_works_in_all_modes() {
    for initial_mode in [HelixMode::Insert, HelixMode::Normal, HelixMode::Select] {
        let mut hx = Helix {
            mode: initial_mode,
            ..Default::default()
        };
        let event = hx.parse_event(key_press(KeyCode::Char('c'), KeyModifiers::control()));
        assert_eq!(event, ReedlineEvent::CtrlC);
    }
}

#[test]
fn ctrl_d_eof_in_normal_and_select() {
    for initial_mode in [HelixMode::Normal, HelixMode::Select] {
        let mut hx = Helix {
            mode: initial_mode,
            ..Default::default()
        };
        let event = hx.parse_event(key_press(KeyCode::Char('d'), KeyModifiers::control()));
        assert_eq!(event, ReedlineEvent::CtrlD);
    }
}

#[test]
fn ctrl_d_deletes_forward_in_insert() {
    let mut hx = Helix {
        mode: HelixMode::Insert,
        ..Default::default()
    };
    let event = hx.parse_event(key_press(KeyCode::Char('d'), KeyModifiers::control()));
    assert_eq!(event, ReedlineEvent::Edit(vec![EditCommand::Delete]));
}

#[test]
fn esc_from_insert_enters_normal() {
    let mut hx = Helix {
        mode: HelixMode::Insert,
        ..Default::default()
    };
    let event = hx.parse_event(key_press(KeyCode::Esc, KeyModifiers::none()));
    assert_eq!(
        event,
        ReedlineEvent::Multiple(vec![
            ReedlineEvent::Esc,
            ReedlineEvent::Edit(vec![EditCommand::MoveLeft { select: false }]),
            ReedlineEvent::Edit(vec![EditCommand::HxRestartSelection]),
            ReedlineEvent::Repaint,
        ])
    );
    assert_eq!(hx.mode, HelixMode::Normal);
}

#[test]
fn i_from_normal_enters_insert() {
    let mut hx = Helix {
        mode: HelixMode::Normal,
        ..Default::default()
    };
    let event = hx.parse_event(char_key('i'));
    assert_eq!(
        event,
        ReedlineEvent::Multiple(vec![
            ReedlineEvent::Edit(vec![
                EditCommand::HxEnsureSelection,
                EditCommand::HxMoveToSelectionStart,
            ]),
            ReedlineEvent::Repaint,
        ])
    );
    assert_eq!(hx.mode, HelixMode::Insert);
    assert_eq!(hx.insert_style, InsertStyle::Before);
}

#[test]
fn a_from_normal_enters_insert_after_selection() {
    let mut hx = Helix {
        mode: HelixMode::Normal,
        ..Default::default()
    };
    let event = hx.parse_event(char_key('a'));
    assert_eq!(
        event,
        ReedlineEvent::Multiple(vec![
            ReedlineEvent::Edit(vec![
                EditCommand::HxEnsureSelection,
                EditCommand::HxMoveToSelectionEnd,
            ]),
            ReedlineEvent::Repaint,
        ])
    );
    assert_eq!(hx.mode, HelixMode::Insert);
    assert_eq!(hx.insert_style, InsertStyle::After);
}

#[test]
fn v_toggles_select_mode() {
    let mut hx = Helix {
        mode: HelixMode::Normal,
        ..Default::default()
    };
    // Normal -> Select
    let event = hx.parse_event(char_key('v'));
    assert_eq!(event, ReedlineEvent::Repaint);
    assert_eq!(hx.mode, HelixMode::Select);

    // Select -> Normal (with selection restart)
    let event = hx.parse_event(char_key('v'));
    assert!(matches!(event, ReedlineEvent::Multiple(_)));
    assert_eq!(hx.mode, HelixMode::Normal);
}

#[test]
fn insert_char_in_insert_mode() {
    let mut hx = Helix {
        mode: HelixMode::Insert,
        ..Default::default()
    };
    let event = hx.parse_event(char_key('x'));
    assert_eq!(
        event,
        ReedlineEvent::Edit(vec![EditCommand::InsertChar('x')])
    );
}

#[test]
fn insert_char_in_append_mode_extends_selection() {
    let mut hx = Helix {
        mode: HelixMode::Insert,
        insert_style: InsertStyle::After,
        ..Default::default()
    };
    let event = hx.parse_event(char_key('x'));
    assert_eq!(
        event,
        ReedlineEvent::Edit(vec![
            EditCommand::InsertChar('x'),
            EditCommand::HxExtendSelectionToInsertionPoint,
        ])
    );
}

#[test]
fn insert_char_in_before_mode_shifts_selection() {
    let mut hx = Helix {
        mode: HelixMode::Insert,
        insert_style: InsertStyle::Before,
        ..Default::default()
    };
    let event = hx.parse_event(char_key('x'));
    assert_eq!(
        event,
        ReedlineEvent::Edit(vec![
            EditCommand::InsertChar('x'),
            EditCommand::HxShiftSelectionToInsertionPoint,
        ])
    );
}

#[test]
fn h_in_normal_produces_motion_with_collapse() {
    let mut hx = Helix {
        mode: HelixMode::Normal,
        ..Default::default()
    };
    let event = hx.parse_event(char_key('h'));
    // Normal mode: move then collapse (no visible selection).
    assert_eq!(
        event,
        ReedlineEvent::Edit(vec![
            EditCommand::MoveLeft { select: false },
            EditCommand::HxRestartSelection,
        ])
    );
}

#[test]
fn h_in_select_extends_without_restart() {
    let mut hx = Helix {
        mode: HelixMode::Select,
        ..Default::default()
    };
    let event = hx.parse_event(char_key('h'));
    assert_eq!(
        event,
        ReedlineEvent::Edit(vec![
            EditCommand::MoveLeft { select: false },
            EditCommand::HxSyncCursor,
        ])
    );
}

#[test]
fn w_in_normal_produces_word_motion() {
    let mut hx = Helix {
        mode: HelixMode::Normal,
        ..Default::default()
    };
    let event = hx.parse_event(char_key('w'));
    // Word motions handle their own selection (restart is internal to
    // hx_word_motion so no-progress motions can preserve the selection).
    assert_eq!(
        event,
        ReedlineEvent::Edit(vec![EditCommand::HxWordMotion {
            target: WordMotionTarget::NextWordStart,
            movement: Movement::Move,
            count: 1,
        }])
    );
}

#[test]
fn enter_in_insert_mode() {
    let mut hx = Helix {
        mode: HelixMode::Insert,
        ..Default::default()
    };
    let event = hx.parse_event(key_press(KeyCode::Enter, KeyModifiers::none()));
    assert_eq!(event, ReedlineEvent::Enter);
}

#[test]
fn backspace_plain_insert_is_bare() {
    let mut hx = Helix {
        mode: HelixMode::Insert,
        ..Default::default()
    };
    let event = hx.parse_event(key_press(KeyCode::Backspace, KeyModifiers::none()));
    assert_eq!(event, ReedlineEvent::Edit(vec![EditCommand::Backspace]));
    assert_eq!(hx.insert_style, InsertStyle::Plain);
}

#[test]
fn backspace_in_a_mode_extends_selection() {
    let mut hx = Helix {
        mode: HelixMode::Insert,
        insert_style: InsertStyle::After,
        ..Default::default()
    };
    let event = hx.parse_event(key_press(KeyCode::Backspace, KeyModifiers::none()));
    assert_eq!(
        event,
        ReedlineEvent::Edit(vec![
            EditCommand::Backspace,
            EditCommand::HxExtendSelectionToInsertionPoint,
        ])
    );
    // insert_style stays After — selection is still tracked.
    assert_eq!(hx.insert_style, InsertStyle::After);
}

#[test]
fn backspace_in_i_mode_shifts_selection() {
    let mut hx = Helix {
        mode: HelixMode::Insert,
        insert_style: InsertStyle::Before,
        ..Default::default()
    };
    let event = hx.parse_event(key_press(KeyCode::Backspace, KeyModifiers::none()));
    assert_eq!(
        event,
        ReedlineEvent::Edit(vec![
            EditCommand::Backspace,
            EditCommand::HxShiftSelectionToInsertionPoint,
        ])
    );
    assert_eq!(hx.insert_style, InsertStyle::Before);
}

#[test]
fn delete_in_insert_preserves_selection() {
    let mut hx = Helix {
        mode: HelixMode::Insert,
        insert_style: InsertStyle::Before,
        ..Default::default()
    };
    let event = hx.parse_event(key_press(KeyCode::Delete, KeyModifiers::none()));
    assert_eq!(event, ReedlineEvent::Edit(vec![EditCommand::Delete]));
    assert_eq!(hx.insert_style, InsertStyle::Before);
}

#[test]
fn arrow_left_in_insert_clears_selection() {
    let mut hx = Helix {
        mode: HelixMode::Insert,
        insert_style: InsertStyle::After,
        ..Default::default()
    };
    let event = hx.parse_event(key_press(KeyCode::Left, KeyModifiers::none()));
    assert_eq!(
        event,
        ReedlineEvent::Edit(vec![
            EditCommand::MoveLeft { select: false },
            EditCommand::HxClearSelection,
        ])
    );
    assert_eq!(hx.insert_style, InsertStyle::Plain);
}

#[test]
fn count_not_consumed_by_editing_commands() {
    let mut hx = Helix {
        mode: HelixMode::Normal,
        ..Default::default()
    };
    // Press '3' then 'd' — count should be discarded, not affect deletion.
    hx.parse_event(char_key('3'));
    assert_eq!(hx.count, 3);
    let event = hx.parse_event(char_key('d'));
    assert_eq!(
        event,
        ReedlineEvent::Edit(vec![
            EditCommand::HxEnsureSelection,
            EditCommand::CutSelection { granularity: Granularity::CharWise },
            EditCommand::HxRestartSelection,
        ])
    );
    // Count was reset.
    assert_eq!(hx.count, 0);
}

#[test]
fn count_applies_to_j_k() {
    let mut hx = Helix {
        mode: HelixMode::Normal,
        ..Default::default()
    };
    hx.parse_event(char_key('3'));
    let event = hx.parse_event(char_key('j'));
    assert!(matches!(event, ReedlineEvent::Multiple(ref v) if v.len() == 3));
}

#[test]
fn edit_mode_returns_correct_prompt() {
    let mut hx = Helix::default();
    assert!(matches!(edit_mode_hx(&hx), PromptHelixMode::Normal));

    hx.mode = HelixMode::Insert;
    assert!(matches!(edit_mode_hx(&hx), PromptHelixMode::Insert));

    hx.mode = HelixMode::Select;
    assert!(matches!(edit_mode_hx(&hx), PromptHelixMode::Select));
}

#[test]
fn count_prefix_repeats_h_motion_normal() {
    let mut hx = Helix {
        mode: HelixMode::Normal,
        ..Default::default()
    };
    // Press '3' then 'h' — Normal mode batches moves + one restart.
    let event = hx.parse_event(char_key('3'));
    assert_eq!(event, ReedlineEvent::Nothing);
    let event = hx.parse_event(char_key('h'));
    assert_eq!(
        event,
        ReedlineEvent::Edit(vec![
            EditCommand::MoveLeft { select: false },
            EditCommand::MoveLeft { select: false },
            EditCommand::MoveLeft { select: false },
            EditCommand::HxRestartSelection,
        ])
    );
}

#[test]
fn count_prefix_repeats_h_motion_select() {
    let mut hx = Helix {
        mode: HelixMode::Select,
        ..Default::default()
    };
    // Press '3' then 'h' — Select mode needs per-step sync.
    hx.parse_event(char_key('3'));
    let event = hx.parse_event(char_key('h'));
    assert!(matches!(event, ReedlineEvent::Multiple(ref v) if v.len() == 3));
}

#[test]
fn count_prefix_passes_to_word_motion() {
    let mut hx = Helix {
        mode: HelixMode::Normal,
        ..Default::default()
    };
    hx.parse_event(char_key('2'));
    let event = hx.parse_event(char_key('w'));
    assert_eq!(
        event,
        ReedlineEvent::Edit(vec![EditCommand::HxWordMotion {
            target: WordMotionTarget::NextWordStart,
            movement: Movement::Move,
            count: 2,
        }])
    );
}

#[test]
fn count_zero_extends_digit() {
    let mut hx = Helix {
        mode: HelixMode::Normal,
        ..Default::default()
    };
    hx.parse_event(char_key('1'));
    hx.parse_event(char_key('0'));
    let event = hx.parse_event(char_key('l'));
    // Should produce 10 repetitions
    assert!(matches!(event, ReedlineEvent::Multiple(ref v) if v.len() == 10));
}

#[test]
fn invalid_key_after_goto_cancels() {
    let mut hx = Helix {
        mode: HelixMode::Normal,
        ..Default::default()
    };
    hx.parse_event(char_key('g'));
    let event = hx.parse_event(char_key('z')); // invalid goto target
    assert_eq!(event, ReedlineEvent::Nothing);
    assert_eq!(hx.pending, Pending::Idle);
}

#[test]
fn invalid_key_after_find_cancels() {
    let mut hx = Helix {
        mode: HelixMode::Normal,
        ..Default::default()
    };
    hx.parse_event(char_key('f'));
    // Esc is handled by the top-level Normal/Select match before pending
    // resolution, so it resets everything (mode, pending, count).
    let event = hx.parse_event(key_press(KeyCode::Esc, KeyModifiers::none()));
    assert!(matches!(event, ReedlineEvent::Multiple(_)));
    assert_eq!(hx.pending, Pending::Idle);
}

#[test]
fn goto_gg_moves_to_start() {
    let mut hx = Helix {
        mode: HelixMode::Normal,
        ..Default::default()
    };
    hx.parse_event(char_key('g'));
    let event = hx.parse_event(char_key('g'));
    assert_eq!(
        event,
        ReedlineEvent::Edit(vec![
            EditCommand::MoveToStart { select: false },
            EditCommand::HxRestartSelection,
        ])
    );
}

#[test]
fn goto_ge_is_unbound() {
    let mut hx = Helix {
        mode: HelixMode::Normal,
        ..Default::default()
    };
    hx.parse_event(char_key('g'));
    let event = hx.parse_event(char_key('e'));
    // ge is not yet implemented (needs PrevWordEnd motion target).
    assert_eq!(event, ReedlineEvent::Nothing);
}

#[test]
fn f_char_produces_extending_motion() {
    let mut hx = Helix {
        mode: HelixMode::Normal,
        ..Default::default()
    };
    hx.parse_event(char_key('f'));
    let event = hx.parse_event(char_key('x'));
    assert_eq!(
        event,
        ReedlineEvent::Edit(vec![
            EditCommand::MoveRightUntil {
                c: 'x',
                select: false
            },
            EditCommand::HxSyncCursorWithRestart,
        ])
    );
}

#[test]
fn big_i_enters_insert_at_line_start() {
    let mut hx = Helix {
        mode: HelixMode::Normal,
        ..Default::default()
    };
    let event = hx.parse_event(char_key('I'));
    assert_eq!(
        event,
        ReedlineEvent::Multiple(vec![
            ReedlineEvent::Edit(vec![
                EditCommand::HxClearSelection,
                EditCommand::MoveToLineStart { select: false },
            ]),
            ReedlineEvent::Repaint,
        ])
    );
    assert_eq!(hx.mode, HelixMode::Insert);
}

#[test]
fn big_a_enters_insert_at_line_end() {
    let mut hx = Helix {
        mode: HelixMode::Normal,
        ..Default::default()
    };
    let event = hx.parse_event(char_key('A'));
    assert_eq!(
        event,
        ReedlineEvent::Multiple(vec![
            ReedlineEvent::Edit(vec![
                EditCommand::HxClearSelection,
                EditCommand::MoveToLineEnd { select: false },
            ]),
            ReedlineEvent::Repaint,
        ])
    );
    assert_eq!(hx.mode, HelixMode::Insert);
}

#[test]
fn d_deletes_with_yank() {
    let mut hx = Helix {
        mode: HelixMode::Normal,
        ..Default::default()
    };
    let event = hx.parse_event(char_key('d'));
    assert_eq!(
        event,
        ReedlineEvent::Edit(vec![
            EditCommand::HxEnsureSelection,
            EditCommand::CutSelection { granularity: Granularity::CharWise },
            EditCommand::HxRestartSelection,
        ])
    );
}

#[test]
fn alt_d_deletes_without_yank() {
    let mut hx = Helix {
        mode: HelixMode::Normal,
        ..Default::default()
    };
    let event = hx.parse_event(key_press(KeyCode::Char('d'), KeyModifiers::alt()));
    assert_eq!(
        event,
        ReedlineEvent::Edit(vec![
            EditCommand::HxEnsureSelection,
            EditCommand::HxDeleteSelection,
            EditCommand::HxRestartSelection,
        ])
    );
}

#[test]
fn c_changes_with_yank() {
    let mut hx = Helix {
        mode: HelixMode::Normal,
        ..Default::default()
    };
    let event = hx.parse_event(char_key('c'));
    assert_eq!(
        event,
        ReedlineEvent::Multiple(vec![
            ReedlineEvent::Edit(vec![
                EditCommand::HxEnsureSelection,
                EditCommand::CutSelection { granularity: Granularity::CharWise },
                EditCommand::HxClearSelection,
            ]),
            ReedlineEvent::Repaint,
        ])
    );
    assert_eq!(hx.mode, HelixMode::Insert);
}

#[test]
fn y_yanks_preserving_selection() {
    let mut hx = Helix {
        mode: HelixMode::Normal,
        ..Default::default()
    };
    let event = hx.parse_event(char_key('y'));
    assert_eq!(
        event,
        ReedlineEvent::Edit(vec![
            EditCommand::HxEnsureSelection,
            EditCommand::CopySelection,
        ])
    );
}

#[test]
fn p_pastes_after_selection() {
    let mut hx = Helix {
        mode: HelixMode::Normal,
        ..Default::default()
    };
    let event = hx.parse_event(char_key('p'));
    assert_eq!(
        event,
        ReedlineEvent::Edit(vec![
            EditCommand::HxEnsureSelection,
            EditCommand::HxMoveToSelectionEnd,
            EditCommand::HxClearSelection,
            EditCommand::PasteCutBufferBefore,
            EditCommand::HxRestartSelection,
        ])
    );
}

#[test]
fn big_p_pastes_before_selection() {
    let mut hx = Helix {
        mode: HelixMode::Normal,
        ..Default::default()
    };
    let event = hx.parse_event(char_key('P'));
    assert_eq!(
        event,
        ReedlineEvent::Edit(vec![
            EditCommand::HxEnsureSelection,
            EditCommand::HxMoveToSelectionStart,
            EditCommand::HxClearSelection,
            EditCommand::PasteCutBufferBefore,
            EditCommand::HxRestartSelection,
        ])
    );
}

#[test]
fn semicolon_restarts_selection() {
    let mut hx = Helix {
        mode: HelixMode::Normal,
        ..Default::default()
    };
    let event = hx.parse_event(char_key(';'));
    assert_eq!(
        event,
        ReedlineEvent::Edit(vec![EditCommand::HxRestartSelection])
    );
}

#[test]
fn percent_selects_entire_buffer() {
    let mut hx = Helix {
        mode: HelixMode::Normal,
        ..Default::default()
    };
    let event = hx.parse_event(char_key('%'));
    assert_eq!(
        event,
        ReedlineEvent::Edit(vec![
            EditCommand::MoveToStart { select: false },
            EditCommand::HxRestartSelection,
            EditCommand::MoveToEnd { select: false },
            EditCommand::HxSyncCursor,
        ])
    );
}

#[test]
fn x_selects_entire_line() {
    let mut hx = Helix {
        mode: HelixMode::Normal,
        ..Default::default()
    };
    let event = hx.parse_event(char_key('x'));
    assert_eq!(
        event,
        ReedlineEvent::Edit(vec![
            EditCommand::MoveToLineStart { select: false },
            EditCommand::HxRestartSelection,
            EditCommand::MoveToLineEnd { select: false },
            EditCommand::HxSyncCursor,
        ])
    );
}

#[test]
fn o_flips_selection() {
    let mut hx = Helix {
        mode: HelixMode::Normal,
        ..Default::default()
    };
    let event = hx.parse_event(char_key('o'));
    assert_eq!(
        event,
        ReedlineEvent::Edit(vec![EditCommand::HxFlipSelection])
    );
}

#[test]
fn u_undoes() {
    let mut hx = Helix {
        mode: HelixMode::Normal,
        ..Default::default()
    };
    let event = hx.parse_event(char_key('u'));
    assert_eq!(
        event,
        ReedlineEvent::Edit(vec![EditCommand::Undo, EditCommand::HxRestartSelection,])
    );
}

#[test]
fn big_u_redoes() {
    let mut hx = Helix {
        mode: HelixMode::Normal,
        ..Default::default()
    };
    let event = hx.parse_event(char_key('U'));
    assert_eq!(
        event,
        ReedlineEvent::Edit(vec![EditCommand::Redo, EditCommand::HxRestartSelection,])
    );
}

#[test]
fn r_char_replaces_selection() {
    let mut hx = Helix {
        mode: HelixMode::Normal,
        ..Default::default()
    };
    hx.parse_event(char_key('r'));
    let event = hx.parse_event(char_key('z'));
    assert_eq!(
        event,
        ReedlineEvent::Edit(vec![
            EditCommand::HxEnsureSelection,
            EditCommand::HxReplaceSelectionWithChar('z'),
        ])
    );
}

#[test]
fn tilde_switches_case() {
    let mut hx = Helix {
        mode: HelixMode::Normal,
        ..Default::default()
    };
    let event = hx.parse_event(char_key('~'));
    assert_eq!(
        event,
        ReedlineEvent::Edit(vec![
            EditCommand::HxEnsureSelection,
            EditCommand::HxSwitchCaseSelection,
        ])
    );
}

#[test]
fn esc_in_normal_resets_pending_and_count() {
    let mut hx = Helix {
        mode: HelixMode::Normal,
        ..Default::default()
    };
    hx.parse_event(char_key('5')); // count
    hx.parse_event(char_key('g')); // pending goto
    let event = hx.parse_event(key_press(KeyCode::Esc, KeyModifiers::none()));
    assert!(matches!(event, ReedlineEvent::Multiple(_)));
    assert_eq!(hx.mode, HelixMode::Normal);
    assert_eq!(hx.pending, Pending::Idle);
    assert_eq!(hx.count, 0);
}

#[test]
fn enter_in_normal_submits() {
    let mut hx = Helix {
        mode: HelixMode::Normal,
        ..Default::default()
    };
    let event = hx.parse_event(key_press(KeyCode::Enter, KeyModifiers::none()));
    assert_eq!(event, ReedlineEvent::Enter);
}

#[test]
fn big_f_char_produces_extending_motion() {
    let mut hx = Helix {
        mode: HelixMode::Normal,
        ..Default::default()
    };
    hx.parse_event(char_key('F'));
    let event = hx.parse_event(char_key('a'));
    assert_eq!(
        event,
        ReedlineEvent::Edit(vec![
            EditCommand::MoveLeftUntil {
                c: 'a',
                select: false
            },
            EditCommand::HxSyncCursorWithRestart,
        ])
    );
}

#[test]
fn big_t_char_produces_extending_motion() {
    let mut hx = Helix {
        mode: HelixMode::Normal,
        ..Default::default()
    };
    hx.parse_event(char_key('T'));
    let event = hx.parse_event(char_key('a'));
    assert_eq!(
        event,
        ReedlineEvent::Edit(vec![
            EditCommand::MoveLeftBefore {
                c: 'a',
                select: false
            },
            EditCommand::HxSyncCursorWithRestart,
        ])
    );
}

#[test]
fn count_with_f_produces_multiple_events() {
    let mut hx = Helix {
        mode: HelixMode::Normal,
        ..Default::default()
    };
    hx.parse_event(char_key('2'));
    hx.parse_event(char_key('f'));
    let event = hx.parse_event(char_key('x'));
    // count=2: first has HxSyncCursorWithRestart, rest have HxSyncCursor
    assert!(matches!(event, ReedlineEvent::Multiple(ref v) if v.len() == 2));
}

#[test]
fn count_zero_at_start_is_not_count() {
    let mut hx = Helix {
        mode: HelixMode::Normal,
        ..Default::default()
    };
    // '0' at start should not be a count digit (count is 0, so it's not > 0)
    let event = hx.parse_event(char_key('0'));
    // Falls through to match code block (no motion bound to '0')
    assert_eq!(event, ReedlineEvent::Nothing);
    assert_eq!(hx.count, 0);
}

#[test]
fn large_count_on_short_buffer_does_not_panic() {
    let mut hx = Helix {
        mode: HelixMode::Normal,
        ..Default::default()
    };
    // Enter count 100
    hx.parse_event(char_key('1'));
    hx.parse_event(char_key('0'));
    hx.parse_event(char_key('0'));
    let event = hx.parse_event(char_key('h'));
    // Should produce 100 MoveLeft + HxRestartSelection
    match event {
        ReedlineEvent::Edit(ref cmds) => {
            assert_eq!(cmds.len(), 101); // 100 MoveLeft + 1 HxRestartSelection
        }
        _ => panic!("expected Edit event"),
    }
}

#[test]
fn esc_from_insert_resets_insert_style() {
    let mut hx = Helix {
        mode: HelixMode::Insert,
        insert_style: InsertStyle::After,
        ..Default::default()
    };
    hx.parse_event(key_press(KeyCode::Esc, KeyModifiers::none()));
    assert_eq!(hx.mode, HelixMode::Normal);
    assert_eq!(hx.insert_style, InsertStyle::Plain);
}

#[test]
fn hx_default_tables_hold_the_common_bindings() {
    let normal = default_hx_normal_keybindings();
    let insert = default_hx_insert_keybindings();
    assert_eq!(
        normal.find_binding(KeyModifiers::control(), KeyCode::Char('c')),
        Some(ReedlineEvent::CtrlC)
    );
    assert_eq!(normal.find_binding(KeyModifiers::none(), KeyCode::Backspace), None);
    assert_eq!(
        insert.find_binding(KeyModifiers::none(), KeyCode::Backspace),
        Some(ReedlineEvent::Edit(vec![EditCommand::Backspace]))
    );
}
