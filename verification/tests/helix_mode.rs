//! The Helix edit mode: counts, prefix keys, the key table and lowering.
use reedline::edit_mode::helix::{interpret, Action, Helix, HelixMode, Op, Outcome, Pending, Verb};
use reedline::edit_mode::EditMode;
use reedline::enums::{
    Direction, EditCommand, FindStop, Granularity, MotionTarget, PromptEditMode, PromptHelixMode,
    ReedlineEvent, WordEdge, WordKind,
};
use reedline::keys::{InputEvent, KeyCode, KeyModifiers};

fn key(code: KeyCode, modifiers: KeyModifiers) -> InputEvent {
    InputEvent::Key { code, modifiers }
}

fn chr(c: char) -> InputEvent {
    let modifiers = if c.is_ascii_uppercase() {
        KeyModifiers::shift()
    } else {
        KeyModifiers::none()
    };
    key(KeyCode::Char(c), modifiers)
}

fn normal() -> Helix {
    Helix {
        mode: HelixMode::Normal,
        ..Default::default()
    }
}

fn word(kind: WordKind, edge: WordEdge, direction: Direction) -> MotionTarget {
    MotionTarget::Word {
        kind,
        edge,
        direction,
    }
}

fn w() -> MotionTarget {
    word(WordKind::Word, WordEdge::Start, Direction::Forward)
}

#[test]
fn defaults_to_insert_and_inserts_chars() {
    let mut helix = Helix::default();
    assert_eq!(
        helix.edit_mode(),
        PromptEditMode::Helix(PromptHelixMode::Insert)
    );
    assert_eq!(
        helix.parse_event(chr('a')),
        ReedlineEvent::Edit(vec![EditCommand::InsertChar('a')])
    );
}

#[test]
fn insert_accepts_altgr_chars() {
    let mut helix = Helix::default();
    assert_eq!(
        helix.parse_event(key(
            KeyCode::Char('µ'),
            KeyModifiers::control().union(KeyModifiers::alt())
        )),
        ReedlineEvent::Edit(vec![EditCommand::InsertChar('µ')])
    );
}

#[test]
fn insert_esc_enters_normal() {
    let mut helix = Helix::default();
    assert_eq!(
        helix.parse_event(key(KeyCode::Esc, KeyModifiers::none())),
        ReedlineEvent::Multiple(vec![ReedlineEvent::Esc, ReedlineEvent::Repaint])
    );
    assert_eq!(helix.mode, HelixMode::Normal);
}

#[test]
fn insert_enter_submits_only_without_modifiers() {
    let mut helix = Helix::default();
    assert_eq!(
        helix.parse_event(key(KeyCode::Enter, KeyModifiers::none())),
        ReedlineEvent::Enter
    );
    // unbound Enter chords must not submit
    assert_eq!(
        helix.parse_event(key(KeyCode::Enter, KeyModifiers::control())),
        ReedlineEvent::Nothing
    );
}

// ---- motions ----

#[test]
fn word_motions_select_in_normal_mode() {
    let cases: Vec<(char, WordKind, WordEdge, Direction)> = vec![
        ('w', WordKind::Word, WordEdge::Start, Direction::Forward),
        ('W', WordKind::LongWord, WordEdge::Start, Direction::Forward),
        ('e', WordKind::Word, WordEdge::End, Direction::Forward),
        ('E', WordKind::LongWord, WordEdge::End, Direction::Forward),
        ('b', WordKind::Word, WordEdge::Start, Direction::Backward),
        ('B', WordKind::LongWord, WordEdge::Start, Direction::Backward),
    ];
    for (c, kind, edge, direction) in cases {
        let mut helix = normal();
        assert_eq!(
            helix.parse_event(chr(c)),
            ReedlineEvent::Edit(vec![EditCommand::Select(word(kind, edge, direction))])
        );
    }
}

#[test]
fn word_motion_extends_in_select_mode() {
    let mut helix = normal();
    let _ = helix.parse_event(chr('v'));
    assert_eq!(
        helix.parse_event(chr('w')),
        ReedlineEvent::Edit(vec![EditCommand::Extend(w())])
    );
}

#[test]
fn h_and_l_collapse_in_normal_extend_in_select() {
    let mut helix = normal();
    assert_eq!(
        helix.parse_event(chr('l')),
        ReedlineEvent::Edit(vec![EditCommand::Move(MotionTarget::Grapheme(
            Direction::Forward
        ))])
    );
    let _ = helix.parse_event(chr('v'));
    assert_eq!(
        helix.parse_event(chr('h')),
        ReedlineEvent::Edit(vec![EditCommand::Extend(MotionTarget::Grapheme(
            Direction::Backward
        ))])
    );
}

// ---- counts ----

#[test]
fn count_repeats_motion() {
    let mut helix = normal();
    assert_eq!(helix.parse_event(chr('3')), ReedlineEvent::Nothing);
    assert_eq!(
        helix.parse_event(chr('w')),
        ReedlineEvent::Edit(vec![EditCommand::Select(w()); 3])
    );
    assert_eq!(helix.count, None);
}

#[test]
fn x_selects_a_line_once_per_count() {
    // Repeating composes here: each application re-reads the selection and
    // grows it by one line.
    let mut helix = normal();
    assert_eq!(
        helix.parse_event(chr('x')),
        ReedlineEvent::Edit(vec![EditCommand::SelectLine])
    );
    assert_eq!(helix.parse_event(chr('3')), ReedlineEvent::Nothing);
    assert_eq!(
        helix.parse_event(chr('x')),
        ReedlineEvent::Edit(vec![EditCommand::SelectLine; 3])
    );
}

#[test]
fn count_accumulates_digits() {
    let mut helix = normal();
    let _ = helix.parse_event(chr('1'));
    let _ = helix.parse_event(chr('2'));
    assert_eq!(
        helix.parse_event(chr('w')),
        ReedlineEvent::Edit(vec![EditCommand::Select(w()); 12])
    );
}

#[test]
fn leading_zero_is_not_a_count() {
    let mut helix = normal();
    assert_eq!(helix.parse_event(chr('0')), ReedlineEvent::Nothing);
    assert_eq!(
        helix.parse_event(chr('w')),
        ReedlineEvent::Edit(vec![EditCommand::Select(w())])
    );
}

#[test]
fn live_count_suppresses_table_bindings() {
    // live sequence state wins over the lookup table
    let mut helix = normal();
    let _ = helix.parse_event(chr('3'));
    assert_eq!(
        helix.parse_event(key(KeyCode::Char('c'), KeyModifiers::control())),
        ReedlineEvent::Nothing
    );
    // the rejected chord killed the count
    assert_eq!(
        helix.parse_event(chr('w')),
        ReedlineEvent::Edit(vec![EditCommand::Select(w())])
    );
}

#[test]
fn ctrl_c_uses_common_control_binding() {
    let mut helix = normal();
    assert_eq!(
        helix.parse_event(key(KeyCode::Char('c'), KeyModifiers::control())),
        ReedlineEvent::CtrlC
    );
}

// ---- pending sequences ----

#[test]
fn find_waits_for_char_then_selects() {
    let mut helix = normal();
    assert_eq!(helix.parse_event(chr('f')), ReedlineEvent::Nothing);
    assert_eq!(
        helix.parse_event(chr('x')),
        ReedlineEvent::Edit(vec![EditCommand::Select(MotionTarget::Find {
            ch: 'x',
            direction: Direction::Forward,
            stop: FindStop::On,
        })])
    );
}

#[test]
fn till_backward_uses_stop_before() {
    let mut helix = normal();
    let _ = helix.parse_event(chr('T'));
    assert_eq!(
        helix.parse_event(chr('a')),
        ReedlineEvent::Edit(vec![EditCommand::Select(MotionTarget::Find {
            ch: 'a',
            direction: Direction::Backward,
            stop: FindStop::Before,
        })])
    );
}

#[test]
fn count_survives_into_pending() {
    let mut helix = normal();
    let _ = helix.parse_event(chr('2'));
    let _ = helix.parse_event(chr('f'));
    let target = MotionTarget::Find {
        ch: 'x',
        direction: Direction::Forward,
        stop: FindStop::On,
    };
    assert_eq!(
        helix.parse_event(chr('x')),
        ReedlineEvent::Edit(vec![EditCommand::Select(target); 2])
    );
}

#[test]
fn find_accepts_altgr_argument() {
    let mut helix = normal();
    let _ = helix.parse_event(chr('f'));
    assert_eq!(
        helix.parse_event(key(
            KeyCode::Char('@'),
            KeyModifiers::control().union(KeyModifiers::alt())
        )),
        ReedlineEvent::Edit(vec![EditCommand::Select(MotionTarget::Find {
            ch: '@',
            direction: Direction::Forward,
            stop: FindStop::On,
        })])
    );
}

#[test]
fn altgr_char_is_not_a_command() {
    let mut helix = normal();
    assert_eq!(
        helix.parse_event(key(
            KeyCode::Char('w'),
            KeyModifiers::control().union(KeyModifiers::alt())
        )),
        ReedlineEvent::Nothing
    );
    assert_eq!(helix.pending, None);
}

#[test]
fn replace_waits_for_char() {
    let mut helix = normal();
    assert_eq!(helix.parse_event(chr('r')), ReedlineEvent::Nothing);
    assert_eq!(
        helix.parse_event(chr('z')),
        ReedlineEvent::Edit(vec![EditCommand::ReplaceChar('z')])
    );
}

// ---- goto ----

#[test]
fn goto_moves_in_normal_and_extends_in_select() {
    let cases: Vec<(char, MotionTarget)> = vec![
        ('h', MotionTarget::LineEdge(Direction::Backward)),
        ('l', MotionTarget::LineEdge(Direction::Forward)),
        ('g', MotionTarget::BufferEdge(Direction::Backward)),
        ('e', MotionTarget::BufferEdge(Direction::Forward)),
    ];
    for (c, target) in cases {
        let mut helix = normal();
        assert_eq!(helix.parse_event(chr('g')), ReedlineEvent::Nothing);
        assert_eq!(
            helix.parse_event(chr(c)),
            ReedlineEvent::Edit(vec![EditCommand::Move(target)])
        );

        let _ = helix.parse_event(chr('v'));
        let _ = helix.parse_event(chr('g'));
        assert_eq!(
            helix.parse_event(chr(c)),
            ReedlineEvent::Edit(vec![EditCommand::Extend(target)])
        );
    }
}

#[test]
fn g_absorbs_without_emitting() {
    let mut helix = normal();
    assert_eq!(helix.parse_event(chr('g')), ReedlineEvent::Nothing);
    assert_eq!(helix.pending, Some(Pending::Goto));
}

#[test]
fn goto_shadows_the_bare_binding_for_the_same_key() {
    let cases: Vec<(char, MotionTarget)> = vec![
        ('h', MotionTarget::LineEdge(Direction::Backward)),
        ('l', MotionTarget::LineEdge(Direction::Forward)),
        ('e', MotionTarget::BufferEdge(Direction::Forward)),
    ];
    for (c, target) in cases {
        // `dispatch` checks `pending` before the table and before `interpret`.
        let mut helix = normal();
        let bare = helix.parse_event(chr(c));
        assert_ne!(bare, ReedlineEvent::Edit(vec![EditCommand::Move(target)]));

        let _ = helix.parse_event(chr('g'));
        assert_eq!(
            helix.parse_event(chr(c)),
            ReedlineEvent::Edit(vec![EditCommand::Move(target)])
        );
    }
}

#[test]
fn goto_keeps_select_mode() {
    let mut helix = normal();
    let _ = helix.parse_event(chr('v'));
    let _ = helix.parse_event(chr('g'));
    let _ = helix.parse_event(chr('h'));
    assert_eq!(helix.mode, HelixMode::Select);
}

#[test]
fn unbound_goto_target_rejects_and_clears() {
    let mut helix = normal();
    let _ = helix.parse_event(chr('g'));
    assert_eq!(helix.parse_event(chr('z')), ReedlineEvent::Nothing);
    assert_eq!(helix.pending, None);
    // the machine is usable again, not stuck holding the prefix
    assert_eq!(
        helix.parse_event(chr('w')),
        ReedlineEvent::Edit(vec![EditCommand::Select(w())])
    );
}

#[test]
fn esc_cancels_pending_goto() {
    let mut helix = normal();
    let _ = helix.parse_event(chr('g'));
    let _ = helix.parse_event(key(KeyCode::Esc, KeyModifiers::none()));
    assert_eq!(helix.pending, None);
    // `h` is a grapheme step again, not a goto target
    assert_eq!(
        helix.parse_event(chr('h')),
        ReedlineEvent::Edit(vec![EditCommand::Move(MotionTarget::Grapheme(
            Direction::Backward
        ))])
    );
}

#[test]
fn a_live_count_rejects_the_goto_prefix() {
    let mut helix = normal();
    let _ = helix.parse_event(chr('3'));
    assert_eq!(helix.parse_event(chr('g')), ReedlineEvent::Nothing);
    assert_eq!(helix.pending, None);
    assert_eq!(helix.count, None);
    assert_eq!(helix.parse_event(chr('g')), ReedlineEvent::Nothing);
    assert_eq!(helix.pending, Some(Pending::Goto));
}

#[test]
fn a_typed_one_is_still_a_count() {
    // `unwrap_or(1)` here would make `1gg` silently become `gg`.
    let mut helix = normal();
    let _ = helix.parse_event(chr('1'));
    assert_eq!(helix.count, Some(1));
    assert_eq!(helix.parse_event(chr('g')), ReedlineEvent::Nothing);
    assert_eq!(helix.pending, None);
}

#[test]
fn esc_cancels_pending_sequence() {
    let mut helix = normal();
    let _ = helix.parse_event(chr('2'));
    let _ = helix.parse_event(chr('f'));
    let _ = helix.parse_event(key(KeyCode::Esc, KeyModifiers::none()));
    assert_eq!(helix.count, None);
    assert_eq!(helix.pending, None);
    // the next key is interpreted fresh, not as a find argument
    assert_eq!(
        helix.parse_event(chr('w')),
        ReedlineEvent::Edit(vec![EditCommand::Select(w())])
    );
}

// ---- operators and mode transitions ----

#[test]
fn operator_next_mode_is_mode_independent() {
    let cases: Vec<(char, Op, Option<HelixMode>)> = vec![
        ('d', Op::Cut, Some(HelixMode::Normal)),
        ('c', Op::Change, Some(HelixMode::Insert)),
        ('y', Op::Yank, Some(HelixMode::Normal)),
    ];
    for (c, op, next_mode) in cases {
        // operators leave select mode; `next_mode` must not depend on where
        // they started (this is where the copy-paste bugs lived)
        for mode in [HelixMode::Normal, HelixMode::Select] {
            assert_eq!(
                interpret(mode, None, KeyCode::Char(c), KeyModifiers::none()),
                Outcome::Execute(Action {
                    count: 1,
                    verb: Verb::OnSelection(op),
                    next_mode,
                })
            );
        }
    }
}

#[test]
fn insert_entries_collapse_to_an_edge() {
    let cases: Vec<(char, Direction)> = vec![
        ('i', Direction::Backward),
        ('a', Direction::Forward),
    ];
    for (c, direction) in cases {
        for mode in [HelixMode::Normal, HelixMode::Select] {
            assert_eq!(
                interpret(mode, None, KeyCode::Char(c), KeyModifiers::none()),
                Outcome::Execute(Action {
                    count: 1,
                    verb: Verb::Collapse(direction),
                    next_mode: Some(HelixMode::Insert),
                })
            );
        }
    }
}

#[test]
fn v_toggles_between_normal_and_select() {
    assert_eq!(
        interpret(
            HelixMode::Normal,
            None,
            KeyCode::Char('v'), KeyModifiers::none()
        ),
        Outcome::Execute(Action {
            count: 1,
            verb: Verb::ChangeMode,
            next_mode: Some(HelixMode::Select),
        })
    );
    assert_eq!(
        interpret(
            HelixMode::Select,
            None,
            KeyCode::Char('v'), KeyModifiers::none()
        ),
        Outcome::Execute(Action {
            count: 1,
            verb: Verb::ChangeMode,
            next_mode: Some(HelixMode::Normal),
        })
    );
}

#[test]
fn esc_deselects_in_normal_and_leaves_select() {
    assert_eq!(
        interpret(
            HelixMode::Normal,
            None,
            KeyCode::Esc, KeyModifiers::none()
        ),
        Outcome::Execute(Action {
            count: 1,
            verb: Verb::Deselect,
            next_mode: None,
        })
    );
    assert_eq!(
        interpret(
            HelixMode::Select,
            None,
            KeyCode::Esc, KeyModifiers::none()
        ),
        Outcome::Execute(Action {
            count: 1,
            verb: Verb::ChangeMode,
            next_mode: Some(HelixMode::Normal),
        })
    );
}

#[test]
fn operators_leave_select_mode() {
    let mut helix = normal();
    let _ = helix.parse_event(chr('v'));
    assert_eq!(
        helix.parse_event(chr('d')),
        ReedlineEvent::Multiple(vec![
            ReedlineEvent::Edit(vec![EditCommand::CutSelection {
                granularity: Granularity::CharWise,
            }]),
            ReedlineEvent::Repaint,
        ])
    );
    assert_eq!(helix.mode, HelixMode::Normal);
}

#[test]
fn c_cuts_and_enters_insert() {
    let mut helix = normal();
    assert_eq!(
        helix.parse_event(chr('c')),
        ReedlineEvent::Multiple(vec![
            ReedlineEvent::Edit(vec![EditCommand::CutSelection {
                granularity: Granularity::CharWise,
            }]),
            ReedlineEvent::Repaint,
        ])
    );
    assert_eq!(helix.mode, HelixMode::Insert);
}

#[test]
fn y_copies_and_stays_normal() {
    let mut helix = normal();
    assert_eq!(
        helix.parse_event(chr('y')),
        ReedlineEvent::Multiple(vec![
            ReedlineEvent::Edit(vec![EditCommand::CopySelection]),
            ReedlineEvent::Repaint,
        ])
    );
    assert_eq!(helix.mode, HelixMode::Normal);
}

#[test]
fn esc_in_normal_deselects() {
    let mut helix = normal();
    assert_eq!(
        helix.parse_event(key(KeyCode::Esc, KeyModifiers::none())),
        ReedlineEvent::Multiple(vec![ReedlineEvent::Esc, ReedlineEvent::Repaint])
    );
    assert_eq!(helix.mode, HelixMode::Normal);
}

#[test]
fn esc_returns_from_select_despite_table_binding() {
    // Esc is exempt from the table lookup; the generic Esc binding must
    // not strand select mode
    let mut helix = normal();
    let _ = helix.parse_event(chr('v'));
    let _ = helix.parse_event(key(KeyCode::Esc, KeyModifiers::none()));
    assert_eq!(helix.mode, HelixMode::Normal);
}

#[test]
fn enter_collapses_then_submits_and_enters_insert() {
    // Enter must still escape the repaint rule: `next_mode` would otherwise
    // append a `Repaint` that the submitting `Enter` never reaches, since
    // the engine returns on the first `Exits`. Asserted on the event rather
    // than driven, since escaping that wrapping is not observable from the
    // editor's state.
    let mut helix = normal();
    assert_eq!(
        helix.parse_event(key(KeyCode::Enter, KeyModifiers::none())),
        ReedlineEvent::Multiple(vec![
            ReedlineEvent::Edit(vec![EditCommand::CollapseSelection(Direction::Forward)]),
            ReedlineEvent::Enter,
        ])
    );
    assert_eq!(helix.mode, HelixMode::Insert);
}

// ---- undo / redo ----

#[test]
fn undo_redo_lower_to_bare_edits() {
    let cases: Vec<(char, EditCommand)> = vec![
        ('u', EditCommand::Undo),
        ('U', EditCommand::Redo),
    ];
    for (c, expected) in cases {
        // `next_mode` is None, so these must escape the repaint wrap in `lower`:
        // no mode indicator changed, and an `Edit` repaints on its own. `U`
        // arrives with SHIFT, which `is_plain_char` accepts.
        let mut helix = normal();
        assert_eq!(
            helix.parse_event(chr(c)),
            ReedlineEvent::Edit(vec![expected])
        );
    }
}

#[test]
fn count_repeats_undo() {
    // This is the reason undo lives in the machine rather than the binding
    // table: `dispatch` only consults the table while no count is live, so a
    // table-bound `u` would give a working `u` and a silently dead `3u`.
    let mut helix = normal();
    let _ = helix.parse_event(chr('3'));
    assert_eq!(
        helix.parse_event(chr('u')),
        ReedlineEvent::Edit(vec![EditCommand::Undo; 3])
    );
    assert_eq!(helix.count, None);
}

#[test]
fn undo_redo_keep_select_mode() {
    let cases: Vec<(char, EditCommand)> = vec![
        ('u', EditCommand::Undo),
        ('U', EditCommand::Redo),
    ];
    for (c, expected) in cases {
        // Select mode is sticky: only operators and Esc leave it, and undo is
        // neither. Asserted on the machine rather than on `interpret`'s
        // `next_mode`, since "the mode survives" is the actual claim.
        let mut helix = normal();
        let _ = helix.parse_event(chr('v'));
        assert_eq!(
            helix.parse_event(chr(c)),
            ReedlineEvent::Edit(vec![expected])
        );
        assert_eq!(helix.mode, HelixMode::Select);
    }
}

#[test]
fn paste_carries_the_edge_direction() {
    let cases: Vec<(char, Direction)> = vec![
        ('p', Direction::Forward),
        ('P', Direction::Backward),
    ];
    for (c, direction) in cases {
        // `next_mode` is `Some`, so the repaint rule wraps the edit — same shape
        // the operators produce.
        let mut helix = normal();
        assert_eq!(
            helix.parse_event(chr(c)),
            ReedlineEvent::Multiple(vec![
                ReedlineEvent::Edit(vec![EditCommand::PasteAtSelectionEdge {
                    direction,
                    count: 1
                }]),
                ReedlineEvent::Repaint,
            ])
        );
    }
}

#[test]
fn paste_carries_the_count_in_the_command() {
    // Paste must not go through `Action::repeated`: repeating the event
    // re-anchors at each paste, so the selection would end up covering only
    // the last copy. One command carrying 3, not three commands.
    let mut helix = normal();
    let _ = helix.parse_event(chr('3'));
    assert_eq!(
        helix.parse_event(chr('p')),
        ReedlineEvent::Multiple(vec![
            ReedlineEvent::Edit(vec![EditCommand::PasteAtSelectionEdge {
                direction: Direction::Forward,
                count: 3,
            }]),
            ReedlineEvent::Repaint,
        ])
    );
    assert_eq!(helix.count, None);
}

#[test]
fn paste_leaves_select_mode() {
    let cases: Vec<(char,)> = vec![
        ('p',),
        ('P',),
    ];
    for (c,) in cases {
        let mut helix = normal();
        let _ = helix.parse_event(chr('v'));
        let _ = helix.parse_event(chr(c));
        assert_eq!(helix.mode, HelixMode::Normal);
    }
}

#[test]
fn paste_next_mode_is_mode_independent() {
    let cases: Vec<(char, KeyModifiers, Direction)> = vec![
        ('p', KeyModifiers::none(), Direction::Forward),
        ('P', KeyModifiers::shift(), Direction::Backward),
    ];
    for (c, modifiers, direction) in cases {
        // Like the operators, paste's `next_mode` must not depend on where it
        // started: it returns to normal from select and is inert in normal.
        for mode in [HelixMode::Normal, HelixMode::Select] {
            assert_eq!(
                interpret(mode, None, KeyCode::Char(c), modifiers),
                Outcome::Execute(Action {
                    count: 1,
                    verb: Verb::Paste(direction),
                    next_mode: Some(HelixMode::Normal),
                })
            );
        }
    }
}

#[test]
fn mod_paste_event_produces_insert_string() {
    let mut helix = Helix::default();
    let paste = InputEvent::Paste("hello".to_string());
    assert_eq!(
        helix.parse_event(paste),
        ReedlineEvent::Edit(vec![EditCommand::InsertString("hello".to_string())])
    );
}

// ---- open line ----

#[test]
fn open_line_enters_insert() {
    let cases: Vec<(char, EditCommand)> = vec![
        ('o', EditCommand::InsertNewlineBelow),
        ('O', EditCommand::InsertNewlineAbove),
    ];
    for (c, expected) in cases {
        let mut helix = normal();
        assert_eq!(
            helix.parse_event(chr(c)),
            ReedlineEvent::Multiple(vec![
                ReedlineEvent::Edit(vec![expected]),
                ReedlineEvent::Repaint,
            ])
        );
        assert_eq!(helix.mode, HelixMode::Insert);
    }
}

#[test]
fn open_line_next_mode_is_mode_independent() {
    let cases: Vec<(char, KeyModifiers, Direction)> = vec![
        ('o', KeyModifiers::none(), Direction::Forward),
        ('O', KeyModifiers::shift(), Direction::Backward),
    ];
    for (c, modifiers, direction) in cases {
        for mode in [HelixMode::Normal, HelixMode::Select] {
            assert_eq!(
                interpret(mode, None, KeyCode::Char(c), modifiers),
                Outcome::Execute(Action {
                    count: 1,
                    verb: Verb::OpenLine(direction),
                    next_mode: Some(HelixMode::Insert),
                })
            );
        }
    }
}

#[test]
fn count_seeks_once_then_opens_above() {
    let mut helix = normal();
    let _ = helix.parse_event(chr('3'));
    assert_eq!(
        helix.parse_event(chr('o')),
        ReedlineEvent::Multiple(vec![
            ReedlineEvent::Edit(vec![
                EditCommand::InsertNewlineBelow,
                EditCommand::InsertNewlineAbove,
                EditCommand::InsertNewlineAbove,
            ]),
            ReedlineEvent::Repaint,
        ])
    );
    assert_eq!(helix.count, None);
}

#[test]
fn count_is_capped_at_u16_max() {
    let mut helix = normal();
    for _ in 0..6 {
        assert_eq!(helix.parse_event(chr('9')), ReedlineEvent::Nothing);
    }
    assert_eq!(helix.count, Some(65535));
}

#[test]
fn pending_prefix_takes_exactly_one_key() {
    let mut helix = normal();
    let _ = helix.parse_event(chr('f'));
    assert!(helix.pending.is_some());
    let _ = helix.parse_event(key(KeyCode::Left, KeyModifiers::none()));
    assert!(helix.pending.is_none());
}

#[test]
fn two_escapes_reach_normal_from_a_pending_select() {
    let mut helix = normal();
    let _ = helix.parse_event(chr('v'));
    let _ = helix.parse_event(chr('f'));
    let _ = helix.parse_event(key(KeyCode::Esc, KeyModifiers::none()));
    assert!(helix.pending.is_none());
    let _ = helix.parse_event(key(KeyCode::Esc, KeyModifiers::none()));
    assert_eq!(helix.mode, HelixMode::Normal);
    assert_eq!(helix.count, None);
}

#[test]
fn select_table_keeps_up_down_and_hints_away_from_history() {
    let select = reedline::edit_mode::helix::helix_keybindings::default_helix_select_keybindings();
    assert_eq!(
        select.find_binding(KeyModifiers::none(), KeyCode::Up),
        Some(ReedlineEvent::Edit(vec![EditCommand::MoveLineUp { select: true }]))
    );
    assert_eq!(
        select.find_binding(KeyModifiers::control(), KeyCode::Char('e')),
        Some(ReedlineEvent::Edit(vec![EditCommand::Extend(MotionTarget::LineEdge(Direction::Forward))]))
    );
    for (_, event) in select.get_keybindings() {
        assert!(!matches!(event, ReedlineEvent::UntilFound(_)));
    }
}
