//! What an event does while the line is edited, and how the answers of
//! grouped events combine.
use reedline::engine::editor_event::{
    after_menu_refresh, edit_expands_abbreviation, edit_menu_step, editor_event_step, fold_each,
    fold_first_found, menu_settles_closed, EditMenuStep, EditorSnapshot, EditorStep, MenuMove,
};
use reedline::enums::{
    EditCommand, EventStatus, MouseButton, PromptEditMode, PromptViMode, ReedlineEvent, Signal,
};

fn idle() -> EditorSnapshot {
    EditorSnapshot {
        buffer: "th".to_string(),
        cursor_at_end: true,
        menu_active: false,
        menu_has_values: false,
        menu_quick_completes: false,
        partial_completions: false,
        quick_completions: false,
        menu_can_quick_complete: false,
        persistent_menus: false,
        menu_names: vec!["completion_menu".to_string(), "history_menu".to_string()],
        complete_hint: None,
        hint_token: None,
        hints_active: true,
        validator_complete: None,
        mode: PromptEditMode::Emacs,
    }
}

fn with_menu() -> EditorSnapshot {
    EditorSnapshot { menu_active: true, menu_has_values: true, ..idle() }
}

#[test]
fn ctrl_d_exits_only_on_an_empty_buffer() {
    let empty = EditorSnapshot { buffer: String::new(), ..idle() };
    assert_eq!(editor_event_step(&ReedlineEvent::CtrlD, &empty), EditorStep::ExitOnCtrlD);
    assert_eq!(
        editor_event_step(&ReedlineEvent::CtrlD, &idle()),
        EditorStep::RunCommands(vec![EditCommand::Delete])
    );
}

#[test]
fn enter_follows_the_validator() {
    assert_eq!(editor_event_step(&ReedlineEvent::Enter, &idle()), EditorStep::Submit);
    let complete = EditorSnapshot { validator_complete: Some(true), ..idle() };
    assert_eq!(editor_event_step(&ReedlineEvent::Enter, &complete), EditorStep::Submit);
    let incomplete = EditorSnapshot { validator_complete: Some(false), ..idle() };
    assert_eq!(
        editor_event_step(&ReedlineEvent::Enter, &incomplete),
        EditorStep::RunCommands(vec![EditCommand::InsertNewline])
    );
    assert_eq!(editor_event_step(&ReedlineEvent::Submit, &incomplete), EditorStep::Submit);
}

#[test]
fn submit_over_an_open_menu_accepts_it() {
    for e in [ReedlineEvent::Enter, ReedlineEvent::Submit, ReedlineEvent::SubmitOrNewline] {
        assert_eq!(editor_event_step(&e, &with_menu()), EditorStep::AcceptMenu);
    }
}

#[test]
fn submit_or_newline_breaks_the_line_before_its_end() {
    let mid = EditorSnapshot { cursor_at_end: false, ..idle() };
    assert_eq!(
        editor_event_step(&ReedlineEvent::SubmitOrNewline, &mid),
        EditorStep::RunCommands(vec![EditCommand::InsertNewline])
    );
    assert_eq!(editor_event_step(&ReedlineEvent::SubmitOrNewline, &idle()), EditorStep::Submit);
}

#[test]
fn menu_opens_by_name_only_when_none_is_open() {
    let history = ReedlineEvent::Menu("history_menu".to_string());
    assert_eq!(editor_event_step(&history, &idle()), EditorStep::ActivateMenu(1));
    assert_eq!(editor_event_step(&history, &with_menu()), EditorStep::Inapplicable);
    let unknown = ReedlineEvent::Menu("nope".to_string());
    assert_eq!(editor_event_step(&unknown, &idle()), EditorStep::Inapplicable);
}

#[test]
fn menu_moves_need_an_open_menu() {
    assert_eq!(editor_event_step(&ReedlineEvent::MenuUp, &idle()), EditorStep::Inapplicable);
    assert_eq!(
        editor_event_step(&ReedlineEvent::MenuPageNext, &with_menu()),
        EditorStep::Menu(MenuMove::NextPage)
    );
    let empty_menu = EditorSnapshot { menu_has_values: false, ..with_menu() };
    assert_eq!(editor_event_step(&ReedlineEvent::MenuAccept, &empty_menu), EditorStep::Inapplicable);
    assert_eq!(editor_event_step(&ReedlineEvent::MenuAccept, &with_menu()), EditorStep::AcceptMenu);
}

#[test]
fn menu_next_accepts_a_lone_final_value() {
    let lone = EditorSnapshot { menu_quick_completes: true, ..with_menu() };
    assert_eq!(editor_event_step(&ReedlineEvent::MenuNext, &lone), EditorStep::AcceptMenu);
    let partial = EditorSnapshot { partial_completions: true, ..with_menu() };
    assert_eq!(
        editor_event_step(&ReedlineEvent::MenuNext, &partial),
        EditorStep::CompletePartiallyThenNext
    );
    assert_eq!(
        editor_event_step(&ReedlineEvent::MenuNext, &with_menu()),
        EditorStep::Menu(MenuMove::NextElement)
    );
}

#[test]
fn a_hint_is_appended_only_at_the_end_without_a_menu() {
    let hinted = EditorSnapshot { complete_hint: Some("ls -la".to_string()), ..idle() };
    assert_eq!(
        editor_event_step(&ReedlineEvent::HistoryHintComplete, &hinted),
        EditorStep::AppendHint("ls -la".to_string())
    );
    let mid = EditorSnapshot { cursor_at_end: false, ..hinted };
    assert_eq!(
        editor_event_step(&ReedlineEvent::HistoryHintComplete, &mid),
        EditorStep::Inapplicable
    );
    let blank = EditorSnapshot { hint_token: Some(String::new()), ..idle() };
    assert_eq!(
        editor_event_step(&ReedlineEvent::HistoryHintWordComplete, &blank),
        EditorStep::Inapplicable
    );
}

#[test]
fn switching_to_the_present_mode_is_no_move() {
    let vi = EditorSnapshot { mode: PromptEditMode::Vi(PromptViMode::Normal), ..idle() };
    let to_normal = ReedlineEvent::SwitchMode(PromptEditMode::Vi(PromptViMode::Normal));
    let to_insert = ReedlineEvent::SwitchMode(PromptEditMode::Vi(PromptViMode::Insert));
    assert_eq!(editor_event_step(&to_normal, &vi), EditorStep::Inapplicable);
    assert_eq!(editor_event_step(&to_insert, &vi), EditorStep::SwitchMode);
}

#[test]
fn plain_events_map_to_their_steps() {
    assert_eq!(
        editor_event_step(&ReedlineEvent::Left, &idle()),
        EditorStep::RunCommands(vec![EditCommand::MoveLeft { select: false }])
    );
    assert_eq!(
        editor_event_step(
            &ReedlineEvent::Mouse { column: 3, row: 4, button: MouseButton::Left },
            &idle()
        ),
        EditorStep::Click { column: 3, row: 4 }
    );
    assert_eq!(
        editor_event_step(
            &ReedlineEvent::Mouse { column: 3, row: 4, button: MouseButton::Right },
            &idle()
        ),
        EditorStep::Repaint
    );
    assert_eq!(
        editor_event_step(&ReedlineEvent::ExecuteHostCommand("ls".to_string()), &idle()),
        EditorStep::HostCommand("ls".to_string())
    );
    assert_eq!(editor_event_step(&ReedlineEvent::Nothing, &idle()), EditorStep::Inapplicable);
    assert_eq!(
        editor_event_step(&ReedlineEvent::Multiple(vec![]), &idle()),
        EditorStep::HandleEach
    );
}

#[test]
fn a_group_ends_at_its_first_exit() {
    let answers = vec![
        EventStatus::Handled,
        EventStatus::Exits(Signal::CtrlC),
        EventStatus::Exits(Signal::CtrlD),
    ];
    assert_eq!(fold_each(answers), EventStatus::Exits(Signal::CtrlC));
    assert_eq!(
        fold_each(vec![EventStatus::Inapplicable, EventStatus::Handled, EventStatus::Inapplicable]),
        EventStatus::Handled
    );
    assert_eq!(fold_each(vec![EventStatus::Inapplicable]), EventStatus::Inapplicable);
    assert_eq!(fold_each(vec![]), EventStatus::Inapplicable);
}

#[test]
fn alternatives_answer_as_the_first_that_applies() {
    assert_eq!(
        fold_first_found(vec![
            EventStatus::Inapplicable,
            EventStatus::Exits(Signal::CtrlD),
            EventStatus::Handled,
        ]),
        EventStatus::Exits(Signal::CtrlD)
    );
    assert_eq!(
        fold_first_found(vec![EventStatus::Inapplicable, EventStatus::Inapplicable]),
        EventStatus::Inapplicable
    );
}

#[test]
fn menu_accept_chains_with_an_edit_as_a_space_binding() {
    // No menu is open: the accept is skipped and the edit still runs.
    let st = idle();
    let accept = editor_event_step(&ReedlineEvent::MenuAccept, &st);
    let space = editor_event_step(&ReedlineEvent::Edit(vec![EditCommand::InsertChar(' ')]), &st);
    assert_eq!(accept, EditorStep::Inapplicable);
    assert_eq!(space, EditorStep::Edit(vec![EditCommand::InsertChar(' ')]));
    assert!(edit_expands_abbreviation(&vec![EditCommand::InsertChar(' ')]));
    assert_eq!(edit_menu_step(&vec![EditCommand::InsertChar(' ')], &st), EditMenuStep::Done);
    let answers = vec![accept.answer(&st).unwrap(), space.answer(&st).unwrap()];
    assert_eq!(fold_each(answers), EventStatus::Handled);
}

#[test]
fn each_step_answers_as_the_engine_does() {
    let st = idle();
    assert_eq!(
        EditorStep::Submit.answer(&st),
        Some(EventStatus::Exits(Signal::Success("th".to_string())))
    );
    assert_eq!(
        EditorStep::HostCommand("ls".to_string()).answer(&st),
        Some(EventStatus::Exits(Signal::HostCommand("ls".to_string())))
    );
    assert_eq!(EditorStep::ExitOnCtrlD.answer(&st), Some(EventStatus::Exits(Signal::CtrlD)));
    assert_eq!(EditorStep::AcceptMenu.answer(&st), Some(EventStatus::Handled));
    assert_eq!(EditorStep::HandleEach.answer(&st), None);
    assert_eq!(EditorStep::ChangeMode.answer(&st), None);
}

#[test]
fn an_edit_brings_the_open_menu_along() {
    let quick = EditorSnapshot {
        quick_completions: true,
        menu_can_quick_complete: true,
        ..with_menu()
    };
    let back = vec![EditCommand::Backspace];
    assert_eq!(edit_menu_step(&back, &quick), EditMenuStep::CloseThenSettle);
    let kept = EditorSnapshot { persistent_menus: true, ..quick };
    assert_eq!(edit_menu_step(&back, &kept), EditMenuStep::Refresh);
    let slow = EditorSnapshot { quick_completions: false, ..with_menu() };
    assert_eq!(edit_menu_step(&back, &slow), EditMenuStep::Settle);
    assert_eq!(edit_menu_step(&back, &idle()), EditMenuStep::Done);

    let complete = vec![EditCommand::Complete];
    assert_eq!(after_menu_refresh(&complete, 1, false), EditMenuStep::AcceptLone);
    assert_eq!(after_menu_refresh(&complete, 3, true), EditMenuStep::TryPartial);
    assert_eq!(after_menu_refresh(&complete, 3, false), EditMenuStep::Settle);
    assert_eq!(after_menu_refresh(&back, 1, true), EditMenuStep::Settle);

    assert!(menu_settles_closed(false, true));
    assert!(!menu_settles_closed(true, true));
    assert!(!menu_settles_closed(false, false));
    assert!(!edit_expands_abbreviation(&back));
}
