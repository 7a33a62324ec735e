//! The cursor shape chosen for each edit mode.
use crossterm::cursor::SetCursorStyle;
use reedline::edit_mode::cursors::CursorConfig;
use reedline::enums::{PromptEditMode, PromptHelixMode, PromptViMode};

#[test]
fn default_config_leaves_the_cursor_alone() {
    let config = CursorConfig::default();
    assert!(config.shape_for(&PromptEditMode::Emacs).is_none());
    assert!(config.shape_for(&PromptEditMode::Vi(PromptViMode::Insert)).is_none());
    assert!(config.shape_for(&PromptEditMode::Helix(PromptHelixMode::Select)).is_none());
}

#[test]
fn each_mode_gets_its_own_shape() {
    let config = CursorConfig {
        vi_insert: Some(SetCursorStyle::BlinkingBar),
        vi_normal: Some(SetCursorStyle::SteadyBlock),
        emacs: Some(SetCursorStyle::SteadyUnderScore),
        hx_select: Some(SetCursorStyle::BlinkingBlock),
        ..CursorConfig::default()
    };
    assert!(matches!(
        config.shape_for(&PromptEditMode::Vi(PromptViMode::Insert)),
        Some(SetCursorStyle::BlinkingBar)
    ));
    assert!(matches!(
        config.shape_for(&PromptEditMode::Emacs),
        Some(SetCursorStyle::SteadyUnderScore)
    ));
    assert!(matches!(
        config.shape_for(&PromptEditMode::Helix(PromptHelixMode::Select)),
        Some(SetCursorStyle::BlinkingBlock)
    ));
    assert!(config.shape_for(&PromptEditMode::Helix(PromptHelixMode::Normal)).is_none());
    assert!(config.shape_for(&PromptEditMode::Default).is_none());
    assert!(config.shape_for(&PromptEditMode::Custom(String::from("x"))).is_none());
}

#[test]
fn vi_visual_follows_normal_unless_set() {
    let mut config = CursorConfig {
        vi_normal: Some(SetCursorStyle::SteadyBlock),
        ..CursorConfig::default()
    };
    assert!(matches!(
        config.shape_for(&PromptEditMode::Vi(PromptViMode::Visual)),
        Some(SetCursorStyle::SteadyBlock)
    ));
    config.vi_visual = Some(SetCursorStyle::SteadyBar);
    assert!(matches!(
        config.shape_for(&PromptEditMode::Vi(PromptViMode::Visual)),
        Some(SetCursorStyle::SteadyBar)
    ));
}
