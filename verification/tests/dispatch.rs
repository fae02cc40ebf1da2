use computex::action::ComputerAction;
use computex::action::needs_geometry;
use computex::action::required_tool;
use computex::command::build_command;
use computex::dispatch::ComputerUseHandler;
use computex::display::ensure_display;
use computex::errors::ActionError;

fn parse(tool: &str, args: &str) -> Result<ComputerAction, ActionError> {
    ComputerUseHandler.parse_action(tool, args)
}

#[test]
fn key_combo_without_confirm_is_blocked() {
    let e = parse("computer_key", r#"{"keys":["ctrl","w"]}"#).unwrap_err();
    assert!(matches!(e, ActionError::ConfirmationRequired));
    assert_eq!(
        e.message(),
        "destructive key combo requires confirm=true after user approval"
    );
}

#[test]
fn key_combo_with_confirm_false_is_blocked() {
    let e = parse("computer_key", r#"{"keys":["ctrl","w"],"confirm":false}"#).unwrap_err();
    assert!(matches!(e, ActionError::ConfirmationRequired));
}

#[test]
fn key_combo_with_confirm_true_proceeds() {
    let a = parse("computer_key", r#"{"keys":["ctrl","w"],"confirm":true}"#).unwrap();
    assert_eq!(a, ComputerAction::Key { combo: "ctrl+w".to_string() });
    let plan = build_command(&a, None);
    assert_eq!(plan.args, vec!["key", "ctrl+w"]);
    assert_eq!(plan.message, "pressed ctrl+w");
}

#[test]
fn harmless_key_combo_needs_no_confirm() {
    let a = parse("computer_key", r#"{"keys":["ctrl","c"]}"#).unwrap();
    assert_eq!(a, ComputerAction::Key { combo: "ctrl+c".to_string() });
}

#[test]
fn key_tokens_are_normalized_before_execution() {
    let a = parse("computer_key", r#"{"keys":["Control","W"],"confirm":true}"#).unwrap();
    assert_eq!(a, ComputerAction::Key { combo: "ctrl+w".to_string() });
    let plan = build_command(&a, None);
    assert_eq!(plan.args, vec!["key", "ctrl+w"]);
    assert_eq!(plan.message, "pressed ctrl+w");
    let b = parse("computer_key", r#"{"keys":[" Meta ","Tab"]}"#).unwrap();
    assert_eq!(b, ComputerAction::Key { combo: "super+tab".to_string() });
}

#[test]
fn scroll_with_x_but_no_y_is_malformed() {
    let e = parse("computer_scroll", r#"{"direction":"up","x":100}"#).unwrap_err();
    assert!(matches!(e, ActionError::MalformedScrollPosition));
    assert_eq!(
        e.message(),
        "computer_scroll requires both x and y when positioning the cursor"
    );
}

#[test]
fn scroll_position_check_precedes_direction_check() {
    let e = parse("computer_scroll", r#"{"direction":"banana","y":5}"#).unwrap_err();
    assert!(matches!(e, ActionError::MalformedScrollPosition));
}

#[test]
fn scroll_with_bad_direction_is_unsupported() {
    let e = parse("computer_scroll", r#"{"direction":"sideways"}"#).unwrap_err();
    assert!(matches!(e, ActionError::UnsupportedDirection { .. }));
    assert_eq!(e.message(), "unsupported scroll direction: sideways");
}

#[test]
fn scroll_defaults_to_three_ticks() {
    let a = parse("computer_scroll", r#"{"direction":"down"}"#).unwrap();
    assert_eq!(
        a,
        ComputerAction::Scroll { button: "5".to_string(), ticks: 3, pos: None }
    );
    assert!(!needs_geometry(&a));
    let plan = build_command(&a, None);
    assert_eq!(plan.args, vec!["click", "--repeat", "3", "5"]);
    assert_eq!(plan.message, "scrolled 3 ticks");
}

#[test]
fn scroll_amount_is_floored_at_one() {
    let a = parse("computer_scroll", r#"{"direction":"up","amount":0}"#).unwrap();
    assert_eq!(
        a,
        ComputerAction::Scroll { button: "4".to_string(), ticks: 1, pos: None }
    );
    let plan = build_command(&a, None);
    assert_eq!(plan.args, vec!["click", "4"]);
    assert_eq!(plan.message, "scrolled 1 ticks");
}

#[test]
fn scroll_with_position_moves_first() {
    let a = parse("computer_scroll", r#"{"direction":"up","amount":2,"x":640,"y":360}"#).unwrap();
    assert!(needs_geometry(&a));
    let plan = build_command(&a, Some((1920, 1080)));
    assert_eq!(
        plan.args,
        vec!["mousemove", "--sync", "960", "540", "click", "--repeat", "2", "4"]
    );
}

#[test]
fn click_with_unknown_button_is_rejected_before_any_command() {
    let e = parse("computer_click", r#"{"x":1,"y":2,"button":"banana"}"#).unwrap_err();
    assert!(matches!(e, ActionError::UnsupportedButton { .. }));
    assert_eq!(e.message(), "unsupported mouse button: banana");
}

#[test]
fn click_center_synthesizes_move_and_click() {
    let a = parse("computer_click", r#"{"x":640,"y":360,"button":"left"}"#).unwrap();
    assert!(needs_geometry(&a));
    assert_eq!(required_tool(&a), "xdotool");
    let plan = build_command(&a, Some((1920, 1080)));
    assert_eq!(plan.args, vec!["mousemove", "--sync", "960", "540", "click", "1"]);
    assert_eq!(plan.message, "clicked at 960,540");
}

#[test]
fn click_accepts_case_folded_and_numeric_buttons() {
    let a = parse("computer_click", r#"{"x":0,"y":0,"button":"RIGHT"}"#).unwrap();
    assert_eq!(
        a,
        ComputerAction::Click { x: 0, y: 0, button: "3".to_string(), double: false }
    );
    let b = parse("computer_click", r#"{"x":0,"y":0,"button":"2"}"#).unwrap();
    assert_eq!(
        b,
        ComputerAction::Click { x: 0, y: 0, button: "2".to_string(), double: false }
    );
}

#[test]
fn click_defaults_to_left_button() {
    let a = parse("computer_click", r#"{"x":0,"y":0}"#).unwrap();
    assert_eq!(
        a,
        ComputerAction::Click { x: 0, y: 0, button: "1".to_string(), double: false }
    );
}

#[test]
fn double_click_clicks_twice() {
    let a = parse("computer_click", r#"{"x":640,"y":360,"double":true}"#).unwrap();
    let plan = build_command(&a, Some((1920, 1080)));
    assert_eq!(
        plan.args,
        vec!["mousemove", "--sync", "960", "540", "click", "1", "click", "1"]
    );
}

#[test]
fn drag_presses_moves_and_releases_in_order() {
    let a = parse(
        "computer_drag",
        r#"{"from_x":0,"from_y":0,"to_x":1279,"to_y":719,"button":"left"}"#,
    )
    .unwrap();
    let plan = build_command(&a, Some((1920, 1080)));
    assert_eq!(
        plan.args,
        vec![
            "mousemove", "--sync", "0", "0", "mousedown", "1", "mousemove", "--sync", "1919",
            "1079", "mouseup", "1"
        ]
    );
    assert_eq!(plan.message, "dragged from 0,0 to 1919,1079");
}

#[test]
fn type_counts_characters_not_bytes() {
    let a = parse("computer_type", r#"{"text":"héllo","delay_ms":10}"#).unwrap();
    let plan = build_command(&a, None);
    assert_eq!(plan.args, vec!["type", "--delay", "10", "--", "héllo"]);
    assert_eq!(plan.message, "typed 5 characters");
}

#[test]
fn type_without_delay_omits_the_flag() {
    let a = parse("computer_type", r#"{"text":"hi"}"#).unwrap();
    let plan = build_command(&a, None);
    assert_eq!(plan.args, vec!["type", "--", "hi"]);
    assert_eq!(plan.message, "typed 2 characters");
}

#[test]
fn screenshot_parses_without_arguments() {
    let a = parse("computer_screenshot", "").unwrap();
    assert_eq!(a, ComputerAction::Screenshot);
    assert_eq!(required_tool(&a), "import");
    assert!(!needs_geometry(&a));
}

#[test]
fn unknown_action_is_rejected() {
    let e = parse("computer_fly", r#"{}"#).unwrap_err();
    assert!(matches!(e, ActionError::UnsupportedAction { .. }));
    assert_eq!(e.message(), "unsupported computer-use tool: computer_fly");
}

#[test]
fn malformed_json_is_a_parse_failure() {
    let e = parse("computer_click", "not json").unwrap_err();
    assert!(matches!(e, ActionError::ArgumentParseFailure { .. }));
    assert!(e.message().starts_with("failed to parse function arguments: "));
}

#[test]
fn missing_required_field_is_reported() {
    let e = parse("computer_click", r#"{"y":2}"#).unwrap_err();
    assert_eq!(e.message(), "failed to parse function arguments: missing field `x`");
}

#[test]
fn wrongly_typed_field_is_reported() {
    let e = parse("computer_key", r#"{"keys":["ctrl",5]}"#).unwrap_err();
    assert_eq!(e.message(), "failed to parse function arguments: invalid field `keys`");
}

#[test]
fn only_screenshot_is_not_mutating() {
    assert!(!ComputerUseHandler.is_mutating("computer_screenshot"));
    assert!(ComputerUseHandler.is_mutating("computer_click"));
    assert!(ComputerUseHandler.is_mutating("computer_key"));
}

#[test]
fn display_preconditions_fail_fast() {
    assert!(matches!(
        ensure_display(false, true),
        Err(ActionError::UnsupportedPlatform)
    ));
    assert_eq!(
        ensure_display(false, true).unwrap_err().message(),
        "computer-use GUI tools are only supported on Linux/X11"
    );
    assert!(matches!(
        ensure_display(true, false),
        Err(ActionError::DisplayUnavailable)
    ));
    assert_eq!(
        ensure_display(true, false).unwrap_err().message(),
        "DISPLAY is not set; GUI tools require an X11 session"
    );
    assert!(ensure_display(true, true).is_ok());
}
