use computex::errors::ActionError;
use computex::errors::install_hint;
use computex::process::command_context;
use computex::process::interpret_exit;
use computex::screenshot::capture_failure;
use computex::screenshot::missing_output;
use computex::screenshot::screenshot_args;
use computex::screenshot::screenshot_filename;
use computex::screenshot::screenshot_message;

#[test]
fn clean_exit_passes() {
    let r = interpret_exit(
        command_context("/usr/bin/xdotool"),
        true,
        "out".to_string(),
        "err".to_string(),
    );
    assert!(r.is_ok());
}

#[test]
fn nonzero_exit_reports_stderr_before_stdout() {
    let e = interpret_exit(
        command_context("/usr/bin/xdotool"),
        false,
        "out".to_string(),
        "err".to_string(),
    )
    .unwrap_err();
    assert!(matches!(e, ActionError::ToolNonZeroExit { .. }));
    assert_eq!(e.message(), "command \"/usr/bin/xdotool\" failed: errout");
}

#[test]
fn missing_tool_message_carries_its_hint() {
    assert_eq!(install_hint("xdotool"), "sudo apt-get install -y xdotool");
    assert_eq!(install_hint("import"), "sudo apt-get install -y imagemagick");
    assert_eq!(install_hint("somethingelse"), "install the required package");
    let e = ActionError::ToolNotFound { name: "xdotool".to_string() };
    assert_eq!(
        e.message(),
        "required command `xdotool` not found; install it with `sudo apt-get install -y xdotool`"
    );
    let g = ActionError::ToolNotFound { name: "mystery".to_string() };
    assert_eq!(
        g.message(),
        "required command `mystery` not found; install it with `install the required package`"
    );
}

#[test]
fn capture_arguments_are_reproduced_exactly() {
    let args = screenshot_args("/tmp/shot.png");
    assert_eq!(args, vec!["-window", "root", "-resize", "1280x720!", "/tmp/shot.png"]);
}

#[test]
fn capture_filenames_are_fresh_and_well_formed() {
    let a = screenshot_filename();
    let b = screenshot_filename();
    assert!(a.starts_with("codex-screenshot-"));
    assert!(a.ends_with(".png"));
    assert_eq!(a.chars().count(), "codex-screenshot-".len() + 36 + ".png".len());
    assert_ne!(a, b);
}

#[test]
fn capture_outcomes_render_their_messages() {
    assert_eq!(screenshot_message("/tmp/s.png"), "captured screenshot at /tmp/s.png");
    assert_eq!(
        capture_failure("boom".to_string()).message(),
        "import failed: boom"
    );
    assert_eq!(
        missing_output("/tmp/s.png".to_string()).message(),
        "screenshot was not created at /tmp/s.png"
    );
    assert_eq!(
        ActionError::AttachmentFailed.message(),
        "unable to attach screenshot (no active task)"
    );
    assert_eq!(
        ActionError::InvalidPayloadShape { tool_name: "computer_click".to_string() }.message(),
        "unsupported payload for computer_click"
    );
    assert_eq!(
        ActionError::ToolSpawnFailure {
            context: "import".to_string(),
            detail: "No such file".to_string()
        }
        .message(),
        "failed to run import: No such file"
    );
}

#[test]
fn geometry_failure_names_the_subcommand() {
    let e = computex::display::geometry_failure("noise".to_string());
    assert_eq!(e.message(), "xdotool getdisplaygeometry failed: noise");
}
