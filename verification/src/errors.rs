//! The failure taxonomy of the action translator.  Every failure is a
//! tagged value whose rendered message is meant to be shown back to the
//! requesting model, never a crash.

use vstd::prelude::*;
use vstd::string::*;

verus! {

/// A structured failure of one action request.
#[derive(Debug, Clone, PartialEq, Eq)]
pub enum ActionError {
    /// The host platform cannot run GUI actions at all.
    UnsupportedPlatform,
    /// No display session marker was present in the environment.
    DisplayUnavailable,
    /// The request payload was not the expected structured-argument form.
    InvalidPayloadShape { tool_name: String },
    /// The argument payload could not be read as the action's record.
    ArgumentParseFailure { detail: String },
    /// The click or drag named a mouse button outside the fixed table.
    UnsupportedButton { button: String },
    /// The scroll direction was neither `up` nor `down`.
    UnsupportedDirection { direction: String },
    /// A scroll gave exactly one of the two cursor coordinates.
    MalformedScrollPosition,
    /// A helper executable was not found on the search path.
    ToolNotFound { name: String },
    /// A helper executable could not be spawned at all.
    ToolSpawnFailure { context: String, detail: String },
    /// A helper executable ran and exited with a non-zero status.
    ToolNonZeroExit { context: String, detail: String },
    /// A destructive key combination arrived without `confirm = true`.
    ConfirmationRequired,
    /// The action name is not one of the supported set.
    UnsupportedAction { tool_name: String },
    /// The captured screenshot could not be attached to the session.
    AttachmentFailed,
    /// The capture tool exited cleanly but wrote no file.
    OutputFileMissing { path: String },
}

/// The remediation hint offered when a helper executable is missing.
pub open spec fn spec_install_hint(name: Seq<char>) -> Seq<char> {
    if name == "xdotool"@ {
        "sudo apt-get install -y xdotool"@
    } else if name == "import"@ {
        "sudo apt-get install -y imagemagick"@
    } else {
        "install the required package"@
    }
}

/// The message that each failure renders to.
pub open spec fn spec_message(e: ActionError) -> Seq<char> {
    match e {
        ActionError::UnsupportedPlatform => "computer-use GUI tools are only supported on Linux/X11"@,
        ActionError::DisplayUnavailable => "DISPLAY is not set; GUI tools require an X11 session"@,
        ActionError::InvalidPayloadShape { tool_name } => "unsupported payload for "@ + tool_name@,
        ActionError::ArgumentParseFailure { detail } => "failed to parse function arguments: "@
            + detail@,
        ActionError::UnsupportedButton { button } => "unsupported mouse button: "@ + button@,
        ActionError::UnsupportedDirection { direction } => "unsupported scroll direction: "@
            + direction@,
        ActionError::MalformedScrollPosition => "computer_scroll requires both x and y when positioning the cursor"@,
        ActionError::ToolNotFound { name } => "required command `"@ + name@
            + "` not found; install it with `"@ + spec_install_hint(name@) + "`"@,
        ActionError::ToolSpawnFailure { context, detail } => "failed to run "@ + context@ + ": "@
            + detail@,
        ActionError::ToolNonZeroExit { context, detail } => context@ + " failed: "@ + detail@,
        ActionError::ConfirmationRequired => "destructive key combo requires confirm=true after user approval"@,
        ActionError::UnsupportedAction { tool_name } => "unsupported computer-use tool: "@
            + tool_name@,
        ActionError::AttachmentFailed => "unable to attach screenshot (no active task)"@,
        ActionError::OutputFileMissing { path } => "screenshot was not created at "@ + path@,
    }
}

/// The name-specific install hint for a missing helper executable,
/// falling back to a generic line for unknown names.
pub fn install_hint(name: &str) -> (r: String)
    ensures
        r@ == spec_install_hint(name@),
{
    if crate::text::str_eq(name, "xdotool") {
        String::from_str("sudo apt-get install -y xdotool")
    } else if crate::text::str_eq(name, "import") {
        String::from_str("sudo apt-get install -y imagemagick")
    } else {
        String::from_str("install the required package")
    }
}

impl ActionError {
    /// Renders the failure as the message shown to the requesting model.
    pub fn message(&self) -> (r: String)
        ensures
            r@ == spec_message(*self),
    {
        match self {
            ActionError::UnsupportedPlatform => String::from_str(
                "computer-use GUI tools are only supported on Linux/X11",
            ),
            ActionError::DisplayUnavailable => String::from_str(
                "DISPLAY is not set; GUI tools require an X11 session",
            ),
            ActionError::InvalidPayloadShape { tool_name } => {
                let mut m = String::from_str("unsupported payload for ");
                m.append(tool_name.as_str());
                m
            },
            ActionError::ArgumentParseFailure { detail } => {
                let mut m = String::from_str("failed to parse function arguments: ");
                m.append(detail.as_str());
                m
            },
            ActionError::UnsupportedButton { button } => {
                let mut m = String::from_str("unsupported mouse button: ");
                m.append(button.as_str());
                m
            },
            ActionError::UnsupportedDirection { direction } => {
                let mut m = String::from_str("unsupported scroll direction: ");
                m.append(direction.as_str());
                m
            },
            ActionError::MalformedScrollPosition => String::from_str(
                "computer_scroll requires both x and y when positioning the cursor",
            ),
            ActionError::ToolNotFound { name } => {
                let hint = install_hint(name.as_str());
                let mut m = String::from_str("required command `");
                m.append(name.as_str());
                m.append("` not found; install it with `");
                m.append(hint.as_str());
                m.append("`");
                m
            },
            ActionError::ToolSpawnFailure { context, detail } => {
                let mut m = String::from_str("failed to run ");
                m.append(context.as_str());
                m.append(": ");
                m.append(detail.as_str());
                m
            },
            ActionError::ToolNonZeroExit { context, detail } => {
                let mut m = context.clone();
                m.append(" failed: ");
                m.append(detail.as_str());
                m
            },
            ActionError::ConfirmationRequired => String::from_str(
                "destructive key combo requires confirm=true after user approval",
            ),
            ActionError::UnsupportedAction { tool_name } => {
                let mut m = String::from_str("unsupported computer-use tool: ");
                m.append(tool_name.as_str());
                m
            },
            ActionError::AttachmentFailed => String::from_str(
                "unable to attach screenshot (no active task)",
            ),
            ActionError::OutputFileMissing { path } => {
                let mut m = String::from_str("screenshot was not created at ");
                m.append(path.as_str());
                m
            },
        }
    }
}

} // verus!
