//! Interpretation of an external process's exit contract: a non-zero
//! exit becomes a structured failure carrying both captured streams,
//! stderr first.

use vstd::prelude::*;
use vstd::string::*;
use crate::errors::ActionError;

verus! {

/// The context under which a general command failure is reported: the
/// executable path in quotes, after the word `command`.
pub open spec fn spec_command_context(path: Seq<char>) -> Seq<char> {
    "command \""@ + path + "\""@
}

/// Renders the failure context for a command run from the given path.
pub fn command_context(path: &str) -> (r: String)
    ensures
        r@ == spec_command_context(path@),
{
    let mut c = String::from_str("command \"");
    c.append(path);
    c.append("\"");
    c
}

/// Maps an exit status and the captured streams to the structured
/// outcome: success passes, a non-zero exit carries the diagnostics
/// with stderr ahead of stdout.
pub fn interpret_exit(context: String, success: bool, stdout: String, stderr: String) -> (r: Result<
    (),
    ActionError,
>)
    ensures
        success ==> r == Ok::<(), ActionError>(()),
        !success ==> (r matches Err(e) && e matches ActionError::ToolNonZeroExit {
            context: c,
            detail: d,
        } && c@ == context@ && d@ == stderr@ + stdout@),
{
    if success {
        Ok(())
    } else {
        let mut detail = stderr;
        detail.append(stdout.as_str());
        Err(ActionError::ToolNonZeroExit { context, detail })
    }
}

} // verus!
