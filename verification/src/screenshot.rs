//! Screenshot capture support: the fresh output file name, the capture
//! tool's argument list, and the interpretation of its outcome.

use vstd::prelude::*;
use vstd::string::*;
use crate::errors::ActionError;

verus! {

/// Relies on `uuid::Uuid::new_v4` and its `Display` form: a fresh
/// random identifier rendered hyphenated, 36 characters long.  The
/// value is random, so nothing more is promised of it.
#[verifier::external_body]
fn fresh_token() -> (r: String)
    ensures
        r@.len() == 36,
{
    uuid::Uuid::new_v4().to_string()
}

/// A fresh capture file name: the fixed prefix, a freshly generated
/// random 36-character identifier, and the `.png` suffix.
pub fn screenshot_filename() -> (r: String)
    ensures
        exists|t: Seq<char>| t.len() == 36 && r@ == "codex-screenshot-"@ + t + ".png"@,
{
    let token = fresh_token();
    let mut name = String::from_str("codex-screenshot-");
    name.append(token.as_str());
    name.append(".png");
    proof {
        assert(token@.len() == 36 && name@ == "codex-screenshot-"@ + token@ + ".png"@);
    }
    name
}

/// The capture tool's argument list: grab the whole screen, resize it
/// to the logical viewport, and write it to the given path.  The exact
/// strings matter for interoperability with the tool.
pub open spec fn spec_screenshot_args(path: Seq<char>) -> Seq<Seq<char>> {
    seq!["-window"@, "root"@, "-resize"@, "1280x720!"@, path]
}

/// Builds the capture tool's argument list for the given output path.
pub fn screenshot_args(path: &str) -> (r: Vec<String>)
    ensures
        r.deep_view() == spec_screenshot_args(path@),
{
    let mut args: Vec<String> = Vec::new();
    args.push(String::from_str("-window"));
    args.push(String::from_str("root"));
    args.push(String::from_str("-resize"));
    args.push(String::from_str("1280x720!"));
    args.push(path.to_owned());
    proof {
        assert(args.deep_view() =~= spec_screenshot_args(path@));
    }
    args
}

/// The failure of a capture run that exited non-zero, carrying its
/// diagnostic output.
pub fn capture_failure(stderr: String) -> (e: ActionError)
    ensures
        e matches ActionError::ToolNonZeroExit { context, detail } && context@ == "import"@
            && detail@ == stderr@,
{
    ActionError::ToolNonZeroExit { context: String::from_str("import"), detail: stderr }
}

/// The failure reported when the capture tool exited cleanly but the
/// output file never appeared.
pub fn missing_output(path: String) -> (e: ActionError)
    ensures
        e matches ActionError::OutputFileMissing { path: p } && p@ == path@,
{
    ActionError::OutputFileMissing { path }
}

/// The success message of a capture, naming the written file.
pub fn screenshot_message(path: &str) -> (r: String)
    ensures
        r@ == "captured screenshot at "@ + path@,
{
    let mut m = String::from_str("captured screenshot at ");
    m.append(path);
    m
}

} // verus!
