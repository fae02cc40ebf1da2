//! The display precondition check and the reading of the automation
//! tool's display-geometry report.

use vstd::prelude::*;
use vstd::string::*;
use crate::errors::ActionError;
use crate::text::head_token;
use crate::text::head_token_str;
use crate::text::spec_parse_u32;
use crate::text::parse_u32_token;
use crate::text::tail_after_token;
use crate::text::tail_after_token_str;
use crate::text::trim_start_rec;
use crate::text::trim_start_str;

verus! {

/// Checks that the environment can carry GUI actions at all: the
/// platform must be the supported one and the display-session marker
/// must be present.  Runs before anything else in every action.
pub fn ensure_display(platform_supported: bool, display_set: bool) -> (r: Result<(), ActionError>)
    ensures
        !platform_supported ==> r == Err::<(), ActionError>(ActionError::UnsupportedPlatform),
        platform_supported && !display_set ==> r == Err::<(), ActionError>(
            ActionError::DisplayUnavailable,
        ),
        platform_supported && display_set ==> r == Ok::<(), ActionError>(()),
{
    if !platform_supported {
        Err(ActionError::UnsupportedPlatform)
    } else if !display_set {
        Err(ActionError::DisplayUnavailable)
    } else {
        Ok(())
    }
}

/// The argument list of the display-geometry query.  The exact string
/// matters for interoperability with the automation tool.
pub fn geometry_query_args() -> (r: Vec<String>)
    ensures
        r.deep_view() == seq!["getdisplaygeometry"@],
{
    let mut args: Vec<String> = Vec::new();
    args.push(String::from_str("getdisplaygeometry"));
    proof {
        assert(args.deep_view() =~= seq!["getdisplaygeometry"@]);
    }
    args
}

/// The first whitespace-separated token of the geometry report.
pub open spec fn geom_width_token(out: Seq<char>) -> Seq<char> {
    head_token(trim_start_rec(out))
}

/// The second whitespace-separated token of the geometry report.
pub open spec fn geom_height_token(out: Seq<char>) -> Seq<char> {
    head_token(trim_start_rec(tail_after_token(trim_start_rec(out))))
}

/// A geometry token is good when it is a decimal numeral whose value is
/// a positive `u32`.
pub open spec fn good_dimension(tok: Seq<char>) -> bool {
    spec_parse_u32(tok) matches Some(n) && n >= 1
}

/// The failure of a geometry run that exited non-zero, carrying its
/// diagnostic output.
pub fn geometry_failure(stderr: String) -> (e: ActionError)
    ensures
        e matches ActionError::ToolNonZeroExit { context, detail } && context@
            == "xdotool getdisplaygeometry"@ && detail@ == stderr@,
{
    ActionError::ToolNonZeroExit {
        context: String::from_str("xdotool getdisplaygeometry"),
        detail: stderr,
    }
}

fn dimension_failure(detail: &str) -> (e: ActionError)
    ensures
        e matches ActionError::ArgumentParseFailure { detail: d } && d@ == detail@,
{
    ActionError::ArgumentParseFailure { detail: detail.to_owned() }
}

/// Reads the display geometry out of the automation tool's report: the
/// first two whitespace-separated tokens as positive decimal dimensions.
pub fn parse_geometry(out: &str) -> (r: Result<(u32, u32), ActionError>)
    ensures
        geom_width_token(out@).len() == 0 ==> (r matches Err(e) && e matches
            ActionError::ArgumentParseFailure { detail } && detail@
            == "xdotool getdisplaygeometry returned no width"@),
        geom_width_token(out@).len() > 0 && !good_dimension(geom_width_token(out@)) ==> (
        r matches Err(e) && e matches ActionError::ArgumentParseFailure { detail } && detail@
            == "xdotool getdisplaygeometry invalid width"@),
        good_dimension(geom_width_token(out@)) && geom_height_token(out@).len() == 0 ==> (
        r matches Err(e) && e matches ActionError::ArgumentParseFailure { detail } && detail@
            == "xdotool getdisplaygeometry returned no height"@),
        good_dimension(geom_width_token(out@)) && geom_height_token(out@).len() > 0
            && !good_dimension(geom_height_token(out@)) ==> (r matches Err(e) && e matches
            ActionError::ArgumentParseFailure { detail } && detail@
            == "xdotool getdisplaygeometry invalid height"@),
        good_dimension(geom_width_token(out@)) && good_dimension(geom_height_token(out@)) ==> (
        r matches Ok(g) && Some(g.0) == spec_parse_u32(geom_width_token(out@)) && Some(g.1)
            == spec_parse_u32(geom_height_token(out@)) && g.0 >= 1 && g.1 >= 1),
{
    let after_lead = trim_start_str(out);
    let wtok = head_token_str(after_lead);
    if wtok.as_str().unicode_len() == 0 {
        return Err(dimension_failure("xdotool getdisplaygeometry returned no width"));
    }
    let width = match parse_u32_token(wtok.as_str()) {
        Some(n) => n,
        None => {
            return Err(dimension_failure("xdotool getdisplaygeometry invalid width"));
        },
    };
    if width == 0 {
        return Err(dimension_failure("xdotool getdisplaygeometry invalid width"));
    }
    let rest = trim_start_str(tail_after_token_str(after_lead));
    let htok = head_token_str(rest);
    if htok.as_str().unicode_len() == 0 {
        return Err(dimension_failure("xdotool getdisplaygeometry returned no height"));
    }
    let height = match parse_u32_token(htok.as_str()) {
        Some(n) => n,
        None => {
            return Err(dimension_failure("xdotool getdisplaygeometry invalid height"));
        },
    };
    if height == 0 {
        return Err(dimension_failure("xdotool getdisplaygeometry invalid height"));
    }
    Ok((width, height))
}

} // verus!
