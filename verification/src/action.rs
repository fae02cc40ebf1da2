//! The validated action records: one variant per supported action, with
//! plain typed arguments, canonical button codes, and clamped-ready
//! logical coordinates.

use vstd::prelude::*;

verus! {

/// One validated action request, ready for command synthesis.  Buttons
/// are held as their wire codes; a scroll's cursor position is both
/// coordinates or neither.
#[derive(Debug, Clone, PartialEq, Eq)]
pub enum ComputerAction {
    /// Capture the screen into a fresh file.
    Screenshot,
    /// Move to a logical point and click, twice when `double` is set.
    Click { x: i64, y: i64, button: String, double: bool },
    /// Press at one logical point, move held to another, release.
    Drag { from_x: i64, from_y: i64, to_x: i64, to_y: i64, button: String },
    /// Scroll a number of ticks, optionally positioning the cursor first.
    Scroll { button: String, ticks: u32, pos: Option<(i64, i64)> },
    /// Inject literal text, with an optional inter-keystroke delay.
    TypeText { text: String, delay_ms: Option<u64> },
    /// Press one key combination, already joined for the wire.
    Key { combo: String },
}

/// What validation guarantees of an action it lets through: canonical
/// button codes and at least one scroll tick.
pub open spec fn wf_action(a: ComputerAction) -> bool {
    match a {
        ComputerAction::Click { button, .. } => button@ == "1"@ || button@ == "2"@ || button@
            == "3"@,
        ComputerAction::Drag { button, .. } => button@ == "1"@ || button@ == "2"@ || button@
            == "3"@,
        ComputerAction::Scroll { button, ticks, .. } => (button@ == "4"@ || button@ == "5"@)
            && ticks >= 1,
        _ => true,
    }
}

/// Whether carrying the action out needs the display geometry first.
pub open spec fn spec_needs_geometry(a: ComputerAction) -> bool {
    match a {
        ComputerAction::Click { .. } => true,
        ComputerAction::Drag { .. } => true,
        ComputerAction::Scroll { pos, .. } => pos is Some,
        _ => false,
    }
}

/// Whether carrying the action out needs the display geometry first.
pub fn needs_geometry(action: &ComputerAction) -> (r: bool)
    ensures
        r == spec_needs_geometry(*action),
{
    match action {
        ComputerAction::Click { .. } => true,
        ComputerAction::Drag { .. } => true,
        ComputerAction::Scroll { pos, .. } => pos.is_some(),
        _ => false,
    }
}

/// The helper executable that carries the action out.
pub open spec fn spec_required_tool(a: ComputerAction) -> Seq<char> {
    if a is Screenshot {
        "import"@
    } else {
        "xdotool"@
    }
}

/// The helper executable that carries the action out.
pub fn required_tool(action: &ComputerAction) -> (r: &'static str)
    ensures
        r@ == spec_required_tool(*action),
{
    match action {
        ComputerAction::Screenshot => "import",
        _ => "xdotool",
    }
}

} // verus!
