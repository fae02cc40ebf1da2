//! Friendly mouse-button and scroll-direction names mapped onto the
//! wire codes the automation tool expects.

use vstd::prelude::*;
use vstd::string::*;
use crate::errors::ActionError;
use crate::text::lower_ascii;
use crate::text::lower_seq;
use crate::text::str_eq;

verus! {

/// The button name a click or drag asks for: the given one, or `left`
/// when none was given, case-folded either way.
pub open spec fn requested_button_view(button: Option<Seq<char>>) -> Seq<char> {
    lower_seq(
        match button {
            Some(b) => b,
            None => "left"@,
        },
    )
}

/// `requested_button_view`, over the owned argument.
pub open spec fn requested_button(button: Option<String>) -> Seq<char> {
    requested_button_view(button.deep_view())
}

/// The wire code of a case-folded button name: buttons one to three by
/// name or by digit, anything else unsupported.
pub open spec fn button_code(name: Seq<char>) -> Option<Seq<char>> {
    if name == "left"@ || name == "1"@ {
        Some("1"@)
    } else if name == "middle"@ || name == "2"@ {
        Some("2"@)
    } else if name == "right"@ || name == "3"@ {
        Some("3"@)
    } else {
        None
    }
}

/// The wire code of a scroll direction: `up` and `down` map to the two
/// scroll-button codes, anything else is unsupported.
pub open spec fn scroll_code(direction: Seq<char>) -> Option<Seq<char>> {
    let d = lower_seq(direction);
    if d == "up"@ {
        Some("4"@)
    } else if d == "down"@ {
        Some("5"@)
    } else {
        None
    }
}

/// Resolves an optional friendly button name to its wire code, or
/// reports the (case-folded) name as unsupported.
pub fn mouse_button(button: Option<String>) -> (r: Result<String, ActionError>)
    ensures
        button_code(requested_button(button)) matches Some(code) ==> (r matches Ok(c) && c@
            == code),
        button_code(requested_button(button)) is None ==> (r matches Err(e) && e matches
            ActionError::UnsupportedButton { button: b } && b@ == requested_button(button)),
{
    let name = match button {
        Some(b) => lower_ascii(b.as_str()),
        None => lower_ascii("left"),
    };
    if str_eq(name.as_str(), "left") || str_eq(name.as_str(), "1") {
        Ok(String::from_str("1"))
    } else if str_eq(name.as_str(), "middle") || str_eq(name.as_str(), "2") {
        Ok(String::from_str("2"))
    } else if str_eq(name.as_str(), "right") || str_eq(name.as_str(), "3") {
        Ok(String::from_str("3"))
    } else {
        Err(ActionError::UnsupportedButton { button: name })
    }
}

/// Resolves a scroll direction to its wire code, or reports the
/// direction (as given) as unsupported.
pub fn scroll_button(direction: &str) -> (r: Result<String, ActionError>)
    ensures
        scroll_code(direction@) matches Some(code) ==> (r matches Ok(c) && c@ == code),
        scroll_code(direction@) is None ==> (r matches Err(e) && e matches
            ActionError::UnsupportedDirection { direction: d } && d@ == direction@),
{
    let lowered = lower_ascii(direction);
    if str_eq(lowered.as_str(), "up") {
        Ok(String::from_str("4"))
    } else if str_eq(lowered.as_str(), "down") {
        Ok(String::from_str("5"))
    } else {
        Err(ActionError::UnsupportedDirection { direction: direction.to_owned() })
    }
}

} // verus!
