//! The action dispatcher: routes one named request, reads its typed
//! arguments out of the JSON payload, validates them, and hands back a
//! validated action record — or the structured error, always before any
//! process is spawned.

use vstd::prelude::*;
use vstd::string::*;
use crate::action::ComputerAction;
use crate::action::wf_action;
use crate::buttons::button_code;
use crate::buttons::mouse_button;
use crate::buttons::requested_button;
use crate::buttons::requested_button_view;
use crate::buttons::scroll_button;
use crate::buttons::scroll_code;
use crate::errors::ActionError;
use crate::json::check_json_doc;
use crate::json::get_json_bool;
use crate::json::get_json_i64;
use crate::json::get_json_str;
use crate::json::get_json_str_list;
use crate::json::get_json_u64;
use crate::json::json_doc_ok;
use crate::json::json_field_is_null;
use crate::json::json_field_missing;
use crate::json::spec_opt_bool;
use crate::json::spec_opt_i64;
use crate::json::spec_opt_str;
use crate::json::spec_opt_u32;
use crate::json::spec_opt_u64;
use crate::json::spec_req_i64;
use crate::json::spec_req_str;
use crate::json::spec_req_str_list;
use crate::keys::confirmation_required;
use crate::keys::normalize_keys;
use crate::keys::normalized_keys;
use crate::keys::requires_confirmation;
use crate::text::join_plus;
use crate::text::join_with_plus;
use crate::text::str_eq;

verus! {

/// How many ticks a scroll performs when no amount is given.
pub const DEFAULT_SCROLL_TICKS: u32 = 3;

/// The tick count a scroll request resolves to: the given amount
/// floored at one, or the default.
pub open spec fn spec_ticks(amount: Option<u32>) -> u32 {
    match amount {
        Some(n) => if n >= 1 {
            n
        } else {
            1
        },
        None => DEFAULT_SCROLL_TICKS,
    }
}

/// The cursor position a scroll request carries: both coordinates or
/// neither.
pub open spec fn spec_scroll_pos(x: Option<i64>, y: Option<i64>) -> Option<(i64, i64)> {
    match (x, y) {
        (Some(a), Some(b)) => Some((a, b)),
        _ => None,
    }
}

/// The fixed set of supported action names.
pub open spec fn spec_supported_action(t: Seq<char>) -> bool {
    t == "computer_screenshot"@ || t == "computer_click"@ || t == "computer_drag"@ || t
        == "computer_scroll"@ || t == "computer_type"@ || t == "computer_key"@
}

/// Which action name a validated record answers to.
pub open spec fn action_matches_tool(a: ComputerAction, t: Seq<char>) -> bool {
    match a {
        ComputerAction::Screenshot => t == "computer_screenshot"@,
        ComputerAction::Click { .. } => t == "computer_click"@,
        ComputerAction::Drag { .. } => t == "computer_drag"@,
        ComputerAction::Scroll { .. } => t == "computer_scroll"@,
        ComputerAction::TypeText { .. } => t == "computer_type"@,
        ComputerAction::Key { .. } => t == "computer_key"@,
    }
}

/// Validates a click: the button must resolve, the coordinates pass
/// through as given, and `double` means exactly an explicit `true`.
pub fn click_request(x: i64, y: i64, button: Option<String>, double: Option<bool>) -> (r: Result<
    ComputerAction,
    ActionError,
>)
    ensures
        button_code(requested_button(button)) matches Some(code) ==> (r matches Ok(a) && a matches
            ComputerAction::Click { x: ax, y: ay, button: b, double: d } && ax == x && ay == y
            && b@ == code && d == (double == Some(true))),
        button_code(requested_button(button)) is None ==> (r matches Err(e) && e matches
            ActionError::UnsupportedButton { button: b } && b@ == requested_button(button)),
{
    let code = match mouse_button(button) {
        Ok(c) => c,
        Err(e) => {
            return Err(e);
        },
    };
    let d = match double {
        Some(true) => true,
        _ => false,
    };
    Ok(ComputerAction::Click { x, y, button: code, double: d })
}

/// Validates a drag: the button must resolve and the two endpoints pass
/// through as given.
pub fn drag_request(
    from_x: i64,
    from_y: i64,
    to_x: i64,
    to_y: i64,
    button: Option<String>,
) -> (r: Result<ComputerAction, ActionError>)
    ensures
        button_code(requested_button(button)) matches Some(code) ==> (r matches Ok(a) && a matches
            ComputerAction::Drag { from_x: fx, from_y: fy, to_x: tx, to_y: ty, button: b } && fx
            == from_x && fy == from_y && tx == to_x && ty == to_y && b@ == code),
        button_code(requested_button(button)) is None ==> (r matches Err(e) && e matches
            ActionError::UnsupportedButton { button: b } && b@ == requested_button(button)),
{
    let code = match mouse_button(button) {
        Ok(c) => c,
        Err(e) => {
            return Err(e);
        },
    };
    Ok(ComputerAction::Drag { from_x, from_y, to_x, to_y, button: code })
}

/// Validates a scroll.  Giving exactly one of the two cursor
/// coordinates is malformed whatever else the request says; then the
/// direction must resolve; the tick count defaults to three and is
/// floored at one.
pub fn scroll_request(direction: &str, amount: Option<u32>, x: Option<i64>, y: Option<i64>) -> (r:
    Result<ComputerAction, ActionError>)
    ensures
        (x is Some) != (y is Some) ==> r == Err::<ComputerAction, ActionError>(
            ActionError::MalformedScrollPosition,
        ),
        (x is Some) == (y is Some) && scroll_code(direction@) is None ==> (r matches Err(e)
            && e matches ActionError::UnsupportedDirection { direction: d } && d@ == direction@),
        (x is Some) == (y is Some) ==> (scroll_code(direction@) matches Some(code) ==> (r matches
            Ok(a) && a matches ComputerAction::Scroll { button: b, ticks, pos } && b@ == code
            && ticks == spec_ticks(amount) && pos == spec_scroll_pos(x, y))),
{
    if x.is_some() != y.is_some() {
        return Err(ActionError::MalformedScrollPosition);
    }
    let code = match scroll_button(direction) {
        Ok(c) => c,
        Err(e) => {
            return Err(e);
        },
    };
    let ticks = match amount {
        Some(n) => if n >= 1 {
            n
        } else {
            1
        },
        None => DEFAULT_SCROLL_TICKS,
    };
    let pos = match (x, y) {
        (Some(a), Some(b)) => Some((a, b)),
        _ => None,
    };
    Ok(ComputerAction::Scroll { button: code, ticks, pos })
}

/// Validates a key press: a destructive combination without an explicit
/// `confirm = true` is blocked; otherwise every key token is normalized
/// (case-folded, aliases collapsed) and the tokens are joined with `+`.
pub fn key_request(keys: Vec<String>, confirm: Option<bool>) -> (r: Result<
    ComputerAction,
    ActionError,
>)
    ensures
        confirmation_required(keys.deep_view()) && confirm != Some(true) ==> r == Err::<
            ComputerAction,
            ActionError,
        >(ActionError::ConfirmationRequired),
        !(confirmation_required(keys.deep_view()) && confirm != Some(true)) ==> (r matches Ok(a)
            && a matches ComputerAction::Key { combo } && combo@ == join_plus(
            normalized_keys(keys.deep_view()))),
{
    if requires_confirmation(&keys) {
        let confirmed = match confirm {
            Some(true) => true,
            _ => false,
        };
        if !confirmed {
            return Err(ActionError::ConfirmationRequired);
        }
    }
    let combo = join_with_plus(&normalize_keys(&keys));
    Ok(ComputerAction::Key { combo })
}

/// Whether `r` is exactly the argument-parse failure carrying detail
/// `d`.
pub open spec fn arg_failure(r: Result<ComputerAction, ActionError>, d: Seq<char>) -> bool {
    r matches Err(e) && e matches ActionError::ArgumentParseFailure { detail } && detail@ == d
}

/// What a click returns once its four fields have read cleanly.
pub open spec fn click_outcome(
    x: i64,
    y: i64,
    button: Option<Seq<char>>,
    double: Option<bool>,
    r: Result<ComputerAction, ActionError>,
) -> bool {
    match button_code(requested_button_view(button)) {
        Some(code) => r matches Ok(a) && a matches ComputerAction::Click {
            x: ax,
            y: ay,
            button: b,
            double: d,
        } && ax == x && ay == y && b@ == code && d == (double == Some(true)),
        None => r matches Err(e) && e matches ActionError::UnsupportedButton { button: b } && b@
            == requested_button_view(button),
    }
}

/// The whole click parse as a function of the argument text: field
/// errors in field order, then the validated record.
pub open spec fn click_parse_outcome(s: Seq<char>, r: Result<ComputerAction, ActionError>) -> bool {
    let fx = spec_req_i64(s, "x"@);
    let fy = spec_req_i64(s, "y"@);
    let fb = spec_opt_str(s, "button"@);
    let fd = spec_opt_bool(s, "double"@);
    &&& (fx is Err ==> arg_failure(r, fx->Err_0))
    &&& (fx is Ok && fy is Err ==> arg_failure(r, fy->Err_0))
    &&& (fx is Ok && fy is Ok && fb is Err ==> arg_failure(r, fb->Err_0))
    &&& (fx is Ok && fy is Ok && fb is Ok && fd is Err ==> arg_failure(r, fd->Err_0))
    &&& (fx is Ok && fy is Ok && fb is Ok && fd is Ok ==> click_outcome(
        fx->Ok_0,
        fy->Ok_0,
        fb->Ok_0,
        fd->Ok_0,
        r,
    ))
}

/// What a drag returns once its five fields have read cleanly.
pub open spec fn drag_outcome(
    from_x: i64,
    from_y: i64,
    to_x: i64,
    to_y: i64,
    button: Option<Seq<char>>,
    r: Result<ComputerAction, ActionError>,
) -> bool {
    match button_code(requested_button_view(button)) {
        Some(code) => r matches Ok(a) && a matches ComputerAction::Drag {
            from_x: fx,
            from_y: fy,
            to_x: tx,
            to_y: ty,
            button: b,
        } && fx == from_x && fy == from_y && tx == to_x && ty == to_y && b@ == code,
        None => r matches Err(e) && e matches ActionError::UnsupportedButton { button: b } && b@
            == requested_button_view(button),
    }
}

/// The whole drag parse as a function of the argument text.
pub open spec fn drag_parse_outcome(s: Seq<char>, r: Result<ComputerAction, ActionError>) -> bool {
    let f1 = spec_req_i64(s, "from_x"@);
    let f2 = spec_req_i64(s, "from_y"@);
    let f3 = spec_req_i64(s, "to_x"@);
    let f4 = spec_req_i64(s, "to_y"@);
    let fb = spec_opt_str(s, "button"@);
    &&& (f1 is Err ==> arg_failure(r, f1->Err_0))
    &&& (f1 is Ok && f2 is Err ==> arg_failure(r, f2->Err_0))
    &&& (f1 is Ok && f2 is Ok && f3 is Err ==> arg_failure(r, f3->Err_0))
    &&& (f1 is Ok && f2 is Ok && f3 is Ok && f4 is Err ==> arg_failure(r, f4->Err_0))
    &&& (f1 is Ok && f2 is Ok && f3 is Ok && f4 is Ok && fb is Err ==> arg_failure(
        r,
        fb->Err_0,
    ))
    &&& (f1 is Ok && f2 is Ok && f3 is Ok && f4 is Ok && fb is Ok ==> drag_outcome(
        f1->Ok_0,
        f2->Ok_0,
        f3->Ok_0,
        f4->Ok_0,
        fb->Ok_0,
        r,
    ))
}

/// What a scroll returns once its fields have read cleanly: position
/// pairing first, then the direction, then ticks and position.
pub open spec fn scroll_outcome(
    direction: Seq<char>,
    amount: Option<u32>,
    x: Option<i64>,
    y: Option<i64>,
    r: Result<ComputerAction, ActionError>,
) -> bool {
    if (x is Some) != (y is Some) {
        r == Err::<ComputerAction, ActionError>(ActionError::MalformedScrollPosition)
    } else {
        match scroll_code(direction) {
            Some(code) => r matches Ok(a) && a matches ComputerAction::Scroll {
                button: b,
                ticks,
                pos,
            } && b@ == code && ticks == spec_ticks(amount) && pos == spec_scroll_pos(x, y),
            None => r matches Err(e) && e matches ActionError::UnsupportedDirection {
                direction: d,
            } && d@ == direction,
        }
    }
}

/// The whole scroll parse as a function of the argument text.
pub open spec fn scroll_parse_outcome(s: Seq<char>, r: Result<ComputerAction, ActionError>) -> bool {
    let fdir = spec_req_str(s, "direction"@);
    let famt = spec_opt_u32(s, "amount"@);
    let fx = spec_opt_i64(s, "x"@);
    let fy = spec_opt_i64(s, "y"@);
    &&& (fdir is Err ==> arg_failure(r, fdir->Err_0))
    &&& (fdir is Ok && famt is Err ==> arg_failure(r, famt->Err_0))
    &&& (fdir is Ok && famt is Ok && fx is Err ==> arg_failure(r, fx->Err_0))
    &&& (fdir is Ok && famt is Ok && fx is Ok && fy is Err ==> arg_failure(r, fy->Err_0))
    &&& (fdir is Ok && famt is Ok && fx is Ok && fy is Ok ==> scroll_outcome(
        fdir->Ok_0,
        famt->Ok_0,
        fx->Ok_0,
        fy->Ok_0,
        r,
    ))
}

/// The whole text-injection parse as a function of the argument text:
/// once the two fields read cleanly the record always comes back.
pub open spec fn type_parse_outcome(s: Seq<char>, r: Result<ComputerAction, ActionError>) -> bool {
    let ftext = spec_req_str(s, "text"@);
    let fdelay = spec_opt_u64(s, "delay_ms"@);
    &&& (ftext is Err ==> arg_failure(r, ftext->Err_0))
    &&& (ftext is Ok && fdelay is Err ==> arg_failure(r, fdelay->Err_0))
    &&& (ftext is Ok && fdelay is Ok ==> (r matches Ok(a) && a matches ComputerAction::TypeText {
        text: t,
        delay_ms: dm,
    } && t@ == ftext->Ok_0 && dm == fdelay->Ok_0))
}

/// What a key press returns once its fields have read cleanly: the
/// confirmation gate, then the normalized tokens joined with `+`.
pub open spec fn key_outcome(
    keys: Seq<Seq<char>>,
    confirm: Option<bool>,
    r: Result<ComputerAction, ActionError>,
) -> bool {
    if confirmation_required(keys) && confirm != Some(true) {
        r == Err::<ComputerAction, ActionError>(ActionError::ConfirmationRequired)
    } else {
        r matches Ok(a) && a matches ComputerAction::Key { combo } && combo@ == join_plus(
            normalized_keys(keys),
        )
    }
}

/// The whole key-press parse as a function of the argument text.
pub open spec fn key_parse_outcome(s: Seq<char>, r: Result<ComputerAction, ActionError>) -> bool {
    let fkeys = spec_req_str_list(s, "keys"@);
    let fconf = spec_opt_bool(s, "confirm"@);
    &&& (fkeys is Err ==> arg_failure(r, fkeys->Err_0))
    &&& (fkeys is Ok && fconf is Err ==> arg_failure(r, fconf->Err_0))
    &&& (fkeys is Ok && fconf is Ok ==> key_outcome(fkeys->Ok_0, fconf->Ok_0, r))
}

fn field_error(prefix: &str, key: &str) -> (e: ActionError)
    ensures
        e matches ActionError::ArgumentParseFailure { detail } && detail@ == prefix@ + key@
            + "`"@,
{
    let mut detail = prefix.to_owned();
    detail.append(key);
    detail.append("`");
    ActionError::ArgumentParseFailure { detail }
}

fn check_arguments(arguments: &str) -> (r: Result<(), ActionError>)
    ensures
        r is Ok <==> json_doc_ok(arguments@),
        r matches Err(e) ==> e is ArgumentParseFailure,
{
    match check_json_doc(arguments) {
        Ok(_) => Ok(()),
        Err(detail) => Err(ActionError::ArgumentParseFailure { detail }),
    }
}

fn get_i64(s: &str, key: &str) -> (r: Result<i64, ActionError>)
    ensures
        spec_req_i64(s@, key@) matches Ok(n) ==> r == Ok::<i64, ActionError>(n),
        spec_req_i64(s@, key@) matches Err(d) ==> (r matches Err(e) && e matches
            ActionError::ArgumentParseFailure { detail } && detail@ == d),
{
    if json_field_missing(s, key) {
        Err(field_error("missing field `", key))
    } else {
        match get_json_i64(s, key) {
            Some(n) => Ok(n),
            None => Err(field_error("invalid field `", key)),
        }
    }
}

fn get_opt_i64(s: &str, key: &str) -> (r: Result<Option<i64>, ActionError>)
    ensures
        spec_opt_i64(s@, key@) matches Ok(o) ==> r == Ok::<Option<i64>, ActionError>(o),
        spec_opt_i64(s@, key@) matches Err(d) ==> (r matches Err(e) && e matches
            ActionError::ArgumentParseFailure { detail } && detail@ == d),
{
    if json_field_missing(s, key) || json_field_is_null(s, key) {
        Ok(None)
    } else {
        match get_json_i64(s, key) {
            Some(n) => Ok(Some(n)),
            None => Err(field_error("invalid field `", key)),
        }
    }
}

fn get_string(s: &str, key: &str) -> (r: Result<String, ActionError>)
    ensures
        spec_req_str(s@, key@) matches Ok(t) ==> (r matches Ok(v) && v@ == t),
        spec_req_str(s@, key@) matches Err(d) ==> (r matches Err(e) && e matches
            ActionError::ArgumentParseFailure { detail } && detail@ == d),
{
    if json_field_missing(s, key) {
        Err(field_error("missing field `", key))
    } else {
        match get_json_str(s, key) {
            Some(v) => Ok(v),
            None => Err(field_error("invalid field `", key)),
        }
    }
}

fn get_opt_string(s: &str, key: &str) -> (r: Result<Option<String>, ActionError>)
    ensures
        spec_opt_str(s@, key@) matches Ok(o) ==> (r matches Ok(v) && v.deep_view() == o),
        spec_opt_str(s@, key@) matches Err(d) ==> (r matches Err(e) && e matches
            ActionError::ArgumentParseFailure { detail } && detail@ == d),
{
    if json_field_missing(s, key) || json_field_is_null(s, key) {
        Ok(None)
    } else {
        match get_json_str(s, key) {
            Some(v) => Ok(Some(v)),
            None => Err(field_error("invalid field `", key)),
        }
    }
}

fn get_opt_bool(s: &str, key: &str) -> (r: Result<Option<bool>, ActionError>)
    ensures
        spec_opt_bool(s@, key@) matches Ok(o) ==> r == Ok::<Option<bool>, ActionError>(o),
        spec_opt_bool(s@, key@) matches Err(d) ==> (r matches Err(e) && e matches
            ActionError::ArgumentParseFailure { detail } && detail@ == d),
{
    if json_field_missing(s, key) || json_field_is_null(s, key) {
        Ok(None)
    } else {
        match get_json_bool(s, key) {
            Some(b) => Ok(Some(b)),
            None => Err(field_error("invalid field `", key)),
        }
    }
}

fn get_opt_u32(s: &str, key: &str) -> (r: Result<Option<u32>, ActionError>)
    ensures
        spec_opt_u32(s@, key@) matches Ok(o) ==> r == Ok::<Option<u32>, ActionError>(o),
        spec_opt_u32(s@, key@) matches Err(d) ==> (r matches Err(e) && e matches
            ActionError::ArgumentParseFailure { detail } && detail@ == d),
{
    if json_field_missing(s, key) || json_field_is_null(s, key) {
        Ok(None)
    } else {
        match get_json_u64(s, key) {
            Some(n) => {
                if n <= 0xffff_ffff {
                    Ok(Some(n as u32))
                } else {
                    Err(field_error("invalid field `", key))
                }
            },
            None => Err(field_error("invalid field `", key)),
        }
    }
}

fn get_opt_u64(s: &str, key: &str) -> (r: Result<Option<u64>, ActionError>)
    ensures
        spec_opt_u64(s@, key@) matches Ok(o) ==> r == Ok::<Option<u64>, ActionError>(o),
        spec_opt_u64(s@, key@) matches Err(d) ==> (r matches Err(e) && e matches
            ActionError::ArgumentParseFailure { detail } && detail@ == d),
{
    if json_field_missing(s, key) || json_field_is_null(s, key) {
        Ok(None)
    } else {
        match get_json_u64(s, key) {
            Some(n) => Ok(Some(n)),
            None => Err(field_error("invalid field `", key)),
        }
    }
}

fn get_string_list(s: &str, key: &str) -> (r: Result<Vec<String>, ActionError>)
    ensures
        spec_req_str_list(s@, key@) matches Ok(l) ==> (r matches Ok(v) && v.deep_view() == l),
        spec_req_str_list(s@, key@) matches Err(d) ==> (r matches Err(e) && e matches
            ActionError::ArgumentParseFailure { detail } && detail@ == d),
{
    if json_field_missing(s, key) {
        Err(field_error("missing field `", key))
    } else {
        match get_json_str_list(s, key) {
            Some(v) => Ok(v),
            None => Err(field_error("invalid field `", key)),
        }
    }
}

fn parse_click(arguments: &str) -> (r: Result<ComputerAction, ActionError>)
    ensures
        r matches Ok(a) ==> a is Click && wf_action(a),
        !json_doc_ok(arguments@) ==> (r matches Err(e) && e is ArgumentParseFailure),
        json_doc_ok(arguments@) ==> click_parse_outcome(arguments@, r),
{
    match check_arguments(arguments) {
        Ok(_) => {},
        Err(e) => {
            return Err(e);
        },
    }
    let x = match get_i64(arguments, "x") {
        Ok(n) => n,
        Err(e) => {
            return Err(e);
        },
    };
    let y = match get_i64(arguments, "y") {
        Ok(n) => n,
        Err(e) => {
            return Err(e);
        },
    };
    let button = match get_opt_string(arguments, "button") {
        Ok(b) => b,
        Err(e) => {
            return Err(e);
        },
    };
    let double = match get_opt_bool(arguments, "double") {
        Ok(d) => d,
        Err(e) => {
            return Err(e);
        },
    };
    click_request(x, y, button, double)
}

fn parse_drag(arguments: &str) -> (r: Result<ComputerAction, ActionError>)
    ensures
        r matches Ok(a) ==> a is Drag && wf_action(a),
        !json_doc_ok(arguments@) ==> (r matches Err(e) && e is ArgumentParseFailure),
        json_doc_ok(arguments@) ==> drag_parse_outcome(arguments@, r),
{
    match check_arguments(arguments) {
        Ok(_) => {},
        Err(e) => {
            return Err(e);
        },
    }
    let from_x = match get_i64(arguments, "from_x") {
        Ok(n) => n,
        Err(e) => {
            return Err(e);
        },
    };
    let from_y = match get_i64(arguments, "from_y") {
        Ok(n) => n,
        Err(e) => {
            return Err(e);
        },
    };
    let to_x = match get_i64(arguments, "to_x") {
        Ok(n) => n,
        Err(e) => {
            return Err(e);
        },
    };
    let to_y = match get_i64(arguments, "to_y") {
        Ok(n) => n,
        Err(e) => {
            return Err(e);
        },
    };
    let button = match get_opt_string(arguments, "button") {
        Ok(b) => b,
        Err(e) => {
            return Err(e);
        },
    };
    drag_request(from_x, from_y, to_x, to_y, button)
}

fn parse_scroll(arguments: &str) -> (r: Result<ComputerAction, ActionError>)
    ensures
        r matches Ok(a) ==> a is Scroll && wf_action(a),
        !json_doc_ok(arguments@) ==> (r matches Err(e) && e is ArgumentParseFailure),
        json_doc_ok(arguments@) ==> scroll_parse_outcome(arguments@, r),
{
    match check_arguments(arguments) {
        Ok(_) => {},
        Err(e) => {
            return Err(e);
        },
    }
    let direction = match get_string(arguments, "direction") {
        Ok(d) => d,
        Err(e) => {
            return Err(e);
        },
    };
    let amount = match get_opt_u32(arguments, "amount") {
        Ok(a) => a,
        Err(e) => {
            return Err(e);
        },
    };
    let x = match get_opt_i64(arguments, "x") {
        Ok(n) => n,
        Err(e) => {
            return Err(e);
        },
    };
    let y = match get_opt_i64(arguments, "y") {
        Ok(n) => n,
        Err(e) => {
            return Err(e);
        },
    };
    scroll_request(direction.as_str(), amount, x, y)
}

fn parse_type(arguments: &str) -> (r: Result<ComputerAction, ActionError>)
    ensures
        r matches Ok(a) ==> a is TypeText && wf_action(a),
        !json_doc_ok(arguments@) ==> (r matches Err(e) && e is ArgumentParseFailure),
        json_doc_ok(arguments@) ==> type_parse_outcome(arguments@, r),
{
    match check_arguments(arguments) {
        Ok(_) => {},
        Err(e) => {
            return Err(e);
        },
    }
    let text = match get_string(arguments, "text") {
        Ok(t) => t,
        Err(e) => {
            return Err(e);
        },
    };
    let delay_ms = match get_opt_u64(arguments, "delay_ms") {
        Ok(d) => d,
        Err(e) => {
            return Err(e);
        },
    };
    Ok(ComputerAction::TypeText { text, delay_ms })
}

fn parse_key(arguments: &str) -> (r: Result<ComputerAction, ActionError>)
    ensures
        r matches Ok(a) ==> a is Key && wf_action(a),
        !json_doc_ok(arguments@) ==> (r matches Err(e) && e is ArgumentParseFailure),
        json_doc_ok(arguments@) ==> key_parse_outcome(arguments@, r),
{
    match check_arguments(arguments) {
        Ok(_) => {},
        Err(e) => {
            return Err(e);
        },
    }
    let keys = match get_string_list(arguments, "keys") {
        Ok(k) => k,
        Err(e) => {
            return Err(e);
        },
    };
    let confirm = match get_opt_bool(arguments, "confirm") {
        Ok(c) => c,
        Err(e) => {
            return Err(e);
        },
    };
    key_request(keys, confirm)
}

/// The request router.  It holds no state: one call handles one action
/// and forgets it.
pub struct ComputerUseHandler;

impl ComputerUseHandler {
    /// Every action but a screenshot mutates the GUI.
    pub fn is_mutating(&self, tool_name: &str) -> (r: bool)
        ensures
            r == (tool_name@ != "computer_screenshot"@),
    {
        !str_eq(tool_name, "computer_screenshot")
    }

    /// Routes one named request: reads the typed arguments out of the
    /// JSON payload and validates them, producing a validated action or
    /// the structured error.  No process has been spawned yet either
    /// way.
    pub fn parse_action(&self, tool_name: &str, arguments: &str) -> (r: Result<
        ComputerAction,
        ActionError,
    >)
        ensures
            !spec_supported_action(tool_name@) ==> (r matches Err(e) && e matches
                ActionError::UnsupportedAction { tool_name: t } && t@ == tool_name@),
            tool_name@ == "computer_screenshot"@ ==> r == Ok::<ComputerAction, ActionError>(
                ComputerAction::Screenshot,
            ),
            r matches Ok(a) ==> action_matches_tool(a, tool_name@) && wf_action(a),
    {
        if str_eq(tool_name, "computer_screenshot") {
            Ok(ComputerAction::Screenshot)
        } else if str_eq(tool_name, "computer_click") {
            parse_click(arguments)
        } else if str_eq(tool_name, "computer_drag") {
            parse_drag(arguments)
        } else if str_eq(tool_name, "computer_scroll") {
            parse_scroll(arguments)
        } else if str_eq(tool_name, "computer_type") {
            parse_type(arguments)
        } else if str_eq(tool_name, "computer_key") {
            parse_key(arguments)
        } else {
            Err(ActionError::UnsupportedAction { tool_name: tool_name.to_owned() })
        }
    }
}

} // verus!
