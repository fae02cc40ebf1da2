//! Command synthesis: each validated action becomes one ordered
//! argument list for the automation tool, plus the success message to
//! report.  The order within a sequence (press down before move before
//! release) is part of the contract, since reordering would change the
//! physical input semantics.

use vstd::prelude::*;
use vstd::string::*;
use crate::action::ComputerAction;
use crate::action::spec_needs_geometry;
use crate::geometry::LOGICAL_HEIGHT;
use crate::geometry::LOGICAL_WIDTH;
use crate::geometry::scale_coord;
use crate::geometry::scale_point;
use crate::text::dec_str;
use crate::text::u64_to_dec;

verus! {

/// The synthesized invocation of one action: the ordered argument list
/// for the automation tool, and the success message to report.
#[derive(Debug, Clone, PartialEq, Eq)]
pub struct CommandPlan {
    pub args: Vec<String>,
    pub message: String,
}

/// The physical x coordinate of a logical x on a display `w` wide.
pub open spec fn phys_x(x: i64, w: u32) -> int {
    scale_coord(x as int, LOGICAL_WIDTH as int, w as int)
}

/// The physical y coordinate of a logical y on a display `h` high.
pub open spec fn phys_y(y: i64, h: u32) -> int {
    scale_coord(y as int, LOGICAL_HEIGHT as int, h as int)
}

/// The synchronous cursor move to the physical image of a logical point.
pub open spec fn spec_move_args(x: i64, y: i64, w: u32, h: u32) -> Seq<Seq<char>> {
    seq!["mousemove"@, "--sync"@, dec_str(phys_x(x, w)), dec_str(phys_y(y, h))]
}

/// A physical point rendered as `x,y`.
pub open spec fn spec_point_text(x: i64, y: i64, w: u32, h: u32) -> Seq<char> {
    dec_str(phys_x(x, w)) + ","@ + dec_str(phys_y(y, h))
}

/// The full argument list for one action, given the display geometry
/// where the action needs it.
pub open spec fn spec_plan_args(a: ComputerAction, geometry: Option<(u32, u32)>) -> Seq<
    Seq<char>,
> {
    match a {
        ComputerAction::Screenshot => Seq::empty(),
        ComputerAction::Click { x, y, button, double } => match geometry {
            Some(g) => spec_move_args(x, y, g.0, g.1) + seq!["click"@, button@] + (if double {
                seq!["click"@, button@]
            } else {
                Seq::empty()
            }),
            None => Seq::empty(),
        },
        ComputerAction::Drag { from_x, from_y, to_x, to_y, button } => match geometry {
            Some(g) => spec_move_args(from_x, from_y, g.0, g.1) + seq!["mousedown"@, button@]
                + spec_move_args(to_x, to_y, g.0, g.1) + seq!["mouseup"@, button@],
            None => Seq::empty(),
        },
        ComputerAction::Scroll { button, ticks, pos } => (match (pos, geometry) {
            (Some(p), Some(g)) => spec_move_args(p.0, p.1, g.0, g.1),
            _ => Seq::empty(),
        }) + seq!["click"@] + (if ticks > 1 {
            seq!["--repeat"@, dec_str(ticks as int)]
        } else {
            Seq::empty()
        }) + seq![button@],
        ComputerAction::TypeText { text, delay_ms } => seq!["type"@] + (match delay_ms {
            Some(ms) => seq!["--delay"@, dec_str(ms as int)],
            None => Seq::empty(),
        }) + seq!["--"@, text@],
        ComputerAction::Key { combo } => seq!["key"@, combo@],
    }
}

/// The success message for one action.
pub open spec fn spec_plan_message(a: ComputerAction, geometry: Option<(u32, u32)>) -> Seq<
    char,
> {
    match a {
        ComputerAction::Screenshot => Seq::empty(),
        ComputerAction::Click { x, y, .. } => match geometry {
            Some(g) => "clicked at "@ + spec_point_text(x, y, g.0, g.1),
            None => Seq::empty(),
        },
        ComputerAction::Drag { from_x, from_y, to_x, to_y, .. } => match geometry {
            Some(g) => "dragged from "@ + spec_point_text(from_x, from_y, g.0, g.1) + " to "@
                + spec_point_text(to_x, to_y, g.0, g.1),
            None => Seq::empty(),
        },
        ComputerAction::Scroll { ticks, .. } => "scrolled "@ + dec_str(ticks as int) + " ticks"@,
        ComputerAction::TypeText { text, .. } => "typed "@ + dec_str(text@.len() as int)
            + " characters"@,
        ComputerAction::Key { combo } => "pressed "@ + combo@,
    }
}

fn push_move(args: &mut Vec<String>, x: i64, y: i64, w: u32, h: u32) -> (pt: String)
    requires
        1 <= w,
        1 <= h,
    ensures
        final(args).deep_view() == old(args).deep_view() + spec_move_args(x, y, w, h),
        pt@ == spec_point_text(x, y, w, h),
{
    let (px, py) = scale_point(x, y, w, h);
    let xs = u64_to_dec(px as u64);
    let ys = u64_to_dec(py as u64);
    let mut pt = xs.clone();
    pt.append(",");
    pt.append(ys.as_str());
    args.push(String::from_str("mousemove"));
    args.push(String::from_str("--sync"));
    args.push(xs);
    args.push(ys);
    proof {
        assert(args.deep_view() =~~= old(args).deep_view() + spec_move_args(x, y, w, h));
    }
    pt
}

/// Synthesizes the one tool invocation that carries a (non-screenshot)
/// action out, together with its success message.  The argument list is
/// exactly the ordered sequence the contract below states.
pub fn build_command(action: &ComputerAction, geometry: Option<(u32, u32)>) -> (r: CommandPlan)
    requires
        !(*action is Screenshot),
        spec_needs_geometry(*action) ==> (geometry matches Some(g) && 1 <= g.0 && 1 <= g.1),
    ensures
        r.args.deep_view() == spec_plan_args(*action, geometry),
        r.message@ == spec_plan_message(*action, geometry),
{
    match action {
        ComputerAction::Screenshot => {
            // Unreachable by the precondition; an empty plan keeps the
            // match total.
            proof {
                assert(false);
            }
            CommandPlan { args: Vec::new(), message: String::new() }
        },
        ComputerAction::Click { x, y, button, double } => {
            let g = geometry.unwrap();
            let mut args: Vec<String> = Vec::new();
            let pt = push_move(&mut args, *x, *y, g.0, g.1);
            args.push(String::from_str("click"));
            args.push(button.clone());
            if *double {
                args.push(String::from_str("click"));
                args.push(button.clone());
            }
            let mut message = String::from_str("clicked at ");
            message.append(pt.as_str());
            proof {
                assert(args.deep_view() =~~= spec_plan_args(*action, geometry));
            }
            CommandPlan { args, message }
        },
        ComputerAction::Drag { from_x, from_y, to_x, to_y, button } => {
            let g = geometry.unwrap();
            let mut args: Vec<String> = Vec::new();
            let from_pt = push_move(&mut args, *from_x, *from_y, g.0, g.1);
            args.push(String::from_str("mousedown"));
            args.push(button.clone());
            proof {
                assert(args.deep_view() =~~= spec_move_args(*from_x, *from_y, g.0, g.1)
                    + seq!["mousedown"@, button@]);
            }
            let to_pt = push_move(&mut args, *to_x, *to_y, g.0, g.1);
            proof {
                assert(args.deep_view() =~~= spec_move_args(*from_x, *from_y, g.0, g.1)
                    + seq!["mousedown"@, button@] + spec_move_args(*to_x, *to_y, g.0, g.1));
            }
            args.push(String::from_str("mouseup"));
            args.push(button.clone());
            let mut message = String::from_str("dragged from ");
            message.append(from_pt.as_str());
            message.append(" to ");
            message.append(to_pt.as_str());
            proof {
                assert(args.deep_view() =~~= spec_plan_args(*action, geometry));
            }
            CommandPlan { args, message }
        },
        ComputerAction::Scroll { button, ticks, pos } => {
            let mut args: Vec<String> = Vec::new();
            match pos {
                Some(p) => {
                    let g = geometry.unwrap();
                    push_move(&mut args, p.0, p.1, g.0, g.1);
                },
                None => {},
            }
            args.push(String::from_str("click"));
            if *ticks > 1 {
                args.push(String::from_str("--repeat"));
                args.push(u64_to_dec(*ticks as u64));
            }
            args.push(button.clone());
            let mut message = String::from_str("scrolled ");
            message.append(u64_to_dec(*ticks as u64).as_str());
            message.append(" ticks");
            proof {
                assert(args.deep_view() =~~= spec_plan_args(*action, geometry));
            }
            CommandPlan { args, message }
        },
        ComputerAction::TypeText { text, delay_ms } => {
            let mut args: Vec<String> = Vec::new();
            args.push(String::from_str("type"));
            match delay_ms {
                Some(ms) => {
                    args.push(String::from_str("--delay"));
                    args.push(u64_to_dec(*ms));
                },
                None => {},
            }
            args.push(String::from_str("--"));
            args.push(text.clone());
            let count = text.as_str().unicode_len();
            let mut message = String::from_str("typed ");
            message.append(u64_to_dec(count as u64).as_str());
            message.append(" characters");
            proof {
                assert(args.deep_view() =~~= spec_plan_args(*action, geometry));
            }
            CommandPlan { args, message }
        },
        ComputerAction::Key { combo } => {
            let mut args: Vec<String> = Vec::new();
            args.push(String::from_str("key"));
            args.push(combo.clone());
            let mut message = String::from_str("pressed ");
            message.append(combo.as_str());
            proof {
                assert(args.deep_view() =~~= spec_plan_args(*action, geometry));
            }
            CommandPlan { args, message }
        },
    }
}

} // verus!
