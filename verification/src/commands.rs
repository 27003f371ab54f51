//! Builders for the compositor dispatch commands.
//!
//! Every mutation the controller performs is one dispatch command: a fixed
//! list of string arguments. The builders here compute those argument
//! lists; executing them against the compositor happens outside the
//! library.

use vstd::prelude::*;
use crate::{Monitor, TerminalSize, TermPosition, Workspace};
use crate::numfmt::{i32_to_string, int_rep};
use crate::geometry::{position_fits, spec_position_x, spec_position_y};

verus! {

/// The window selector argument: "class:" followed by the class identifier.
pub open spec fn spec_class_arg(class: Seq<char>) -> Seq<char> {
    "class:"@ + class
}

fn class_arg(class: &str) -> (r: String)
    ensures
        r@ == spec_class_arg(class@),
{
    String::from_str("class:").concat(class)
}

/// The arguments of the absolute-pixel resize command.
pub open spec fn spec_resize_args(class: Seq<char>, size: TerminalSize) -> Seq<Seq<char>> {
    seq![
        "resizewindowpixel"@,
        "exact"@,
        int_rep(size.width as int),
        int_rep(size.height as int),
        ","@,
        spec_class_arg(class),
    ]
}

/// Build the resize command: an absolute pixel resize of the managed
/// window to the computed terminal size.
pub fn dispatch_terminal_resize(class: &str, terminal_size: &TerminalSize) -> (args: Vec<String>)
    ensures
        args.deep_view() == spec_resize_args(class@, *terminal_size),
{
    let mut args: Vec<String> = Vec::new();
    args.push(String::from_str("resizewindowpixel"));
    args.push(String::from_str("exact"));
    args.push(i32_to_string(terminal_size.width));
    args.push(i32_to_string(terminal_size.height));
    args.push(String::from_str(","));
    args.push(class_arg(class));
    proof {
        assert(args.deep_view() =~~= spec_resize_args(class@, *terminal_size));
    }
    args
}

/// The arguments of the absolute-pixel move command, with the coordinates
/// the anchor formulas yield for this monitor, margin and size.
pub open spec fn spec_positioning_args(class: Seq<char>, monitor: Monitor, anchor: TermPosition, gap: int, size: TerminalSize) -> Seq<Seq<char>> {
    seq![
        "movewindowpixel"@,
        "exact"@,
        int_rep(spec_position_x(monitor, size, anchor, gap)),
        int_rep(spec_position_y(monitor, size, anchor, gap)),
        ","@,
        spec_class_arg(class),
    ]
}

/// Build the positioning command: an absolute pixel move of the managed
/// window to the anchor position on the monitor.
pub fn dispatch_terminal_positioning(class: &str, monitor: &Monitor, position: &TermPosition, gap: i32, terminal_size: &TerminalSize) -> (args: Vec<String>)
    requires
        position_fits(*monitor, *terminal_size, gap as int),
    ensures
        args.deep_view() == spec_positioning_args(class@, *monitor, *position, gap as int, *terminal_size),
{
    let xy = crate::geometry::position(monitor, terminal_size, position, gap);
    let mut args: Vec<String> = Vec::new();
    args.push(String::from_str("movewindowpixel"));
    args.push(String::from_str("exact"));
    args.push(i32_to_string(xy.0));
    args.push(i32_to_string(xy.1));
    args.push(String::from_str(","));
    args.push(class_arg(class));
    proof {
        assert(args.deep_view() =~~= spec_positioning_args(class@, *monitor, *position, gap as int, *terminal_size));
    }
    args
}

/// The arguments of the spawn command: the terminal program is started on
/// the hidden scratch workspace, floating, without stealing focus.
pub open spec fn spec_init_args(terminal: Seq<char>, class: Seq<char>) -> Seq<Seq<char>> {
    seq![
        "exec"@,
        "[workspace special:rdrop silent;float;]"@,
        terminal,
        "--class"@,
        class,
    ]
}

/// Build the spawn command for the configured terminal program and class.
pub fn dispatch_terminal_init(terminal: &str, class: &str) -> (args: Vec<String>)
    ensures
        args.deep_view() == spec_init_args(terminal@, class@),
{
    let mut args: Vec<String> = Vec::new();
    args.push(String::from_str("exec"));
    args.push(String::from_str("[workspace special:rdrop silent;float;]"));
    args.push(terminal.to_owned());
    args.push(String::from_str("--class"));
    args.push(class.to_owned());
    proof {
        assert(args.deep_view() =~~= spec_init_args(terminal@, class@));
    }
    args
}

/// The arguments of the pin command, keeping the window visible across
/// workspace switches.
pub open spec fn spec_pin_args(class: Seq<char>) -> Seq<Seq<char>> {
    seq!["pin"@, spec_class_arg(class)]
}

/// Build the pin command for the managed window.
pub fn dispatch_terminal_pin(class: &str) -> (args: Vec<String>)
    ensures
        args.deep_view() == spec_pin_args(class@),
{
    let mut args: Vec<String> = Vec::new();
    args.push(String::from_str("pin"));
    args.push(class_arg(class));
    proof {
        assert(args.deep_view() =~~= spec_pin_args(class@));
    }
    args
}

/// The arguments of the focus command for the managed window.
pub open spec fn spec_focus_args(class: Seq<char>) -> Seq<Seq<char>> {
    seq!["focuswindow"@, spec_class_arg(class)]
}

/// Build the focus command for the managed window.
pub fn dispatch_terminal_focus(class: &str) -> (args: Vec<String>)
    ensures
        args.deep_view() == spec_focus_args(class@),
{
    let mut args: Vec<String> = Vec::new();
    args.push(String::from_str("focuswindow"));
    args.push(class_arg(class));
    proof {
        assert(args.deep_view() =~~= spec_focus_args(class@));
    }
    args
}

/// The destination of the toggle: the active workspace when the window sits
/// elsewhere (show it), the scratch workspace when it already sits on the
/// active one (hide it). The trailing comma separates the workspace from
/// the window selector in the dispatch syntax.
pub open spec fn spec_move_destination(terminal_workspace: int, active: Workspace) -> Seq<char> {
    if active.id != terminal_workspace {
        active.name@ + ","@
    } else {
        "special:rdrop,"@
    }
}

/// The arguments of the silent workspace-move command.
pub open spec fn spec_move_args(class: Seq<char>, terminal_workspace: int, active: Workspace) -> Seq<Seq<char>> {
    seq![
        "movetoworkspacesilent"@,
        spec_move_destination(terminal_workspace, active),
        spec_class_arg(class),
    ]
}

/// Build the toggle tail of the command sequence: the silent move of the
/// window to its destination workspace, followed by a focus command
/// exactly when the destination is the active workspace (the show branch);
/// the hide branch focuses nothing.
pub fn dispatch_terminal_move(class: &str, terminal_workspace: i32, active: &Workspace) -> (commands: Vec<Vec<String>>)
    ensures
        active.id != terminal_workspace ==> commands.deep_view() == seq![
            spec_move_args(class@, terminal_workspace as int, *active),
            spec_focus_args(class@),
        ],
        active.id == terminal_workspace ==> commands.deep_view() == seq![
            spec_move_args(class@, terminal_workspace as int, *active),
        ],
{
    let destination_arg = if active.id != terminal_workspace {
        active.name.clone().concat(",")
    } else {
        String::from_str("special:rdrop,")
    };

    let mut move_args: Vec<String> = Vec::new();
    move_args.push(String::from_str("movetoworkspacesilent"));
    move_args.push(destination_arg);
    move_args.push(class_arg(class));
    proof {
        assert(move_args.deep_view() =~~= spec_move_args(class@, terminal_workspace as int, *active));
    }

    let mut commands: Vec<Vec<String>> = Vec::new();
    commands.push(move_args);
    if active.id != terminal_workspace {
        commands.push(dispatch_terminal_focus(class));
        proof {
            assert(commands.deep_view() =~~= seq![
                spec_move_args(class@, terminal_workspace as int, *active),
                spec_focus_args(class@),
            ]);
        }
    } else {
        proof {
            assert(commands.deep_view() =~~= seq![
                spec_move_args(class@, terminal_workspace as int, *active),
            ]);
        }
    }
    commands
}

} // verus!
