//! The toggle decision engine.
//!
//! One invocation is a pure function of the queried compositor state and
//! the static configuration: when the managed window is absent the plan is
//! a single spawn command; when it is present the plan is the ordered
//! sequence resize, position, pin, workspace-move, and — only when the
//! window is brought to the active workspace — focus. The order is
//! load-bearing: the window must be sized and pinned before it moves, so
//! it appears without flicker and survives the workspace switch.

use vstd::prelude::*;
use crate::{Config, Monitor, Workspace};
use crate::geometry::{calc_terminal_size_from_percentage, position_fits, spec_terminal_size};
use crate::commands::{
    dispatch_terminal_init, dispatch_terminal_move, dispatch_terminal_pin,
    dispatch_terminal_positioning, dispatch_terminal_resize, spec_focus_args, spec_init_args,
    spec_move_args, spec_pin_args, spec_positioning_args, spec_resize_args,
};

verus! {

/// Whether the geometry arithmetic for this configuration and monitor
/// stays within `i32` for every intermediate value.
pub open spec fn geometry_fits(config: Config, monitor: Monitor) -> bool {
    &&& i32::MIN <= monitor.width * config.width <= i32::MAX
    &&& i32::MIN <= monitor.height * config.height <= i32::MAX
    &&& position_fits(
        monitor,
        spec_terminal_size(monitor, config.width as int, config.height as int),
        config.gap as int,
    )
}

/// The plan for a present window: resize, position and pin it, move it to
/// its toggle destination, and focus it exactly when it was brought to the
/// active workspace.
pub open spec fn spec_present_plan(config: Config, monitor: Monitor, active: Workspace, terminal_workspace: int) -> Seq<Seq<Seq<char>>> {
    let size = spec_terminal_size(monitor, config.width as int, config.height as int);
    let base = seq![
        spec_resize_args(config.class@, size),
        spec_positioning_args(config.class@, monitor, config.position, config.gap as int, size),
        spec_pin_args(config.class@),
        spec_move_args(config.class@, terminal_workspace, active),
    ];
    if active.id != terminal_workspace {
        base + seq![spec_focus_args(config.class@)]
    } else {
        base
    }
}

/// Toggle alternation: when the window sits on a workspace other than the
/// active one, the plan moves it to the active workspace and ends with a
/// focus command; when it already sits on the active workspace, the plan
/// moves it to the scratch workspace and contains no focus command at all.
pub proof fn lemma_toggle_alternation(config: Config, monitor: Monitor, active: Workspace, terminal_workspace: int)
    ensures
        ({
            let plan = spec_present_plan(config, monitor, active, terminal_workspace);
            active.id != terminal_workspace ==> {
                &&& plan.len() == 5
                &&& plan[3] == spec_move_args(config.class@, terminal_workspace, active)
                &&& plan[3][1] == active.name@ + ","@
                &&& plan[4] == spec_focus_args(config.class@)
            }
        }),
        ({
            let plan = spec_present_plan(config, monitor, active, terminal_workspace);
            active.id == terminal_workspace ==> {
                &&& plan.len() == 4
                &&& plan[3] == spec_move_args(config.class@, terminal_workspace, active)
                &&& plan[3][1] == "special:rdrop,"@
                &&& forall|i: int| 0 <= i < plan.len() ==> plan[i] != spec_focus_args(config.class@)
            }
        }),
{
    let plan = spec_present_plan(config, monitor, active, terminal_workspace);
    if active.id == terminal_workspace {
        reveal_strlit("resizewindowpixel");
        reveal_strlit("movewindowpixel");
        reveal_strlit("pin");
        reveal_strlit("movetoworkspacesilent");
        reveal_strlit("focuswindow");
        assert forall|i: int| 0 <= i < plan.len() implies plan[i] != spec_focus_args(
            config.class@,
        ) by {
            assert("focuswindow"@.len() == 11);
            assert(spec_focus_args(config.class@)[0] == "focuswindow"@);
            if i == 0 {
                assert(plan[i][0].len() == 17);
            } else if i == 1 {
                assert(plan[i][0].len() == 15);
            } else if i == 2 {
                assert(plan[i][0].len() == 3);
            } else {
                assert(plan[i][0].len() == 21);
            }
        }
    }
}

/// Decide the full ordered command sequence of one invocation.
///
/// With `create` the window is absent: the plan is the single spawn
/// command, and the freshly queried monitor and workspace state is not
/// consulted. Otherwise the window is present on `terminal_workspace`, and
/// the plan toggles it against the active workspace.
pub fn parse_commands(config: &Config, create: bool, terminal_workspace: Option<i32>, monitor: Option<&Monitor>, active: Option<&Workspace>) -> (plan: Vec<Vec<String>>)
    requires
        !create ==> terminal_workspace is Some,
        !create ==> monitor is Some,
        !create ==> active is Some,
        !create ==> geometry_fits(*config, *monitor->0),
    ensures
        create ==> plan.deep_view() == seq![spec_init_args(config.terminal@, config.class@)],
        !create ==> plan.deep_view() == spec_present_plan(
            *config,
            *monitor->0,
            *active->0,
            terminal_workspace->0 as int,
        ),
{
    if create {
        let mut plan: Vec<Vec<String>> = Vec::new();
        plan.push(dispatch_terminal_init(config.terminal.as_str(), config.class.as_str()));
        proof {
            assert(plan.deep_view() =~~= seq![spec_init_args(config.terminal@, config.class@)]);
        }
        plan
    } else {
        let m: &Monitor = monitor.unwrap();
        let active_ws: &Workspace = active.unwrap();
        let tws: i32 = terminal_workspace.unwrap();

        let terminal_size = calc_terminal_size_from_percentage(config.width, config.height, m);

        let mut plan: Vec<Vec<String>> = Vec::new();
        plan.push(dispatch_terminal_resize(config.class.as_str(), &terminal_size));
        plan.push(dispatch_terminal_positioning(config.class.as_str(), m, &config.position, config.gap, &terminal_size));
        plan.push(dispatch_terminal_pin(config.class.as_str()));
        let mut tail = dispatch_terminal_move(config.class.as_str(), tws, active_ws);
        proof {
            let mv = spec_move_args(config.class@, tws as int, *active_ws);
            let fc = spec_focus_args(config.class@);
            if active_ws.id != tws {
                assert(tail.deep_view().len() == 2);
                assert(tail@.len() == 2);
                assert(tail.deep_view()[0] == mv);
                assert(tail.deep_view()[1] == fc);
                assert(tail@[0].deep_view() == mv);
                assert(tail@[1].deep_view() == fc);
            } else {
                assert(tail.deep_view().len() == 1);
                assert(tail@.len() == 1);
                assert(tail.deep_view()[0] == mv);
                assert(tail@[0].deep_view() == mv);
            }
        }
        plan.append(&mut tail);
        proof {
            assert(plan.deep_view() =~~= spec_present_plan(
                *config,
                *m,
                *active_ws,
                tws as int,
            ));
        }
        plan
    }
}

} // verus!
