//! The dispatch side of the runtime: the light directions, the runtime
//! interface, and the step that turns one event into actuator commands.

use vstd::prelude::*;

use crate::controller::{Color, Controller, Event};

verus! {

/// The two perpendicular light groups at the intersection.
#[derive(Debug, Clone, Copy, PartialEq, Eq, Structural)]
pub enum Direction {
    NorthSouth,
    EastWest,
}

/// What a runtime must offer: deliver a color command to one direction's
/// actuator, and run the event loop that feeds the controller.
pub trait Runtime {
    /// Send `command` to the light bound to `direction`.
    fn set_color(&mut self, direction: Direction, command: &str);

    /// Run the event loop until the process is terminated.
    fn start(&mut self);
}

/// The commands owed after one event took the controller from `pre` to
/// `post`: one per direction whose color changed, carrying the new
/// color, North-South first.
pub open spec fn spec_commands(pre: Controller, post: Controller) -> Seq<(Direction, Color)> {
    let ns = if pre.ns_light != post.ns_light {
        seq![(Direction::NorthSouth, post.ns_light)]
    } else {
        Seq::empty()
    };
    let ew = if pre.ew_light != post.ew_light {
        seq![(Direction::EastWest, post.ew_light)]
    } else {
        Seq::empty()
    };
    ns + ew
}

/// Advance the controller by one event and report the color commands the
/// actuators are owed: exactly the directions whose color changed.
pub fn dispatch_step(controller: &mut Controller, event: Event) -> (commands: Vec<(
    Direction,
    Color,
)>)
    requires
        old(controller).clock < u64::MAX,
    ensures
        *final(controller) == old(controller).spec_event_handler(event),
        commands@ == spec_commands(*old(controller), *final(controller)),
{
    let ns_before = controller.ns_light;
    let ew_before = controller.ew_light;
    controller.event_handler(event);

    let mut commands: Vec<(Direction, Color)> = Vec::new();
    if ns_before != controller.ns_light {
        commands.push((Direction::NorthSouth, controller.ns_light));
    }
    if ew_before != controller.ew_light {
        commands.push((Direction::EastWest, controller.ew_light));
    }
    proof {
        assert(commands@ =~= spec_commands(*old(controller), *controller));
    }
    commands
}

} // verus!
