//! An intersection traffic-light controller: a state machine over two
//! perpendicular light pairs, driven by a one-second clock and an
//! asynchronous pedestrian button, together with the dispatch step that
//! turns each state change into actuator commands.

pub mod controller;
pub mod runtime;
