//! The traffic light controller: colors, events, and the clock/button
//! state machine that governs the two perpendicular light pairs.

use vstd::prelude::*;

verus! {

/// Seconds the East-West green phase lasts before it may end.
pub const EAST_WEST_GREEN: u64 = 30;

/// Seconds either yellow phase lasts.
pub const YELLOW: u64 = 5;

/// Seconds after which the North-South green phase ends even without a
/// pedestrian press.
pub const NORTH_SOUTH: u64 = 60;

/// The color a traffic light shows.
#[derive(Debug, Clone, Copy, PartialEq, Eq, Structural)]
pub enum Color {
    Red,
    Green,
    Yellow,
}

impl Color {
    /// The canonical wire text of this color: lowercase ASCII.
    pub open spec fn spec_text(self) -> Seq<char> {
        match self {
            Color::Red => "red"@,
            Color::Green => "green"@,
            Color::Yellow => "yellow"@,
        }
    }

    /// The color a received payload stands for, if any: exactly the three
    /// canonical texts are accepted.
    pub open spec fn spec_from_text(t: Seq<char>) -> Option<Color> {
        if t == "red"@ {
            Some(Color::Red)
        } else if t == "green"@ {
            Some(Color::Green)
        } else if t == "yellow"@ {
            Some(Color::Yellow)
        } else {
            None
        }
    }

    /// The payload sent to a light actuator for this color.
    pub fn to_text(&self) -> (r: String)
        ensures
            r@ == self.spec_text(),
    {
        match self {
            Color::Red => String::from_str("red"),
            Color::Green => String::from_str("green"),
            Color::Yellow => String::from_str("yellow"),
        }
    }

    /// Decode a received payload; anything but the three canonical texts
    /// is rejected.
    pub fn from_text(s: &str) -> (r: Option<Color>)
        ensures
            r == Self::spec_from_text(s@),
    {
        let t = s.to_owned();
        if t == String::from_str("red") {
            Some(Color::Red)
        } else if t == String::from_str("green") {
            Some(Color::Green)
        } else if t == String::from_str("yellow") {
            Some(Color::Yellow)
        } else {
            None
        }
    }
}

/// Decoding the text of a color gives that color back: the three
/// canonical texts are distinct.
pub proof fn lemma_text_round_trip(c: Color)
    ensures
        Color::spec_from_text(c.spec_text()) == Some(c),
{
    reveal_strlit("red");
    reveal_strlit("green");
    reveal_strlit("yellow");
    assert("red"@.len() == 3);
    assert("green"@.len() == 5);
    assert("yellow"@.len() == 6);
}

/// A controller event: a one-second clock tick or a pedestrian press.
#[derive(Debug, Clone, Copy, PartialEq, Eq, Structural)]
pub enum Event {
    Clock,
    Button,
}

/// The intersection controller: the two light colors, the seconds since
/// the last transition, and whether a pedestrian press is pending.
#[derive(Debug, Clone, Copy, PartialEq, Eq, Structural)]
pub struct Controller {
    pub ns_light: Color,
    pub ew_light: Color,
    pub clock: u64,
    pub button_is_pressed: bool,
}

impl Default for Controller {
    /// The start-of-day state: East-West green, clock zero, no pending press.
    fn default() -> (r: Self)
        ensures
            r.ns_light == Color::Red,
            r.ew_light == Color::Green,
            r.clock == 0,
            !r.button_is_pressed,
    {
        Controller {
            ew_light: Color::Green,
            ns_light: Color::Red,
            clock: 0,
            button_is_pressed: false,
        }
    }
}

impl Controller {
    /// The four light pairs the controller can ever show.
    pub open spec fn is_legal(self) -> bool {
        ||| (self.ns_light == Color::Red && self.ew_light == Color::Green)
        ||| (self.ns_light == Color::Red && self.ew_light == Color::Yellow)
        ||| (self.ns_light == Color::Green && self.ew_light == Color::Red)
        ||| (self.ns_light == Color::Yellow && self.ew_light == Color::Red)
    }

    /// Whether the next clock tick fires a transition out of `self`.
    pub open spec fn spec_clock_fires(self) -> bool {
        let t = self.clock + 1;
        if self.ns_light == Color::Red && self.ew_light == Color::Green {
            t >= EAST_WEST_GREEN
        } else if self.ns_light == Color::Red && self.ew_light == Color::Yellow {
            t == YELLOW
        } else if self.ns_light == Color::Green && self.ew_light == Color::Red {
            (t >= EAST_WEST_GREEN && self.button_is_pressed) || t == NORTH_SOUTH
        } else if self.ns_light == Color::Yellow && self.ew_light == Color::Red {
            t == YELLOW
        } else {
            false
        }
    }

    /// The state one clock tick later, per the transition table: the clock
    /// advances, and at most one transition fires and resets it.
    pub open spec fn spec_next_clock(self) -> Controller {
        if self.spec_clock_fires() {
            if self.ns_light == Color::Red && self.ew_light == Color::Green {
                Controller { ew_light: Color::Yellow, clock: 0, ..self }
            } else if self.ns_light == Color::Red && self.ew_light == Color::Yellow {
                Controller { ns_light: Color::Green, ew_light: Color::Red, clock: 0, ..self }
            } else if self.ns_light == Color::Green && self.ew_light == Color::Red {
                Controller { ns_light: Color::Yellow, clock: 0, button_is_pressed: false, ..self }
            } else {
                Controller { ns_light: Color::Red, ew_light: Color::Green, clock: 0, ..self }
            }
        } else {
            Controller { clock: (self.clock + 1) as u64, ..self }
        }
    }

    /// The state after a pedestrian press: an immediate end of the
    /// North-South green phase once the East-West-green threshold has
    /// passed in (Green, Red), otherwise a recorded pending press.
    pub open spec fn spec_press_button(self) -> Controller {
        if self.ns_light == Color::Green && self.ew_light == Color::Red
            && self.clock >= EAST_WEST_GREEN {
            Controller { ns_light: Color::Yellow, clock: 0, button_is_pressed: false, ..self }
        } else {
            Controller { button_is_pressed: true, ..self }
        }
    }

    /// The state after one event: a tick advances the clock, a press
    /// registers or fires the pedestrian request.
    pub open spec fn spec_event_handler(self, event: Event) -> Controller {
        match event {
            Event::Clock => self.spec_next_clock(),
            Event::Button => self.spec_press_button(),
        }
    }

    /// Create a controller with the given lights and clock and no
    /// pending press.
    pub fn new(ns_light: Color, ew_light: Color, clock: u64) -> (r: Self)
        ensures
            r.ns_light == ns_light,
            r.ew_light == ew_light,
            r.clock == clock,
            !r.button_is_pressed,
    {
        Controller { ns_light, ew_light, clock, button_is_pressed: false }
    }

    /// Register a pedestrian press, firing the North-South yellow at once
    /// when the East-West-green threshold has already passed in
    /// (Green, Red).
    pub fn press_button(&mut self)
        ensures
            *final(self) == old(self).spec_press_button(),
    {
        self.button_is_pressed = true;
        if self.ns_light == Color::Green && self.ew_light == Color::Red
            && self.clock >= EAST_WEST_GREEN {
            self.ns_light = Color::Yellow;
            self.button_is_pressed = false;
            self.reset_clock();
        }
    }

    /// Set the clock back to zero, leaving everything else as it is.
    pub fn reset_clock(&mut self)
        ensures
            *final(self) == (Controller { clock: 0, ..*old(self) }),
    {
        self.clock = 0;
    }

    /// Dispatch one event to the clock or the button handler.
    pub fn event_handler(&mut self, event: Event)
        requires
            old(self).clock < u64::MAX,
        ensures
            *final(self) == old(self).spec_event_handler(event),
    {
        match event {
            Event::Clock => self.next_clock(),
            Event::Button => self.press_button(),
        }
    }

    /// Advance the clock by one second and fire at most one transition,
    /// resetting the clock exactly when one fires.
    pub fn next_clock(&mut self)
        requires
            old(self).clock < u64::MAX,
        ensures
            *final(self) == old(self).spec_next_clock(),
    {
        self.clock = self.clock + 1;
        let mut must_reset_clock = true;

        if self.ns_light == Color::Red && self.ew_light == Color::Green
            && self.clock >= EAST_WEST_GREEN {
            self.ew_light = Color::Yellow;
        } else if self.ns_light == Color::Red && self.ew_light == Color::Yellow
            && self.clock == YELLOW {
            self.ns_light = Color::Green;
            self.ew_light = Color::Red;
        } else if self.ns_light == Color::Green && self.ew_light == Color::Red
            && ((self.clock >= EAST_WEST_GREEN && self.button_is_pressed)
                || self.clock == NORTH_SOUTH) {
            self.ns_light = Color::Yellow;
            self.ew_light = Color::Red;
            self.button_is_pressed = false;
        } else if self.ns_light == Color::Yellow && self.ew_light == Color::Red
            && self.clock == YELLOW {
            self.ns_light = Color::Red;
            self.ew_light = Color::Green;
        } else {
            must_reset_clock = false;
        }

        if must_reset_clock {
            self.reset_clock();
        }
    }
}

/// Every event keeps the lights in one of the four legal pairs: an event
/// delivered in a legal state yields a legal state.
pub proof fn lemma_event_preserves_legal(c: Controller, event: Event)
    requires
        c.is_legal(),
    ensures
        c.spec_event_handler(event).is_legal(),
{
}

/// A clock tick below every firing threshold only advances the clock:
/// the colors and the pending flag are untouched.
pub proof fn lemma_non_firing_clock(c: Controller)
    requires
        c.clock < u64::MAX,
        !c.spec_clock_fires(),
    ensures
        c.spec_next_clock().ns_light == c.ns_light,
        c.spec_next_clock().ew_light == c.ew_light,
        c.spec_next_clock().button_is_pressed == c.button_is_pressed,
        c.spec_next_clock().clock == c.clock + 1,
{
}

/// A press in (Green, Red) before the East-West-green threshold is only
/// recorded: the colors and the clock stay, the pending flag is set.
pub proof fn lemma_press_before_threshold(c: Controller)
    requires
        c.ns_light == Color::Green,
        c.ew_light == Color::Red,
        c.clock < EAST_WEST_GREEN,
    ensures
        c.spec_press_button() == (Controller { button_is_pressed: true, ..c }),
{
}

/// A press in (Green, Red) at or past the East-West-green threshold ends
/// the North-South green phase at once and resets the clock.
pub proof fn lemma_press_at_threshold(c: Controller)
    requires
        c.ns_light == Color::Green,
        c.ew_light == Color::Red,
        c.clock >= EAST_WEST_GREEN,
    ensures
        c.spec_press_button() == (Controller {
            ns_light: Color::Yellow,
            clock: 0,
            button_is_pressed: false,
            ..c
        }),
{
}

/// Away from the Green-Red threshold crossing, a clock tick and a button
/// press commute: delivered in either order they reach the same state.
/// At the crossing the press either fires at once or is deferred one
/// tick, so the orders may differ there.
pub proof fn lemma_press_clock_commute(c: Controller)
    requires
        !(c.ns_light == Color::Green && c.ew_light == Color::Red
            && (c.clock >= EAST_WEST_GREEN
                || (c.clock + 1 >= EAST_WEST_GREEN && c.button_is_pressed))),
    ensures
        c.spec_press_button().spec_next_clock() == c.spec_next_clock().spec_press_button(),
{
}

} // verus!
