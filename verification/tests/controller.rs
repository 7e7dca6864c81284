use traffic::controller::{Color, Controller, Event};

#[test]
fn test_default() {
    let ctl = Controller::default();
    assert_eq!(ctl.ns_light, Color::Red);
    assert_eq!(ctl.ew_light, Color::Green);
    assert_eq!(ctl.clock, 0);
    assert!(!ctl.button_is_pressed);
}

#[test]
fn test_red_green_to_red_yellow() {
    let mut control = Controller::new(Color::Red, Color::Green, 29);
    control.next_clock();
    assert_eq!(control.ns_light, Color::Red);
    assert_eq!(control.ew_light, Color::Yellow);
    assert_eq!(control.clock, 0);
}

#[test]
fn test_red_yellow_to_green_red() {
    let mut control = Controller::new(Color::Red, Color::Yellow, 4);
    control.next_clock();
    assert_eq!(control.ns_light, Color::Green);
    assert_eq!(control.ew_light, Color::Red);
    assert_eq!(control.clock, 0);
}

#[test]
fn test_green_red_to_yellow_red_with_button() {
    let mut control = Controller::new(Color::Green, Color::Red, 28);
    control.next_clock();
    assert_eq!(control.ns_light, Color::Green);
    assert_eq!(control.ew_light, Color::Red);
    control.press_button();
    assert!(control.button_is_pressed);
    control.next_clock();
    assert_eq!(control.ns_light, Color::Yellow);
    assert_eq!(control.ew_light, Color::Red);
    assert_eq!(control.clock, 0);
}

#[test]
fn test_green_red_to_red_yellow() {
    let mut control = Controller::new(Color::Green, Color::Red, 59);
    control.next_clock();
    assert_eq!(control.ns_light, Color::Yellow);
    assert_eq!(control.ew_light, Color::Red);
    assert_eq!(control.clock, 0);
}

#[test]
fn test_yellow_red_to_red_green() {
    let mut control = Controller::new(Color::Yellow, Color::Red, 4);
    control.next_clock();
    assert_eq!(control.ns_light, Color::Red);
    assert_eq!(control.ew_light, Color::Green);
}

#[test]
fn test_non_firing_tick_only_increments() {
    let mut control = Controller::new(Color::Red, Color::Green, 0);
    for i in 1..=29u64 {
        control.next_clock();
        assert_eq!(control.ns_light, Color::Red);
        assert_eq!(control.ew_light, Color::Green);
        assert_eq!(control.clock, i);
        assert!(!control.button_is_pressed);
    }
}

#[test]
fn test_press_before_threshold_defers() {
    let mut control = Controller::new(Color::Green, Color::Red, 10);
    control.press_button();
    assert_eq!(control.ns_light, Color::Green);
    assert_eq!(control.ew_light, Color::Red);
    assert_eq!(control.clock, 10);
    assert!(control.button_is_pressed);
}

#[test]
fn test_press_at_threshold_fires() {
    let mut control = Controller::new(Color::Green, Color::Red, 30);
    control.press_button();
    assert_eq!(control.ns_light, Color::Yellow);
    assert_eq!(control.ew_light, Color::Red);
    assert_eq!(control.clock, 0);
    assert!(!control.button_is_pressed);
}

#[test]
fn test_press_twice_then_threshold() {
    let mut control = Controller::new(Color::Green, Color::Red, 28);
    control.next_clock();
    assert_eq!(control.clock, 29);
    control.next_clock();
    assert_eq!(control.clock, 30);
    control.press_button();
    assert_eq!(control.ns_light, Color::Yellow);
    assert_eq!(control.ew_light, Color::Red);
    assert_eq!(control.clock, 0);
    assert!(!control.button_is_pressed);
}

fn assert_state(control: &Controller, ns: Color, ew: Color, clock: u64) {
    assert_eq!(control.ns_light, ns);
    assert_eq!(control.ew_light, ew);
    assert_eq!(control.clock, clock);
}

#[test]
fn test_full_cycle_repeats() {
    let mut control = Controller::default();
    for _cycle in 0..2 {
        for _ in 0..29 {
            control.next_clock();
        }
        assert_state(&control, Color::Red, Color::Green, 29);
        control.next_clock();
        assert_state(&control, Color::Red, Color::Yellow, 0);
        for _ in 0..5 {
            control.next_clock();
        }
        assert_state(&control, Color::Green, Color::Red, 0);
        for _ in 0..59 {
            control.next_clock();
        }
        assert_state(&control, Color::Green, Color::Red, 59);
        control.next_clock();
        assert_state(&control, Color::Yellow, Color::Red, 0);
        for _ in 0..5 {
            control.next_clock();
        }
        assert_state(&control, Color::Red, Color::Green, 0);
        assert!(!control.button_is_pressed);
    }
}

#[test]
fn test_interleavings_agree_away_from_threshold() {
    let mut one = Controller::new(Color::Green, Color::Red, 10);
    one.press_button();
    one.next_clock();

    let mut other = Controller::new(Color::Green, Color::Red, 10);
    other.next_clock();
    other.press_button();

    assert_eq!(one, other);
    assert_state(&one, Color::Green, Color::Red, 11);
    assert!(one.button_is_pressed);
}

#[test]
fn test_states_stay_legal() {
    let legal = |c: &Controller| {
        matches!(
            (c.ns_light, c.ew_light),
            (Color::Red, Color::Green)
                | (Color::Red, Color::Yellow)
                | (Color::Green, Color::Red)
                | (Color::Yellow, Color::Red)
        )
    };
    let mut control = Controller::default();
    assert!(legal(&control));
    for step in 0..300u64 {
        let event = if step % 7 == 3 { Event::Button } else { Event::Clock };
        control.event_handler(event);
        assert!(legal(&control));
    }
}

#[test]
fn test_color_text_round_trip() {
    for color in [Color::Red, Color::Green, Color::Yellow] {
        assert_eq!(Color::from_text(&color.to_text()), Some(color));
    }
    assert_eq!(Color::Red.to_text(), "red");
    assert_eq!(Color::Green.to_text(), "green");
    assert_eq!(Color::Yellow.to_text(), "yellow");
}

#[test]
fn test_from_text_rejects_other_payloads() {
    assert_eq!(Color::from_text("blue"), None);
    assert_eq!(Color::from_text("Red"), None);
    assert_eq!(Color::from_text(""), None);
    assert_eq!(Color::from_text("greenish"), None);
    assert_eq!(Color::from_text("green"), Some(Color::Green));
}
