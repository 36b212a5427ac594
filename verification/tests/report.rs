use loopback_selftest::engine::TestOutcome;
use loopback_selftest::indicator::{IndicatorState, Led};
use loopback_selftest::report::{led_for, plan, Position, ReportStep, HOLD_MS};

#[test]
fn hold_is_half_a_second() {
    assert_eq!(HOLD_MS, 500);
}

#[test]
fn failure_lights_red_and_success_green() {
    assert_eq!(led_for(TestOutcome::NoResponse), Led::Red);
    assert_eq!(led_for(TestOutcome::Success), Led::Green);
}

#[test]
fn success_report_steps_in_order() {
    assert_eq!(
        plan(TestOutcome::Success),
        vec![
            ReportStep::EraseText,
            ReportStep::Light(Led::Green),
            ReportStep::DrawText(Position { x: 10, y: 35 }),
            ReportStep::Hold(500),
            ReportStep::EraseText,
        ]
    );
}

#[test]
fn failure_report_steps_in_order() {
    assert_eq!(
        plan(TestOutcome::NoResponse),
        vec![
            ReportStep::EraseText,
            ReportStep::Light(Led::Red),
            ReportStep::DrawText(Position { x: 1, y: 35 }),
            ReportStep::Hold(500),
        ]
    );
}

#[test]
fn light_and_text_come_before_the_hold() {
    for outcome in [TestOutcome::Success, TestOutcome::NoResponse] {
        let steps = plan(outcome);
        let light = steps.iter().position(|s| matches!(s, ReportStep::Light(_))).unwrap();
        let text = steps.iter().position(|s| matches!(s, ReportStep::DrawText(_))).unwrap();
        let hold = steps.iter().position(|s| matches!(s, ReportStep::Hold(_))).unwrap();
        assert!(light <= text);
        assert!(text < hold);
        assert_eq!(steps[0], ReportStep::EraseText);
    }
}

#[test]
fn lights_start_dark() {
    let lights = IndicatorState::all_off();
    assert_eq!(lights, IndicatorState { red: false, green: false, blue: false });
    for led in [Led::Red, Led::Green, Led::Blue] {
        assert!(!lights.is_lit(led));
    }
}

#[test]
fn each_light_switches_alone() {
    for led in [Led::Red, Led::Green, Led::Blue] {
        let mut lights = IndicatorState::all_off();
        lights.turn_on(led);
        for other in [Led::Red, Led::Green, Led::Blue] {
            assert_eq!(lights.is_lit(other), other == led);
        }
        lights.turn_off(led);
        assert_eq!(lights, IndicatorState::all_off());
    }
}

#[test]
fn switching_twice_is_the_same_as_once() {
    let mut lights = IndicatorState::all_off();
    lights.turn_on(Led::Green);
    lights.turn_on(Led::Green);
    assert_eq!(lights, IndicatorState { red: false, green: true, blue: false });
    lights.turn_off(Led::Red);
    assert_eq!(lights, IndicatorState { red: false, green: true, blue: false });
    lights.turn_on(Led::Blue);
    lights.turn_off(Led::Green);
    lights.turn_off(Led::Green);
    assert_eq!(lights, IndicatorState { red: false, green: false, blue: true });
}
