use intro_embedded::blink::{
    sensor_delay_ms, LedAction, LedController, LedEvent, LedLevel, LedProgram, LedStep,
};
use intro_embedded::decimal::decimal_string;

#[test]
fn decimal_matches_display_formatting() {
    for n in [0u16, 1, 9, 10, 42, 99, 100, 950, 1023, 4095, 10000, 65535] {
        assert_eq!(decimal_string(n), format!("{}", n));
    }
}

#[test]
fn decimal_of_every_u16_matches_display_formatting() {
    for n in 0..=u16::MAX {
        assert_eq!(decimal_string(n), n.to_string());
    }
}

#[test]
fn sensor_delay_formula() {
    assert_eq!(sensor_delay_ms(0), 2000);
    assert_eq!(sensor_delay_ms(1), 1998);
    assert_eq!(sensor_delay_ms(100), 1800);
    assert_eq!(sensor_delay_ms(949), 102);
    assert_eq!(sensor_delay_ms(950), 100);
    assert_eq!(sensor_delay_ms(1023), 100);
    assert_eq!(sensor_delay_ms(32767), 100);
}

#[test]
fn sensor_delay_within_bounds_and_monotonic() {
    let mut previous = sensor_delay_ms(0);
    for light in 0..=32767u16 {
        let d = sensor_delay_ms(light);
        assert!(d >= 100 && d <= 2000);
        assert!(d <= previous);
        previous = d;
    }
}

#[test]
fn blink_program_cycle() {
    let mut c = LedController::start(LedProgram::Blink);
    let start = c;
    let expected = [
        LedAction::SetLed(LedLevel::High),
        LedAction::DelayMs(500),
        LedAction::SetLed(LedLevel::Low),
        LedAction::DelayMs(500),
    ];
    for round in 0..3 {
        for a in expected.iter() {
            assert_eq!(c.action(), *a, "round {}", round);
            c.on_event(LedEvent::Done);
        }
        assert_eq!(c, start);
    }
}

#[test]
fn sensor_blink_cycle() {
    let mut c = LedController::start(LedProgram::SensorBlink);
    assert_eq!(c.action(), LedAction::MeasureLight);
    c.on_event(LedEvent::Done);
    assert_eq!(c.action(), LedAction::MeasureLight);
    c.on_event(LedEvent::LightMeasured(300));
    assert_eq!(c.action(), LedAction::SetLed(LedLevel::High));
    c.on_event(LedEvent::Done);
    assert_eq!(c.action(), LedAction::DelayMs(1400));
    c.on_event(LedEvent::Done);
    assert_eq!(c.action(), LedAction::SetLed(LedLevel::Low));
    c.on_event(LedEvent::Done);
    assert_eq!(c.action(), LedAction::DelayMs(1400));
    c.on_event(LedEvent::Done);
    assert_eq!(c.step, LedStep::Measure);
    c.on_event(LedEvent::LightMeasured(2000));
    c.on_event(LedEvent::Done);
    assert_eq!(c.action(), LedAction::DelayMs(100));
}

#[test]
fn idle_program_only_waits() {
    let mut c = LedController::start(LedProgram::Idle);
    for _ in 0..5 {
        assert_eq!(c.action(), LedAction::DelayMs(1000));
        c.on_event(LedEvent::Done);
    }
    c.on_event(LedEvent::LightMeasured(7));
    assert_eq!(c, LedController::start(LedProgram::Idle));
}
