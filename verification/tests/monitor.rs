use intro_embedded::monitor::{
    blank_screen, greeting_screen, light_screen, reading_screen, Monitor, MonitorAction,
    MonitorEvent, MonitorProgram, MonitorStep,
};

fn describe(a: &MonitorAction) -> String {
    match a {
        MonitorAction::Show(s) => format!("show {:?} at {},{}", s.text, s.x, s.y),
        MonitorAction::SleepMs(ms) => format!("sleep {}", ms),
        MonitorAction::ReadLight => "read".to_string(),
        MonitorAction::Publish(v) => format!("publish {}", v),
        MonitorAction::Stop => "stop".to_string(),
        MonitorAction::Abort => "abort".to_string(),
    }
}

#[test]
fn screens() {
    let g = greeting_screen();
    assert_eq!((g.text.as_str(), g.x, g.y), ("Hello, world", 5, 40));
    let b = blank_screen();
    assert_eq!((b.text.as_str(), b.x, b.y), ("", 5, 40));
    let l = light_screen(1234);
    assert_eq!((l.text.as_str(), l.x, l.y), ("Light: 1234", 5, 40));
    assert_eq!(light_screen(0).text, format!("Light: {}", 0));
    let r = reading_screen(65535);
    assert_eq!((r.text.as_str(), r.x, r.y), ("65535", 10, 40));
}

#[test]
fn display_light_program() {
    let mut m = Monitor::start(MonitorProgram::DisplayLight);
    let mut seen = Vec::new();
    let readings = [17u16, 4095];
    let mut next_reading = 0;
    for _ in 0..10 {
        let a = m.action();
        seen.push(describe(&a));
        let event = match a {
            MonitorAction::ReadLight => {
                let v = readings[next_reading];
                next_reading += 1;
                MonitorEvent::LightRead(v)
            }
            _ => MonitorEvent::Done,
        };
        m.on_event(event);
    }
    assert_eq!(
        seen,
        vec![
            "show \"Hello, world\" at 5,40",
            "sleep 5000",
            "read",
            "publish 17",
            "show \"Light: 17\" at 5,40",
            "sleep 500",
            "read",
            "publish 4095",
            "show \"Light: 4095\" at 5,40",
            "sleep 500",
        ]
    );
    assert_eq!(m.step, MonitorStep::Read);
}

#[test]
fn display_reading_program() {
    let mut m = Monitor::start(MonitorProgram::DisplayReading);
    assert_eq!(describe(&m.action()), "read");
    m.on_event(MonitorEvent::LightRead(812));
    assert_eq!(describe(&m.action()), "publish 812");
    m.on_event(MonitorEvent::Done);
    assert_eq!(describe(&m.action()), "show \"812\" at 10,40");
    m.on_event(MonitorEvent::Done);
    assert_eq!(describe(&m.action()), "sleep 300");
    m.on_event(MonitorEvent::Done);
    assert_eq!(m, Monitor::start(MonitorProgram::DisplayReading));
}

#[test]
fn publish_only_program() {
    let mut m = Monitor::start(MonitorProgram::PublishOnly);
    assert_eq!(describe(&m.action()), "read");
    m.on_event(MonitorEvent::Done);
    assert_eq!(describe(&m.action()), "read");
    m.on_event(MonitorEvent::LightRead(3));
    assert_eq!(describe(&m.action()), "publish 3");
    m.on_event(MonitorEvent::Done);
    assert_eq!(describe(&m.action()), "sleep 500");
    m.on_event(MonitorEvent::Done);
    assert_eq!(describe(&m.action()), "read");
}

#[test]
fn one_shot_programs() {
    let mut m = Monitor::start(MonitorProgram::Greeting);
    assert_eq!(describe(&m.action()), "show \"Hello, world\" at 5,40");
    m.on_event(MonitorEvent::Done);
    assert_eq!(describe(&m.action()), "stop");
    m.on_event(MonitorEvent::LightRead(1));
    assert_eq!(describe(&m.action()), "stop");

    let mut m = Monitor::start(MonitorProgram::Clear);
    assert_eq!(describe(&m.action()), "show \"\" at 5,40");
    m.on_event(MonitorEvent::Done);
    assert_eq!(describe(&m.action()), "stop");
}

#[test]
fn failures_end_the_firmware() {
    let mut m = Monitor::start(MonitorProgram::PublishOnly);
    m.on_event(MonitorEvent::Failed);
    assert_eq!(m.step, MonitorStep::Aborted);
    assert_eq!(describe(&m.action()), "abort");
    m.on_event(MonitorEvent::LightRead(4));
    assert_eq!(describe(&m.action()), "abort");

    let mut m = Monitor::start(MonitorProgram::DisplayLight);
    m.on_event(MonitorEvent::Failed);
    assert_eq!(describe(&m.action()), "abort");

    let mut m = Monitor::start(MonitorProgram::Greeting);
    m.on_event(MonitorEvent::Done);
    m.on_event(MonitorEvent::Failed);
    assert_eq!(describe(&m.action()), "stop");
}
