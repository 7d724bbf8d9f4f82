use demo_things::clock::Timestamp;
use demo_things::sink::{
    handle_event, handle_leak_event, put_flow_property, put_temperature_property, Action,
    Arithmetic, Event, LoopEvent, Message, Properties, Reply, Sink,
};

fn fill(level: f32, drain: Option<f32>, flow: u8, fill_rate: f32) -> f32 {
    let drain = drain.map(|rate| -rate).unwrap_or(0.);
    let fill = f32::from(flow) / 100. * fill_rate;
    level + drain + fill
}

fn exceeds(level: f32, bound: u8) -> bool {
    level > f32::from(bound)
}

fn clip(level: f32, low: u8, high: u8) -> f32 {
    if level > f32::from(high) {
        f32::from(high)
    } else {
        level.max(f32::from(low))
    }
}

fn read(level: f32) -> u8 {
    level as u8
}

fn run(sink: &mut Sink<f32>, event: LoopEvent) -> Action {
    let arithmetic = Arithmetic {
        fill,
        exceeds,
        clip,
        read,
    };
    handle_event(sink, event, &arithmetic)
}

#[test]
fn sink_starts_empty() {
    let mut sink = Sink::new(0., 1., 0.75);
    assert!(sink.is_draining);
    assert_eq!((sink.flow, sink.temperature), (0, 37));
    assert_eq!(run(&mut sink, LoopEvent::Tick), Action::Announce(None));
    assert_eq!(sink.level, 0.);
}

#[test]
fn sink_fills_and_drains() {
    let mut sink = Sink::new(0., 1., 0.75);
    run(&mut sink, LoopEvent::Message(Message::SetFlow(50)));
    run(&mut sink, LoopEvent::Message(Message::SetDrain(false)));
    run(&mut sink, LoopEvent::Tick);
    assert_eq!(sink.level, 0.5);
    run(&mut sink, LoopEvent::Message(Message::SetFlow(100)));
    run(&mut sink, LoopEvent::Message(Message::SetDrain(true)));
    run(&mut sink, LoopEvent::Tick);
    assert_eq!(sink.level, 0.75);
    run(&mut sink, LoopEvent::Message(Message::SetFlow(0)));
    run(&mut sink, LoopEvent::Tick);
    run(&mut sink, LoopEvent::Tick);
    assert_eq!(sink.level, 0.);
}

#[test]
fn full_sink_leaks() {
    let mut sink = Sink::new(99.5, 1., 0.75);
    sink.is_draining = false;
    sink.flow = 50;
    assert_eq!(run(&mut sink, LoopEvent::Tick), Action::Announce(None));
    assert_eq!(sink.level, 100.);
    assert!(matches!(
        run(&mut sink, LoopEvent::Tick),
        Action::Announce(Some(Event::Leak { .. }))
    ));
    assert_eq!(sink.level, 100.);
}

#[test]
fn leak_is_announced_at_its_time() {
    let arithmetic = Arithmetic {
        fill,
        exceeds,
        clip,
        read,
    };
    let now = Timestamp { unix_nanos: 42 };
    let mut sink = Sink::new(100., 1., 0.75);
    assert_eq!(sink.handle_tick_at(&arithmetic, now), None);
    sink.is_draining = false;
    sink.flow = 1;
    sink.level = 100.;
    assert_eq!(
        sink.handle_tick_at(&arithmetic, now),
        Some(Event::Leak { timestamp: now })
    );
}

#[test]
fn sink_properties_are_read_back() {
    let mut sink = Sink::new(33.9, 1., 0.75);
    for message in [
        Message::SetDrain(false),
        Message::SetFlow(12),
        Message::SetTemperature(45),
    ] {
        assert_eq!(run(&mut sink, LoopEvent::Message(message)), Action::Reply(None));
    }
    assert_eq!(sink.handle_message(Message::GetDrain, &read), Some(Reply::Flag(false)));
    assert_eq!(sink.handle_message(Message::GetFlow, &read), Some(Reply::Number(12)));
    assert_eq!(
        sink.handle_message(Message::GetTemperature, &read),
        Some(Reply::Number(45))
    );
    assert_eq!(sink.handle_message(Message::GetLevel, &read), Some(Reply::Number(33)));
    assert_eq!(
        sink.handle_message(Message::GetProperties, &read),
        Some(Reply::Properties(Properties {
            flow: 12,
            temperature: 45,
            drain: false,
            level: 33
        }))
    );
    assert_eq!(run(&mut sink, LoopEvent::Stop), Action::Stop);
}

#[test]
fn flow_is_checked() {
    assert_eq!(put_flow_property(0), (204, Some(Message::SetFlow(0))));
    assert_eq!(put_flow_property(100), (204, Some(Message::SetFlow(100))));
    assert_eq!(put_flow_property(101), (400, None));
}

#[test]
fn water_temperature_is_checked() {
    assert_eq!(put_temperature_property(9), (400, None));
    assert_eq!(
        put_temperature_property(10),
        (204, Some(Message::SetTemperature(10)))
    );
    assert_eq!(
        put_temperature_property(80),
        (204, Some(Message::SetTemperature(80)))
    );
    assert_eq!(put_temperature_property(81), (400, None));
}

#[test]
fn leaks_reach_their_subscribers() {
    let notice = handle_leak_event(Event::Leak {
        timestamp: Timestamp {
            unix_nanos: 1_000_000_000,
        },
    });
    assert_eq!(notice.event, "leak");
    assert_eq!(notice.id.as_deref(), Some("1970-01-01T00:00:01Z"));
}
