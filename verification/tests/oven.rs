use demo_things::clock::Span;
use demo_things::oven::{
    example_simulation, handle_event, Action, Arithmetic, Deltas, Event, Message, Oven, OvenConfig,
    OvenSimulation, OvenSimulationOutput, OvenStatus, Properties, Reply,
};
use demo_things::simulation::Simulation;
use demo_things::target_range::{target_range, TargetRange};

fn below(temperature: f32, target: u8, width: f32) -> bool {
    temperature < f32::from(target) - width
}

fn within(temperature: f32, target: u8, width: f32) -> bool {
    temperature <= f32::from(target) + width
}

fn change(temperature: f32, loss: f32, gain: Option<f32>, low: u8, high: u8) -> f32 {
    let mut delta = -loss;
    if let Some(gain) = gain {
        delta += gain;
    }
    f32::clamp(temperature + delta, f32::from(low), f32::from(high))
}

fn read(temperature: f32) -> u8 {
    temperature as u8
}

fn config(temperature: f32, on: bool) -> OvenConfig<f32> {
    OvenConfig {
        initial: OvenStatus {
            open: false,
            on,
            temperature,
            target_temperature: 100,
        },
        simulation: example_simulation(),
        deltas: Deltas {
            increase: 1.5,
            door_open: 1.,
            door_close: 0.5,
            target_range: 5.,
        },
    }
}

fn run(oven: &mut Oven<f32>, event: Event<f32>) -> Action {
    let arithmetic = Arithmetic {
        below,
        within,
        change,
        read,
    };
    handle_event(oven, event, &arithmetic)
}

#[test]
fn oven_places_temperatures() {
    assert_eq!(target_range(&below, &within, 94.9, 100, 5.), TargetRange::Below);
    assert_eq!(target_range(&below, &within, 95., 100, 5.), TargetRange::InRange);
    assert_eq!(target_range(&below, &within, 105., 100, 5.), TargetRange::InRange);
    assert_eq!(target_range(&below, &within, 105.1, 100, 5.), TargetRange::Above);
}

#[test]
fn oven_heats_until_it_is_over_its_range() {
    let (mut oven, simulation) = Oven::new(config(90., true));
    assert!(!oven.heating);
    assert_eq!(simulation.len(), 4);
    let mut heated = 0;
    while oven.status.temperature <= 105. {
        assert!(matches!(run(&mut oven, Event::Tick), Action::Continue));
        assert!(oven.heating);
        heated += 1;
    }
    // One degree per tick.
    assert_eq!(heated, 16);
    assert_eq!(oven.status.temperature, 106.);
    while oven.status.temperature >= 95. {
        run(&mut oven, Event::Tick);
        assert!(!oven.heating);
    }
    assert_eq!(oven.status.temperature, 94.5);
    run(&mut oven, Event::Tick);
    assert!(oven.heating);
}

#[test]
fn oven_that_is_off_cools_down_to_the_room() {
    let (mut oven, _) = Oven::new(config(26., false));
    oven.heating = true;
    run(&mut oven, Event::Tick);
    assert!(!oven.heating);
    assert_eq!(oven.status.temperature, 25.5);
    for _ in 0..5 {
        run(&mut oven, Event::Tick);
    }
    assert_eq!(oven.status.temperature, 25.);
}

#[test]
fn open_oven_loses_more() {
    let (mut oven, _) = Oven::new(config(200., false));
    oven.status.open = true;
    run(&mut oven, Event::Tick);
    assert_eq!(oven.status.temperature, 199.);
}

#[test]
fn oven_regulates_by_range() {
    let (mut oven, _) = Oven::new(config(90., true));
    assert_eq!(oven.regulate(TargetRange::InRange), (0.5, None));
    assert_eq!(oven.regulate(TargetRange::Below), (0.5, Some(1.5)));
    assert_eq!(oven.regulate(TargetRange::InRange), (0.5, Some(1.5)));
    assert_eq!(oven.regulate(TargetRange::Above), (0.5, None));
    oven.status.open = true;
    assert_eq!(oven.regulate(TargetRange::Above), (1., None));
}

#[test]
fn oven_properties_are_read_back() {
    let (mut oven, _) = Oven::new(config(90.9, false));
    assert_eq!(oven.handle_message(Message::SetTargetTemperature(180), &read), None);
    assert_eq!(oven.handle_message(Message::SetIsOn(true), &read), None);
    assert_eq!(
        oven.handle_message(Message::GetTargetTemperature, &read),
        Some(Reply::Degrees(180))
    );
    assert_eq!(oven.handle_message(Message::GetIsOn, &read), Some(Reply::Flag(true)));
    assert_eq!(oven.handle_message(Message::GetOpen, &read), Some(Reply::Flag(false)));
    assert_eq!(
        oven.handle_message(Message::GetTemperature, &read),
        Some(Reply::Degrees(90))
    );
    assert_eq!(
        oven.handle_message(Message::GetProperties, &read),
        Some(Reply::Properties(Properties {
            open: false,
            temperature: 90,
            target_temperature: 180
        }))
    );
}

#[test]
fn oven_door_follows_the_script() {
    let (mut oven, _) = Oven::new(config(90., true));
    run(&mut oven, Event::NextStatus(OvenSimulationOutput { open: Some(true) }));
    assert!(oven.status.open);
    run(&mut oven, Event::NextStatus(OvenSimulationOutput { open: None }));
    assert!(oven.status.open);
    run(&mut oven, Event::NextStatus(OvenSimulationOutput { open: Some(false) }));
    assert!(!oven.status.open);
}

#[test]
fn oven_configuration_keeps_the_heating() {
    let (mut oven, _) = Oven::new(config(90., true));
    run(&mut oven, Event::Tick);
    assert!(oven.heating);
    match run(&mut oven, Event::Config(config(33., false))) {
        Action::Restart(simulation) => assert_eq!(simulation.len(), 4),
        other => panic!("{other:?}"),
    }
    assert!(oven.heating);
    assert_eq!(oven.status.temperature, 33.);
    assert!(matches!(
        run(&mut oven, Event::Message(Message::GetIsOn)),
        Action::Reply(Some(Reply::Flag(false)))
    ));
    assert!(matches!(run(&mut oven, Event::Stop), Action::Stop));
}

#[test]
fn oven_example_script() {
    let steps: Vec<_> = example_simulation()
        .into_iter()
        .map(OvenSimulation::output_and_wait)
        .map(|(output, wait)| (output.open, wait))
        .collect();
    assert_eq!(
        steps,
        vec![
            (Some(true), Span::from_secs(3)),
            (Some(false), Span::from_secs(8)),
            (Some(true), Span::from_secs(15)),
            (Some(false), Span::from_secs(3)),
        ]
    );
}
