use demo_things::clock::Span;
use demo_things::fridge::{
    example_simulation, handle_event, Action, Arithmetic, Deltas, Event, Fridge, FridgeConfig,
    FridgeSimulation, FridgeSimulationOutput, FridgeStatus, Message, Properties, Reply,
};
use demo_things::simulation::Simulation;
use demo_things::target_range::TargetRange;

fn below(temperature: f32, target: i8, width: f32) -> bool {
    temperature < f32::from(target) - width
}

fn within(temperature: f32, target: i8, width: f32) -> bool {
    temperature <= f32::from(target) + width
}

fn change(temperature: f32, gain: f32, loss: Option<f32>) -> f32 {
    let mut delta = gain;
    if let Some(loss) = loss {
        delta -= loss;
    }
    temperature + delta
}

fn read(temperature: f32) -> i8 {
    temperature as i8
}

fn config(temperature: f32) -> FridgeConfig<f32> {
    FridgeConfig {
        initial: FridgeStatus {
            open: false,
            temperature,
            target_temperature: 4,
        },
        simulation: example_simulation(),
        deltas: Deltas {
            decrease: 1.5,
            door_open: 1.,
            door_close: 0.5,
            target_range: 3.5,
        },
    }
}

fn run(fridge: &mut Fridge<f32>, event: Event<f32>) -> Action {
    let arithmetic = Arithmetic {
        below,
        within,
        change,
        read,
    };
    handle_event(fridge, event, &arithmetic)
}

#[test]
fn fridge_cools_until_it_is_under_its_range() {
    let (mut fridge, simulation) = Fridge::new(config(8.));
    assert!(!fridge.cooling);
    assert_eq!(simulation.len(), 4);
    let temperatures: Vec<f32> = (0..9)
        .map(|_| {
            run(&mut fridge, Event::Tick);
            fridge.status.temperature
        })
        .collect();
    assert_eq!(temperatures, vec![7., 6., 5., 4., 3., 2., 1., 0., 0.5]);
    assert!(!fridge.cooling);
}

#[test]
fn open_fridge_gains_more() {
    let (mut fridge, _) = Fridge::new(config(4.));
    fridge.status.open = true;
    run(&mut fridge, Event::Tick);
    assert_eq!(fridge.status.temperature, 5.);
}

#[test]
fn fridge_regulates_by_range() {
    let (mut fridge, _) = Fridge::new(config(4.));
    assert_eq!(fridge.regulate(TargetRange::InRange), (0.5, None));
    assert_eq!(fridge.regulate(TargetRange::Above), (0.5, Some(1.5)));
    assert_eq!(fridge.regulate(TargetRange::InRange), (0.5, Some(1.5)));
    assert_eq!(fridge.regulate(TargetRange::Below), (0.5, None));
}

#[test]
fn fridge_target_is_read_back() {
    let (mut fridge, _) = Fridge::new(config(-3.7));
    assert_eq!(fridge.handle_message(Message::SetTargetTemperature(-18), &read), None);
    assert_eq!(
        fridge.handle_message(Message::GetTargetTemperature, &read),
        Some(Reply::Degrees(-18))
    );
    assert_eq!(
        fridge.handle_message(Message::GetTemperature, &read),
        Some(Reply::Degrees(-3))
    );
    assert_eq!(fridge.handle_message(Message::GetOpen, &read), Some(Reply::Flag(false)));
    assert_eq!(
        fridge.handle_message(Message::GetProperties, &read),
        Some(Reply::Properties(Properties {
            open: false,
            temperature: -3,
            target_temperature: -18
        }))
    );
}

#[test]
fn fridge_events() {
    let (mut fridge, _) = Fridge::new(config(9.));
    run(&mut fridge, Event::Tick);
    assert!(fridge.cooling);
    let opening = FridgeSimulationOutput { open: Some(true) };
    assert!(matches!(run(&mut fridge, Event::NextStatus(opening)), Action::Continue));
    assert!(fridge.status.open);
    match run(&mut fridge, Event::Config(config(5.))) {
        Action::Restart(simulation) => assert_eq!(simulation.len(), 4),
        other => panic!("{other:?}"),
    }
    assert!(fridge.cooling);
    assert!(!fridge.status.open);
    assert_eq!(fridge.status.temperature, 5.);
    assert!(matches!(
        run(&mut fridge, Event::Message(Message::GetTemperature)),
        Action::Reply(Some(Reply::Degrees(5)))
    ));
    assert!(matches!(run(&mut fridge, Event::Stop), Action::Stop));
}

#[test]
fn fridge_example_script() {
    let steps: Vec<_> = example_simulation()
        .into_iter()
        .map(FridgeSimulation::output_and_wait)
        .map(|(output, wait)| (output.open, wait))
        .collect();
    assert_eq!(
        steps,
        vec![
            (Some(true), Span::from_secs(3)),
            (Some(false), Span::from_secs(8)),
            (Some(true), Span::from_secs(15)),
            (Some(false), Span::from_secs(3)),
        ]
    );
}
