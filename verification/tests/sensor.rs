use demo_things::clock::Span;
use demo_things::sensor::{
    countable, interpolation_from_variation, Action, Arithmetic, Config,
    Event, Interpolation, Message, SensorConfig, SensorStatus, SensorVariation, Thing,
};

fn sum(current: f32, variation: f32) -> f32 {
    current + variation
}

fn position(start: f32, end: f32, index: usize, len: usize) -> f32 {
    let range_len = end - start;
    range_len * index as f32 / len as f32 + start
}

fn variation(millis: u64, variation: f32) -> SensorVariation<f32> {
    SensorVariation {
        duration: Span::from_millis(millis),
        variation,
    }
}

fn script(initial: f32, variations: Vec<SensorVariation<f32>>) -> SensorConfig<f32> {
    SensorConfig {
        initial,
        variations,
    }
}

fn tick(status: &mut SensorStatus<f32>) -> bool {
    status.tick(&Arithmetic {
        sum,
        lerp: position,
    })
}

fn run(thing: &mut Thing<f32>, event: Event<f32>) -> Action<f32> {
    thing.handle_event(
        event,
        &Arithmetic {
            sum,
            lerp: position,
        },
    )
}

#[test]
fn interpolation() {
    const INIT_LERP: Interpolation<f32> = Interpolation {
        start: 2.,
        end: 6.,
        index: 0,
        len: 4,
    };

    let mut lerp = INIT_LERP;

    assert_eq!(lerp.step(&position), Some(3.));
    assert_eq!(
        lerp,
        Interpolation {
            index: 1,
            ..INIT_LERP
        }
    );

    assert_eq!(lerp.step(&position), Some(4.));
    assert_eq!(
        lerp,
        Interpolation {
            index: 2,
            ..INIT_LERP
        }
    );

    assert_eq!(lerp.step(&position), Some(5.));
    assert_eq!(
        lerp,
        Interpolation {
            index: 3,
            ..INIT_LERP
        }
    );

    assert_eq!(lerp.step(&position), Some(6.));
    assert_eq!(
        lerp,
        Interpolation {
            index: 4,
            ..INIT_LERP
        }
    );

    assert_eq!(lerp.step(&position), None);
    assert_eq!(
        lerp,
        Interpolation {
            index: 4,
            ..INIT_LERP
        }
    );
}

#[test]
fn last_tick_lands_on_the_end() {
    for (start, end, len) in [(2., 6., 4), (0., -7., 3), (100., 101., 9), (-5., -5., 1)] {
        let mut lerp = Interpolation {
            start,
            end,
            index: len - 1,
            len,
        };
        assert_eq!(lerp.step(&position), Some(end));
        assert_eq!(lerp.step(&position), None);
        assert_eq!(lerp.step(&position), None);
    }
}

#[test]
fn variations_are_counted_in_ticks() {
    for (millis, len) in [(0, 0), (1, 1), (9, 1), (10, 1), (11, 2), (100, 10), (101, 11)] {
        assert_eq!(
            interpolation_from_variation(20., variation(millis, 2.), &sum),
            Interpolation {
                start: 20.,
                end: 22.,
                index: 0,
                len
            }
        );
    }
}

#[test]
fn endless_variation_is_capped() {
    let endless = SensorVariation {
        duration: Span::from_secs(u64::MAX),
        variation: 1.,
    };
    assert!(countable(endless.duration));
    assert_eq!(interpolation_from_variation(0., endless, &sum).len, usize::MAX);
}

#[test]
fn ticks_beyond_counting_are_told() {
    let nanos = usize::MAX as u128 * 10_000_000;
    assert!(countable(Span { nanos }));
    let beyond = Span {
        nanos: nanos + 1_000_000,
    };
    assert!(!countable(beyond));
    let uncountable = |variation| SensorVariation {
        duration: beyond,
        variation,
    };
    assert!(script(0., vec![]).is_startable());
    assert!(!script(0., vec![uncountable(1.)]).is_startable());

    // What cannot be counted up matters only once it starts.
    let config = script(0., vec![variation(10, 1.), variation(0, 1.), uncountable(1.)]);
    assert!(config.is_startable());
    let mut status = SensorStatus::from(config, &sum);
    assert!(status.is_tickable());
    assert!(tick(&mut status));
    assert_eq!(status.current, 1.);
    assert!(!status.is_tickable());
}

#[test]
fn uncountable_events_are_told() {
    let uncountable = || SensorVariation {
        duration: Span {
            nanos: usize::MAX as u128 * 10_000_000 + 1_000_000,
        },
        variation: 1.,
    };
    let config = || Config {
        humidity: script(60., vec![variation(10, 1.), uncountable()]),
        temperature: script(20., vec![]),
    };
    let mut thing = Thing::new(config(), &sum);
    assert!(thing.is_servable(&Event::Tick));
    assert!(matches!(run(&mut thing, Event::Tick), Action::Continue));
    assert!(!thing.is_servable(&Event::Tick));
    assert!(thing.is_servable(&Event::Message(Message::GetHumidity)));
    assert!(thing.is_servable(&Event::Config(config())));
    let config = Config {
        humidity: script(60., vec![]),
        temperature: script(20., vec![uncountable()]),
    };
    assert!(!thing.is_servable(&Event::Config(config)));
}

#[test]
fn script_takes_its_ticks() {
    let mut status = SensorStatus::from(
        script(10., vec![variation(20, 2.), variation(0, 5.), variation(15, -1.)]),
        &sum,
    );
    assert_eq!(status.current, 10.);
    let values: Vec<f32> = (0..4)
        .map(|_| {
            assert!(tick(&mut status));
            status.current
        })
        .collect();
    assert_eq!(values, vec![11., 12., 11.5, 11.]);
    for _ in 0..3 {
        assert!(!tick(&mut status));
        assert_eq!(status.current, 11.);
        assert_eq!(status.interpolation, None);
    }
}

#[test]
fn empty_script_changes_nothing() {
    let mut status = SensorStatus::from(script(10., vec![]), &sum);
    assert!(!tick(&mut status));
    assert_eq!(status.current, 10.);
    let mut status = SensorStatus::from(script(10., vec![variation(0, 1.)]), &sum);
    assert!(!tick(&mut status));
    assert_eq!(status.current, 10.);
}

#[test]
fn sensor_ticks_until_both_are_over() {
    let config = Config {
        humidity: script(60., vec![variation(10, 1.)]),
        temperature: script(20., vec![variation(20, 1.)]),
    };
    let mut thing = Thing::new(config, &sum);
    assert!(matches!(run(&mut thing, Event::Tick), Action::Continue));
    assert!(matches!(run(&mut thing, Event::Tick), Action::Continue));
    assert!(matches!(run(&mut thing, Event::Tick), Action::StopTicking));
    match run(&mut thing, Event::Message(Message::GetTemperature)) {
        Action::Reply(value) => assert_eq!(value, 21.),
        other => panic!("{other:?}"),
    }
    assert_eq!(thing.handle_message(Message::GetHumidity), 61.);
}

#[test]
fn sensor_configuration_keeps_what_was_measured() {
    let config = Config {
        humidity: script(60., vec![]),
        temperature: script(20., vec![]),
    };
    let mut thing = Thing::new(config, &sum);
    let config = Config {
        humidity: script(10., vec![variation(20, 2.)]),
        temperature: script(0., vec![]),
    };
    assert!(matches!(
        run(&mut thing, Event::Config(config)),
        Action::RestartTicking
    ));
    assert_eq!(thing.handle_message(Message::GetHumidity), 60.);
    assert_eq!(thing.handle_message(Message::GetTemperature), 20.);
    assert!(matches!(run(&mut thing, Event::Tick), Action::Continue));
    // The script goes on from where it starts.
    assert_eq!(thing.handle_message(Message::GetHumidity), 11.);
    assert!(matches!(run(&mut thing, Event::Stop), Action::Stop));
}
