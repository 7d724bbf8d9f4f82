use demo_things::action::{ActionStatusStatus, StoredActionType};
use demo_things::clock::{Span, Timestamp};
use demo_things::fade_switch::FadeActionInput;
use demo_things::float_fade_switch::{
    fade, handle_event, put_brightness_property, Arithmetic, LoopEvent, Message, Outcome, Reply,
    Thing,
};

const ID: u128 = 0x0123_4567_89ab_4def_8123_4567_89ab_cdef;

fn at(unix_nanos: i128) -> Timestamp {
    Timestamp { unix_nanos }
}

fn level(level: u8) -> f64 {
    f64::from(level)
}

fn place(initial: f64, delta: f64, ticks: u32, tick: u32, low: u8, high: u8) -> f64 {
    let current_delta = delta / f64::from(ticks) * f64::from(tick);
    (initial + current_delta).clamp(f64::from(low), f64::from(high))
}

fn in_range(value: f64, low: u8, high: u8) -> bool {
    (f64::from(low)..=f64::from(high)).contains(&value)
}

fn run(thing: &mut Thing<f64>, event: LoopEvent<f64>) -> Option<Outcome<f64>> {
    let arithmetic = Arithmetic {
        level,
        difference: |from: f64, to: f64| to - from,
        place,
        differs: |a: f64, b: f64| a != b,
        in_range,
    };
    handle_event(thing, event, &arithmetic)
}

fn ask(thing: &mut Thing<f64>, message: Message<f64>) -> Option<Reply<f64>> {
    run(thing, LoopEvent::Message(message)).unwrap().reply
}

fn fade_to(level: u8, millis: u64) -> Message<f64> {
    Message::Fade {
        level,
        time_requested: at(0),
        duration: Span::from_millis(millis),
    }
}

#[test]
fn fractional_switch_starts_half_bright() {
    let thing = Thing::new(&level);
    assert!(thing.is_on);
    assert_eq!(thing.brightness, 50.);
    assert!(thing.actions.is_empty());
}

#[test]
fn fractional_switch_is_read_back() {
    let mut thing = Thing::new(&level);
    assert!(ask(&mut thing, Message::SetBrightness(12.5)).is_none());
    assert!(ask(&mut thing, Message::SetIsOn(false)).is_none());
    match ask(&mut thing, Message::GetBrightness) {
        Some(Reply::Brightness(brightness)) => assert_eq!(brightness, 12.5),
        other => panic!("{other:?}"),
    }
    assert!(matches!(
        ask(&mut thing, Message::GetIsOn),
        Some(Reply::IsOn(false))
    ));
}

#[test]
fn fractional_brightness_stays_within_bounds() {
    let mut thing = Thing::new(&level);
    for value in [-0.1, 100.5, f64::NAN, f64::INFINITY] {
        ask(&mut thing, Message::SetBrightness(value));
        assert_eq!(thing.brightness, 50.);
        assert!(matches!(put_brightness_property(value, &in_range), (400, None)));
    }
    match put_brightness_property(100., &in_range) {
        (204, Some(Message::SetBrightness(value))) => assert_eq!(value, 100.),
        other => panic!("{other:?}"),
    }
}

#[test]
fn fractional_switch_fades() {
    let mut thing = Thing::new(&level);
    let arithmetic = Arithmetic {
        level,
        difference: |from: f64, to: f64| to - from,
        place,
        differs: |a: f64, b: f64| a != b,
        in_range,
    };
    let outcome = thing.handle_message_at(fade_to(51, 40), at(10_000_000), ID, &arithmetic);
    assert!(matches!(outcome.reply, Some(Reply::Fade(_))));
    assert_eq!(outcome.completion.unwrap().wait, Span::from_millis(30));
    for expected in [50.25, 50.5, 50.75, 51., 51.] {
        thing.handle_tick(&arithmetic.place, &arithmetic.differs);
        assert_eq!(thing.brightness, expected);
    }
    thing.handle_message_at(Message::CompleteAction(ID), at(3), 1, &arithmetic);
    let StoredActionType::Fade(status) = &thing.actions[0].ty;
    assert_eq!(status.status, ActionStatusStatus::Completed);
}

#[test]
fn fractional_switch_fades_from_dark() {
    let mut thing = Thing::new(&level);
    ask(&mut thing, Message::SetIsOn(false));
    ask(&mut thing, fade_to(200, 20));
    assert!(thing.is_on);
    assert_eq!(thing.brightness, 0.);
    assert_eq!(thing.fader.delta_level.by, 100.);
    assert_eq!(thing.fader.delta_level.to, 100.);
}

#[test]
fn fractional_switch_fades_in_no_time() {
    let mut thing = Thing::new(&level);
    ask(&mut thing, fade_to(50, 0));
    run(&mut thing, LoopEvent::Tick);
    assert_eq!(thing.brightness, 50.);
    assert!(!thing.fader.active);
}

#[test]
fn fractional_switch_counts_seconds() {
    let data = FadeActionInput {
        level: 3,
        duration: 7,
    };
    match fade::<f64>(data) {
        Message::Fade {
            level, duration, ..
        } => {
            assert_eq!(level, 3);
            assert_eq!(duration, Span::from_secs(7));
        }
        other => panic!("{other:?}"),
    }
}

#[test]
fn fractional_switch_takes_events() {
    let mut thing = Thing::new(&level);
    let outcome = run(&mut thing, LoopEvent::Message(fade_to(52, 20))).unwrap();
    assert!(matches!(outcome.reply, Some(Reply::Fade(_))));
    let outcome = run(&mut thing, LoopEvent::Tick).unwrap();
    assert!(outcome.reply.is_none());
    assert_eq!(thing.brightness, 51.);
    assert!(run(&mut thing, LoopEvent::Stop).is_none());
}
