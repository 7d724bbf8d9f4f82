use demo_things::action::{get_fade_action, ActionName, ActionStatusStatus, StoredActionType};
use demo_things::clock::{Span, Timestamp};
use demo_things::lamp::{
    fade, fade_requested_at, handle_brightness_stream, handle_event, handle_overheated_event,
    put_brightness_property, Event, FadeActionInput, Lamp, LoopEvent, Message, Properties, Reply,
};

const ID: u128 = 0x0123_4567_89ab_4def_8123_4567_89ab_cdef;

fn share(delta: i8, ticks: u32, tick: u32) -> i8 {
    (f64::from(delta) / f64::from(ticks) * f64::from(tick)) as i8
}

fn at(unix_nanos: i128) -> Timestamp {
    Timestamp { unix_nanos }
}

fn fade_message(brightness: u8, millis: u64) -> Message {
    Message::Fade {
        brightness,
        time_requested: at(1_000_000),
        duration: Span::from_millis(millis),
    }
}

#[test]
fn lamp_starts_on_and_cool() {
    let lamp = Lamp::new();
    assert!(lamp.is_on);
    assert_eq!(lamp.brightness, 50);
    assert_eq!(lamp.temperature, 25);
    assert!(lamp.actions.is_empty());
    assert!(!lamp.fader.active);
}

#[test]
fn lamp_properties_are_read_back() {
    let mut lamp = Lamp::new();
    let outcome = lamp.handle_message_at(Message::SetBrightness(77), at(3), ID);
    assert!(outcome.reply.is_none());
    assert_eq!(
        outcome.events,
        vec![Event::Brightness {
            data: 77,
            timestamp: at(3)
        }]
    );
    let outcome = lamp.handle_message(Message::SetIsOn(false));
    assert!(outcome.events.is_empty());
    assert!(matches!(
        lamp.handle_message(Message::GetBrightness).reply,
        Some(Reply::Brightness(77))
    ));
    assert!(matches!(
        lamp.handle_message(Message::GetIsOn).reply,
        Some(Reply::IsOn(false))
    ));
    assert!(matches!(
        lamp.handle_message(Message::GetProperties).reply,
        Some(Reply::Properties(Properties {
            brightness: 77,
            on: false
        }))
    ));
}

#[test]
fn fade_is_recorded_and_scheduled() {
    let mut lamp = Lamp::new();
    let outcome = lamp.handle_message_at(fade_message(120, 1500), at(400_000_000), ID);
    let Some(Reply::Fade(action)) = outcome.reply else {
        panic!("no fade");
    };
    let StoredActionType::Fade(status) = &action.ty;
    assert_eq!(
        status.output,
        Some(FadeActionInput {
            brightness: 100,
            duration: 1500
        })
    );
    assert_eq!(status.status, ActionStatusStatus::Pending);
    assert_eq!(
        status.href.as_deref(),
        Some("/actions/fade/01234567-89ab-4def-8123-456789abcdef")
    );
    assert!(outcome.events.is_empty());
    let completion = outcome.completion.unwrap();
    assert_eq!(completion.id, ID);
    assert_eq!(completion.wait, Span::from_millis(1500 - 399));
    assert_eq!(lamp.actions.len(), 1);
    assert_eq!(lamp.fader.ticks, 150);
    assert_eq!(lamp.fader.delta_level, 50);
}

#[test]
fn late_fade_is_completed_at_once() {
    let mut lamp = Lamp::new();
    let outcome = lamp.handle_message_at(fade_message(10, 5), at(1_000_000_000), ID);
    assert_eq!(outcome.completion.unwrap().wait, Span::from_millis(0));
    // A clock that was set back does not make the fade longer.
    let outcome = lamp.handle_message_at(fade_message(10, 5), at(0), ID);
    assert_eq!(outcome.completion.unwrap().wait, Span::from_millis(5));
}

#[test]
fn fade_turns_the_lamp_on_from_dark() {
    let mut lamp = Lamp::new();
    lamp.handle_message(Message::SetIsOn(false));
    let outcome = lamp.handle_message_at(fade_message(10, 100), at(7), ID);
    assert_eq!(
        outcome.events,
        vec![Event::Brightness {
            data: 0,
            timestamp: at(7)
        }]
    );
    assert!(lamp.is_on);
    assert_eq!(lamp.brightness, 0);
    for _ in 0..10 {
        lamp.handle_tick(share);
    }
    assert_eq!(lamp.brightness, 10);
    assert!(!lamp.fader.active);
}

#[test]
fn completed_fade_of_a_lamp_is_shown() {
    let mut lamp = Lamp::new();
    lamp.handle_message_at(fade_message(20, 30), at(1_000_000), ID);
    lamp.handle_message_at(Message::CompleteAction(ID), at(31_000_000), 1);
    let body = get_fade_action(&lamp.actions, ID).1.unwrap();
    let StoredActionType::Fade(shown) = body.ty;
    assert_eq!(shown.status, ActionStatusStatus::Completed);
    assert_eq!(
        shown.output,
        Some(FadeActionInput {
            brightness: 20,
            duration: 30
        })
    );
    assert_eq!(shown.time_ended, Some(at(31_000_000)));
}

#[test]
fn cancelled_fade_of_a_lamp_is_gone() {
    let mut lamp = Lamp::new();
    lamp.handle_message_at(fade_message(20, 30), at(1_000_000), ID);
    let delete = Message::DeleteAction {
        name: ActionName::Fade,
        id: ID,
    };
    assert!(matches!(
        lamp.handle_message(delete).reply,
        Some(Reply::Removed(true))
    ));
    assert!(matches!(
        lamp.handle_message(delete).reply,
        Some(Reply::Removed(false))
    ));
    lamp.handle_message(Message::CompleteAction(ID));
    assert_eq!(get_fade_action(&lamp.actions, ID).0, 404);
}

#[test]
fn random_identifiers_differ() {
    let mut lamp = Lamp::new();
    lamp.handle_message(fade_message(20, 30));
    lamp.handle_message(fade_message(30, 30));
    match lamp.handle_message(Message::GetActions).reply {
        Some(Reply::Actions(actions)) => {
            assert_eq!(actions.len(), 2);
            assert_ne!(actions[0].id, actions[1].id);
            for action in &actions {
                assert_eq!(action.id >> 76 & 0xf, 4);
                assert_eq!(action.id >> 62 & 0x3, 2);
            }
        }
        other => panic!("{other:?}"),
    }
}

#[test]
fn fade_request_is_made_now() {
    // The first instant of 2023.
    const YEAR: i128 = 1_672_531_200_000_000_000;
    let data = FadeActionInput {
        brightness: 12,
        duration: 345,
    };
    match (fade(data), fade(data)) {
        (
            Message::Fade {
                brightness,
                time_requested: first,
                duration,
            },
            Message::Fade {
                time_requested: second,
                ..
            },
        ) => {
            assert_eq!(brightness, 12);
            assert_eq!(duration, Span::from_millis(345));
            assert!(YEAR < first.unix_nanos);
            assert!(first.unix_nanos <= second.unix_nanos);
        }
        other => panic!("{other:?}"),
    }
}

#[test]
fn fade_request_at_a_given_time() {
    let data = FadeActionInput {
        brightness: 12,
        duration: u64::MAX,
    };
    match fade_requested_at(data, at(99)) {
        Message::Fade {
            brightness: 12,
            time_requested,
            duration,
        } => {
            assert_eq!(time_requested, at(99));
            assert_eq!(duration.as_millis(), u128::from(u64::MAX));
        }
        other => panic!("{other:?}"),
    }
}

#[test]
fn bright_lamp_overheats() {
    let mut lamp = Lamp::new();
    lamp.handle_message(Message::SetBrightness(51));
    for degrees in 26..=100 {
        assert!(lamp.handle_tick(share).is_empty());
        assert_eq!(lamp.temperature, degrees);
    }
    match lamp.handle_tick(share)[..] {
        [Event::Overheated { data: 101, .. }] => {}
        ref other => panic!("{other:?}"),
    }
    for _ in 0..200 {
        lamp.handle_tick(share);
    }
    assert_eq!(lamp.temperature, 200);
}

#[test]
fn dim_lamp_cools_down() {
    let mut lamp = Lamp::new();
    lamp.temperature = 30;
    for _ in 0..10 {
        lamp.handle_tick(share);
    }
    assert_eq!(lamp.temperature, 25);
    lamp.temperature = 102;
    lamp.brightness = 90;
    lamp.is_on = false;
    assert_eq!(lamp.warm(), Some(101));
    assert_eq!(lamp.warm(), None);
    assert_eq!(lamp.temperature, 100);
}

#[test]
fn ticks_announce_brightness_before_heat() {
    let mut lamp = Lamp::new();
    lamp.temperature = 150;
    lamp.handle_message(fade_message(60, 10));
    assert_eq!(
        lamp.handle_tick_at(share, at(77)),
        vec![
            Event::Brightness {
                data: 60,
                timestamp: at(77)
            },
            Event::Overheated {
                data: 151,
                timestamp: at(77)
            },
        ]
    );
}

#[test]
fn brightness_out_of_bounds_is_refused() {
    assert!(matches!(
        put_brightness_property(100),
        (204, Some(Message::SetBrightness(100)))
    ));
    assert!(matches!(
        put_brightness_property(0),
        (204, Some(Message::SetBrightness(0)))
    ));
    assert!(matches!(put_brightness_property(101), (400, None)));

    let mut lamp = Lamp::new();
    let outcome = lamp.handle_message(Message::SetBrightness(101));
    assert!(outcome.events.is_empty());
    assert!(outcome.reply.is_none());
    assert_eq!(lamp.brightness, 50);
    lamp.handle_message(Message::SetBrightness(100));
    assert_eq!(lamp.brightness, 100);
}

#[test]
fn short_fade_of_a_lamp_reaches_its_goal() {
    let mut lamp = Lamp::new();
    lamp.handle_message(fade_message(60, 5));
    assert_eq!(
        lamp.handle_tick_at(share, at(8)),
        vec![Event::Brightness {
            data: 60,
            timestamp: at(8)
        }]
    );
    assert!(!lamp.fader.active);
    assert!(lamp.handle_tick_at(share, at(9)).is_empty());
    assert_eq!(lamp.brightness, 60);
}

#[test]
fn lamp_events_reach_their_subscribers() {
    let heat = Event::Overheated {
        data: 120,
        timestamp: at(1_700_000_000_123_000_000),
    };
    let light = Event::Brightness {
        data: 12,
        timestamp: at(0),
    };
    let notice = handle_overheated_event(heat).unwrap();
    assert_eq!(notice.event, "overheated");
    assert_eq!(notice.data, 120);
    assert_eq!(notice.id.as_deref(), Some("2023-11-14T22:13:20.123Z"));
    assert!(handle_overheated_event(light).is_none());

    let notice = handle_brightness_stream(light).unwrap();
    assert_eq!(notice.event, "brightness");
    assert_eq!(notice.data, 12);
    assert_eq!(notice.id.as_deref(), Some("1970-01-01T00:00:00Z"));
    assert!(handle_brightness_stream(heat).is_none());
}

#[test]
fn times_out_of_range_have_no_text() {
    for (unix_nanos, has_text) in [
        (253_402_300_799_999_999_999, true),
        (253_402_300_800_000_000_000, false),
        (-62_167_219_200_000_000_000, true),
        (-62_167_219_200_000_000_001, false),
        (i128::MAX, false),
        (i128::MIN, false),
    ] {
        let event = Event::Brightness {
            data: 1,
            timestamp: at(unix_nanos),
        };
        assert_eq!(handle_brightness_stream(event).unwrap().id.is_some(), has_text);
    }
}

#[test]
fn running_lamp_takes_events() {
    let mut lamp = Lamp::new();
    assert!(handle_event(&mut lamp, LoopEvent::Tick, share).is_some());
    let outcome = handle_event(&mut lamp, LoopEvent::Message(Message::GetIsOn), share).unwrap();
    assert!(matches!(outcome.reply, Some(Reply::IsOn(true))));
    assert!(handle_event(&mut lamp, LoopEvent::Stop, share).is_none());
}
