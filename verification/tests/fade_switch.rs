use demo_things::action::{get_fade_action, ActionStatusStatus, StoredActionType};
use demo_things::clock::{Span, Timestamp};
use demo_things::fade_switch::{
    fade, handle_event, FadeActionInput, LoopEvent, Message, Reply, Thing,
};

const ID: u128 = 0x0123_4567_89ab_4def_8123_4567_89ab_cdef;

fn at(unix_nanos: i128) -> Timestamp {
    Timestamp { unix_nanos }
}

fn share(delta: i8, ticks: u32, tick: u32) -> i8 {
    (f64::from(delta) / f64::from(ticks) * f64::from(tick)) as i8
}

#[test]
fn fade_switch_records_what_was_asked_for() {
    let mut thing = Thing::new();
    let message = Message::Fade {
        level: 120,
        time_requested: at(0),
        duration: Span::from_secs(2),
    };
    let outcome = thing.handle_message_at(message, at(500_000_000), ID);
    let Some(Reply::Fade(action)) = outcome.reply else {
        panic!("no fade");
    };
    let StoredActionType::Fade(status) = &action.ty;
    assert_eq!(
        status.output,
        Some(FadeActionInput {
            level: 120,
            duration: 2
        })
    );
    assert_eq!(outcome.completion.unwrap().wait, Span::from_millis(1500));
    assert_eq!(thing.fader.ticks, 200);
    assert_eq!(thing.fader.delta_level, 50);

    thing.handle_message_at(Message::CompleteAction(ID), at(9), 1);
    let body = get_fade_action(&thing.actions, ID).1.unwrap();
    let StoredActionType::Fade(shown) = body.ty;
    assert_eq!(shown.status, ActionStatusStatus::Completed);
    assert_eq!(shown.time_ended, Some(at(9)));
}

#[test]
fn fade_switch_fades_from_dark() {
    let mut thing = Thing::new();
    thing.handle_message(Message::SetIsOn(false));
    let message = Message::Fade {
        level: 30,
        time_requested: at(0),
        duration: Span::from_millis(30),
    };
    handle_event(&mut thing, LoopEvent::Message(message), share).unwrap();
    assert_eq!(thing.level, 0);
    let levels: Vec<u8> = (0..4)
        .map(|_| {
            let outcome = handle_event(&mut thing, LoopEvent::Tick, share).unwrap();
            assert!(outcome.reply.is_none());
            thing.level
        })
        .collect();
    assert_eq!(levels, vec![10, 20, 30, 30]);
    let outcome = thing.handle_message(Message::GetIsOn);
    assert!(matches!(outcome.reply, Some(Reply::IsOn(true))));
    assert!(handle_event(&mut thing, LoopEvent::Stop, share).is_none());
}

#[test]
fn fade_switch_durations_are_capped() {
    let mut thing = Thing::new();
    let message = Message::Fade {
        level: 1,
        time_requested: at(0),
        duration: Span::from_secs(u64::from(u32::MAX) + 1),
    };
    thing.handle_message(message);
    let StoredActionType::Fade(status) = &thing.actions[0].ty;
    assert_eq!(status.output.unwrap().duration, u32::MAX);
}

#[test]
fn fade_switch_counts_seconds() {
    let data = FadeActionInput {
        level: 3,
        duration: 7,
    };
    match fade(data) {
        Message::Fade {
            level, duration, ..
        } => {
            assert_eq!(level, 3);
            assert_eq!(duration, Span::from_secs(7));
        }
        other => panic!("{other:?}"),
    }
}
