use demo_things::brightness_switch::{put_brightness_property, Message, Reply, Thing};

#[test]
fn brightness_switch_is_read_back() {
    let mut thing = Thing::new();
    assert_eq!(
        thing.handle_message(Message::GetBrightness),
        Some(Reply::Brightness(50))
    );
    assert_eq!(thing.handle_message(Message::SetBrightness(100)), None);
    assert_eq!(thing.handle_message(Message::SetIsOn(false)), None);
    assert_eq!(
        thing.handle_message(Message::GetBrightness),
        Some(Reply::Brightness(100))
    );
    assert_eq!(thing.handle_message(Message::GetIsOn), Some(Reply::IsOn(false)));
}

#[test]
fn brightness_of_a_switch_stays_within_bounds() {
    let mut thing = Thing::new();
    assert_eq!(thing.handle_message(Message::SetBrightness(101)), None);
    assert_eq!(thing.brightness, 50);
    assert_eq!(
        put_brightness_property(100),
        (204, Some(Message::SetBrightness(100)))
    );
    assert_eq!(put_brightness_property(101), (400, None));
    assert_eq!(put_brightness_property(255), (400, None));
}
