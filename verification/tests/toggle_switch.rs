use demo_things::toggle_switch;

#[test]
fn toggling_twice_restores() {
    let mut thing = toggle_switch::Thing::new();
    assert_eq!(thing.handle_message(toggle_switch::Message::GetIsOn), Some(true));
    assert_eq!(thing.handle_message(toggle_switch::Message::Toggle), None);
    assert_eq!(thing.handle_message(toggle_switch::Message::GetIsOn), Some(false));
    thing.handle_message(toggle_switch::Message::Toggle);
    assert_eq!(thing, toggle_switch::Thing { is_on: true });
    thing.handle_message(toggle_switch::Message::SetIsOn(false));
    assert_eq!(thing.handle_message(toggle_switch::Message::GetIsOn), Some(false));
}
