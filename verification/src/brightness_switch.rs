//! A switch with a brightness.
use crate::status_code::{BAD_REQUEST, NO_CONTENT};
use vstd::prelude::*;

verus! {

/// The highest brightness.
pub const MAX_BRIGHTNESS: u8 = 100;

/// A switch.
#[derive(Clone, Copy, Debug, PartialEq, Eq, Structural)]
pub struct Thing {
    pub is_on: bool,
    pub brightness: u8,
}

/// A request to a switch.
#[derive(Clone, Copy, Debug, PartialEq, Eq)]
pub enum Message {
    GetIsOn,
    SetIsOn(bool),
    GetBrightness,
    SetBrightness(u8),
}

/// The answer to a [`Message`].
#[derive(Clone, Copy, Debug, PartialEq, Eq)]
pub enum Reply {
    IsOn(bool),
    Brightness(u8),
}

/// The switch after a request.
pub open spec fn after_message(thing: Thing, message: Message) -> Thing {
    match message {
        Message::GetIsOn | Message::GetBrightness => thing,
        Message::SetIsOn(value) => Thing { is_on: value, ..thing },
        Message::SetBrightness(value) => if value <= MAX_BRIGHTNESS {
            Thing { brightness: value, ..thing }
        } else {
            thing
        },
    }
}

/// The answer to a request, where it has one.
pub open spec fn reply_to(thing: Thing, message: Message) -> Option<Reply> {
    match message {
        Message::GetIsOn => Some(Reply::IsOn(thing.is_on)),
        Message::GetBrightness => Some(Reply::Brightness(thing.brightness)),
        Message::SetIsOn(_) | Message::SetBrightness(_) => None,
    }
}

impl Thing {
    /// The switch that is on at first, at half its brightness.
    pub fn new() -> (thing: Thing)
        ensures
            thing == (Thing { is_on: true, brightness: 50 }),
    {
        Thing { is_on: true, brightness: 50 }
    }

    /// Serves a request, and gives the answer, where it has one.
    pub fn handle_message(&mut self, message: Message) -> (reply: Option<Reply>)
        ensures
            reply == reply_to(*old(self), message),
            *final(self) == after_message(*old(self), message),
    {
        match message {
            Message::GetIsOn => Some(Reply::IsOn(self.is_on)),
            Message::SetIsOn(value) => {
                self.is_on = value;
                None
            },
            Message::GetBrightness => Some(Reply::Brightness(self.brightness)),
            Message::SetBrightness(value) => {
                if value <= MAX_BRIGHTNESS {
                    self.brightness = value;
                }
                None
            },
        }
    }
}

/// The status code for a request to set the brightness, and what is asked of the switch, where the
/// brightness is one that it can have.
pub fn put_brightness_property(value: u8) -> (response: (u16, Option<Message>))
    ensures
        response == if value <= MAX_BRIGHTNESS {
            (NO_CONTENT, Some(Message::SetBrightness(value)))
        } else {
            (BAD_REQUEST, None)
        },
{
    if value > MAX_BRIGHTNESS {
        return (BAD_REQUEST, None);
    }
    (NO_CONTENT, Some(Message::SetBrightness(value)))
}

/// What was written to a property is read back, where it is within bounds, and the other property
/// stays as it was.
pub proof fn law_properties_are_read_back(thing: Thing, is_on: bool, brightness: u8)
    ensures
        reply_to(after_message(thing, Message::SetIsOn(is_on)), Message::GetIsOn) == Some(
            Reply::IsOn(is_on),
        ),
        reply_to(after_message(thing, Message::SetIsOn(is_on)), Message::GetBrightness) == reply_to(
            thing,
            Message::GetBrightness,
        ),
        brightness <= MAX_BRIGHTNESS ==> reply_to(
            after_message(thing, Message::SetBrightness(brightness)),
            Message::GetBrightness,
        ) == Some(Reply::Brightness(brightness)),
        reply_to(after_message(thing, Message::SetBrightness(brightness)), Message::GetIsOn)
            == reply_to(thing, Message::GetIsOn),
{
}

/// No request leads the brightness out of bounds.
pub proof fn law_brightness_stays_within_bounds(thing: Thing, message: Message)
    requires
        thing.brightness <= MAX_BRIGHTNESS,
    ensures
        after_message(thing, message).brightness <= MAX_BRIGHTNESS,
{
}

/// A request to read a property is answered with its value and changes nothing. The others are not
/// answered: the switch is set as was asked, and so is the brightness where it is one of those from
/// 0 to 100; nothing else changes.
pub proof fn law_requests_are_served(thing: &mut Thing, message: Message, reply: Option<Reply>)
    requires
        call_ensures(Thing::handle_message, (thing, message), reply),
    ensures
        message is GetIsOn ==> reply == Some(Reply::IsOn(old(thing).is_on)),
        message is GetBrightness ==> reply == Some(Reply::Brightness(old(thing).brightness)),
        message is SetIsOn || message is SetBrightness ==> reply is None,
        !(message is SetIsOn) ==> final(thing).is_on == old(thing).is_on,
        message matches Message::SetIsOn(value) ==> final(thing).is_on == value,
        !(message is SetBrightness) ==> final(thing).brightness == old(thing).brightness,
        message matches Message::SetBrightness(value) ==> final(thing).brightness == if value
            <= 100 {
            value
        } else {
            old(thing).brightness
        },
{
}

/// A brightness that is let through is the one that is read afterwards; what is not let through is
/// refused with the status code for that, and asks nothing of the switch.
pub proof fn law_accepted_brightness_is_set(
    value: u8,
    response: (u16, Option<Message>),
    thing: &mut Thing,
    reply: Option<Reply>,
)
    requires
        call_ensures(put_brightness_property, (value,), response),
        response.1 matches Some(message) ==> call_ensures(
            Thing::handle_message,
            (thing, message),
            reply,
        ),
    ensures
        value <= 100 <==> response.1 is Some,
        value <= 100 ==> response.0 == 204,
        value <= 100 ==> final(thing).brightness == value,
        value <= 100 ==> final(thing).is_on == old(thing).is_on,
        value > 100 ==> response.0 == 400,
{
}

} // verus!
