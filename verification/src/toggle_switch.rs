//! A switch that can be toggled.
use vstd::prelude::*;

verus! {

/// A switch.
#[derive(Clone, Copy, Debug, PartialEq, Eq, Structural)]
pub struct Thing {
    pub is_on: bool,
}

/// A request to a switch.
#[derive(Clone, Copy, Debug)]
pub enum Message {
    GetIsOn,
    SetIsOn(bool),
    Toggle,
}

/// The switch after a request.
pub open spec fn after_message(thing: Thing, message: Message) -> Thing {
    match message {
        Message::GetIsOn => thing,
        Message::SetIsOn(value) => Thing { is_on: value },
        Message::Toggle => Thing { is_on: !thing.is_on },
    }
}

/// The answer to a request, where it has one.
pub open spec fn reply_to(thing: Thing, message: Message) -> Option<bool> {
    match message {
        Message::GetIsOn => Some(thing.is_on),
        _ => None,
    }
}

impl Thing {
    /// The switch that is on at first.
    pub fn new() -> (thing: Thing)
        ensures
            thing.is_on,
    {
        Thing { is_on: true }
    }

    /// Serves a request, and gives the answer, where it has one.
    pub fn handle_message(&mut self, message: Message) -> (reply: Option<bool>)
        ensures
            reply == reply_to(*old(self), message),
            *final(self) == after_message(*old(self), message),
    {
        match message {
            Message::GetIsOn => Some(self.is_on),
            Message::SetIsOn(value) => {
                self.is_on = value;
                None
            },
            Message::Toggle => {
                self.is_on = !self.is_on;
                None
            },
        }
    }
}

/// Toggling a switch turns it over, and toggling it twice leaves it as it was.
pub proof fn law_toggling_twice_restores(thing: Thing)
    ensures
        after_message(thing, Message::Toggle).is_on != thing.is_on,
        after_message(after_message(thing, Message::Toggle), Message::Toggle) == thing,
{
}

/// What was written to the switch is read back.
pub proof fn law_switch_is_read_back(thing: Thing, value: bool)
    ensures
        reply_to(after_message(thing, Message::SetIsOn(value)), Message::GetIsOn) == Some(value),
{
}

/// A request to read the switch is answered with its state and changes nothing; the others are not
/// answered, and leave the switch as was asked, whatever it was.
pub proof fn law_requests_are_served(thing: &mut Thing, message: Message, reply: Option<bool>)
    requires
        call_ensures(Thing::handle_message, (thing, message), reply),
    ensures
        message is GetIsOn ==> reply == Some(old(thing).is_on),
        message is GetIsOn ==> final(thing).is_on == old(thing).is_on,
        message matches Message::SetIsOn(value) ==> reply is None && final(thing).is_on == value,
        message is Toggle ==> reply is None && final(thing).is_on == !old(thing).is_on,
{
}

} // verus!
