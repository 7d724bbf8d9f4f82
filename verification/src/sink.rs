//! A sink with a tap and a drain, which announces that it leaks.
//!
//! Levels and rates are of any type; what there is to compute on them is handed in.
use crate::clock::{is_rfc3339, now_utc, rfc3339, Timestamp};
use crate::status_code::{BAD_REQUEST, NO_CONTENT};
use vstd::prelude::*;

verus! {

/// The level of an empty sink.
pub const MIN_LEVEL: u8 = 0;

/// The level of a full sink.
pub const MAX_LEVEL: u8 = 100;

/// The largest flow.
pub const MAX_FLOW: u8 = 100;

/// The lowest temperature of the water.
pub const MIN_TEMPERATURE: u8 = 10;

/// The highest temperature of the water.
pub const MAX_TEMPERATURE: u8 = 80;

/// A sink.
#[derive(Debug)]
pub struct Sink<V> {
    pub is_draining: bool,
    pub flow: u8,
    pub temperature: u8,
    pub level: V,
    pub fill_rate: V,
    pub drain_rate: V,
}

impl<V> Sink<V> {
    /// The rate at which the drain lets out, where it is open.
    pub open spec fn drain(self) -> Option<V> {
        if self.is_draining {
            Some(self.drain_rate)
        } else {
            None
        }
    }
}

/// What there is to compute on levels.
#[derive(Debug)]
pub struct Arithmetic<F, E, C, R> {
    /// The level of a sink after a step, before it is kept within bounds: from the level, the rate
    /// at which the drain lets out, where it is open, the flow in percent, and the rate at which
    /// the full flow fills.
    pub fill: F,
    /// Whether a level is over a bound.
    pub exceeds: E,
    /// A level, kept between two bounds.
    pub clip: C,
    /// A level in whole percent.
    pub read: R,
}

/// What a sink announces: that it is full and that water is still coming in.
#[derive(Clone, Copy, Debug, PartialEq, Eq)]
pub enum Event {
    Leak { timestamp: Timestamp },
}

/// Whether an event, where there is one, is announced at `now`.
pub open spec fn announces(event: Option<Event>, now: Timestamp) -> bool {
    event is None || event == Some(Event::Leak { timestamp: now })
}

/// What a step of ten milliseconds makes of a sink, and whether it leaks.
pub open spec fn ticked<
    V,
    F: Fn(V, Option<V>, u8, V) -> V,
    E: Fn(V, u8) -> bool,
    C: Fn(V, u8, u8) -> V,
    R,
>(before: Sink<V>, arithmetic: Arithmetic<F, E, C, R>, after: Sink<V>, leaks: bool) -> bool {
    exists|new_level: V|
        {
            &&& #[trigger] call_ensures(
                arithmetic.fill,
                (before.level, before.drain(), before.flow, before.fill_rate),
                new_level,
            )
            &&& call_ensures(arithmetic.exceeds, (new_level, MAX_LEVEL), leaks)
            &&& call_ensures(arithmetic.clip, (new_level, MIN_LEVEL, MAX_LEVEL), after.level)
            &&& after == (Sink { level: after.level, ..before })
        }
}

/// A request to a sink.
#[derive(Clone, Copy, Debug, PartialEq, Eq)]
pub enum Message {
    GetProperties,
    GetDrain,
    GetFlow,
    GetTemperature,
    GetLevel,
    SetDrain(bool),
    SetFlow(u8),
    SetTemperature(u8),
}

/// What can be read of a sink at once.
#[derive(Clone, Copy, Debug, PartialEq, Eq)]
pub struct Properties {
    pub flow: u8,
    pub temperature: u8,
    pub drain: bool,
    pub level: u8,
}

/// The answer to a [`Message`].
#[derive(Clone, Copy, Debug, PartialEq, Eq)]
pub enum Reply {
    Properties(Properties),
    Number(u8),
    Flag(bool),
}

/// What serving a request makes of a sink, and what is answered.
pub open spec fn handled<V, R: Fn(V) -> u8>(
    before: Sink<V>,
    message: Message,
    read: R,
    after: Sink<V>,
    reply: Option<Reply>,
) -> bool {
    match message {
        Message::GetProperties => {
            &&& after == before
            &&& reply matches Some(Reply::Properties(properties))
            &&& call_ensures(read, (before.level,), properties.level)
            &&& properties == (Properties {
                flow: before.flow,
                temperature: before.temperature,
                drain: before.is_draining,
                level: properties.level,
            })
        },
        Message::GetDrain => after == before && reply == Some(Reply::Flag(before.is_draining)),
        Message::GetFlow => after == before && reply == Some(Reply::Number(before.flow)),
        Message::GetTemperature => {
            &&& after == before
            &&& reply == Some(Reply::Number(before.temperature))
        },
        Message::GetLevel => {
            &&& after == before
            &&& reply matches Some(Reply::Number(level))
            &&& call_ensures(read, (before.level,), level)
        },
        Message::SetDrain(value) => {
            &&& after == (Sink { is_draining: value, ..before })
            &&& reply is None
        },
        Message::SetFlow(value) => after == (Sink { flow: value, ..before }) && reply is None,
        Message::SetTemperature(value) => {
            &&& after == (Sink { temperature: value, ..before })
            &&& reply is None
        },
    }
}

impl<V: Copy> Sink<V> {
    /// The empty sink that drains at first, with the tap closed, at the given rates.
    pub fn new(level: V, fill_rate: V, drain_rate: V) -> (sink: Self)
        ensures
            sink == (Sink {
                is_draining: true,
                flow: 0,
                temperature: 37,
                level,
                fill_rate,
                drain_rate,
            }),
    {
        Sink { is_draining: true, flow: 0, temperature: 37, level, fill_rate, drain_rate }
    }

    /// Takes the sink through ten milliseconds, and tells whether it leaks.
    pub fn fill<
        F: Fn(V, Option<V>, u8, V) -> V,
        E: Fn(V, u8) -> bool,
        C: Fn(V, u8, u8) -> V,
        R,
    >(&mut self, arithmetic: &Arithmetic<F, E, C, R>) -> (leaks: bool)
        requires
            forall|args: (V, Option<V>, u8, V)| #[trigger] call_requires(arithmetic.fill, args),
            forall|args: (V, u8)| #[trigger] call_requires(arithmetic.exceeds, args),
            forall|args: (V, u8, u8)| #[trigger] call_requires(arithmetic.clip, args),
        ensures
            ticked(*old(self), *arithmetic, *final(self), leaks),
    {
        let drain = if self.is_draining {
            Some(self.drain_rate)
        } else {
            None
        };
        let (fill, exceeds, clip) = (&arithmetic.fill, &arithmetic.exceeds, &arithmetic.clip);
        let new_level = fill(self.level, drain, self.flow, self.fill_rate);
        let leaks = exceeds(new_level, MAX_LEVEL);
        self.level = clip(new_level, MIN_LEVEL, MAX_LEVEL);
        leaks
    }

    /// Takes the sink through the ten milliseconds up to `now`, and tells what it announces.
    pub fn handle_tick_at<
        F: Fn(V, Option<V>, u8, V) -> V,
        E: Fn(V, u8) -> bool,
        C: Fn(V, u8, u8) -> V,
        R,
    >(&mut self, arithmetic: &Arithmetic<F, E, C, R>, now: Timestamp) -> (event: Option<Event>)
        requires
            forall|args: (V, Option<V>, u8, V)| #[trigger] call_requires(arithmetic.fill, args),
            forall|args: (V, u8)| #[trigger] call_requires(arithmetic.exceeds, args),
            forall|args: (V, u8, u8)| #[trigger] call_requires(arithmetic.clip, args),
        ensures
            ticked(*old(self), *arithmetic, *final(self), event is Some),
            announces(event, now),
    {
        if self.fill(arithmetic) {
            Some(Event::Leak { timestamp: now })
        } else {
            None
        }
    }

    /// Takes the sink through the last ten milliseconds, and tells what it announces.
    pub fn handle_tick<
        F: Fn(V, Option<V>, u8, V) -> V,
        E: Fn(V, u8) -> bool,
        C: Fn(V, u8, u8) -> V,
        R,
    >(&mut self, arithmetic: &Arithmetic<F, E, C, R>) -> (event: Option<Event>)
        requires
            forall|args: (V, Option<V>, u8, V)| #[trigger] call_requires(arithmetic.fill, args),
            forall|args: (V, u8)| #[trigger] call_requires(arithmetic.exceeds, args),
            forall|args: (V, u8, u8)| #[trigger] call_requires(arithmetic.clip, args),
        ensures
            ticked(*old(self), *arithmetic, *final(self), event is Some),
            exists|now: Timestamp| #[trigger] announces(event, now),
    {
        let now = now_utc();
        self.handle_tick_at(arithmetic, now)
    }

    /// Serves a request, and gives the answer, where it has one. `read` gives a level in whole
    /// percent.
    pub fn handle_message<R: Fn(V) -> u8>(&mut self, message: Message, read: &R) -> (reply: Option<
        Reply,
    >)
        requires
            forall|args: (V,)| #[trigger] call_requires(*read, args),
        ensures
            handled(*old(self), message, *read, *final(self), reply),
    {
        match message {
            Message::GetProperties => {
                let level: u8 = read(self.level);
                Some(
                    Reply::Properties(
                        Properties {
                            flow: self.flow,
                            temperature: self.temperature,
                            drain: self.is_draining,
                            level,
                        },
                    ),
                )
            },
            Message::GetFlow => Some(Reply::Number(self.flow)),
            Message::GetDrain => Some(Reply::Flag(self.is_draining)),
            Message::GetTemperature => Some(Reply::Number(self.temperature)),
            Message::GetLevel => {
                let level: u8 = read(self.level);
                Some(Reply::Number(level))
            },
            Message::SetFlow(value) => {
                self.flow = value;
                None
            },
            Message::SetDrain(value) => {
                self.is_draining = value;
                None
            },
            Message::SetTemperature(value) => {
                self.temperature = value;
                None
            },
        }
    }
}

/// Something that happens to a running sink.
#[derive(Clone, Copy, Debug)]
pub enum LoopEvent {
    Message(Message),
    Tick,
    Stop,
}

/// What is to be done after a [`LoopEvent`].
#[derive(Clone, Copy, Debug, PartialEq, Eq)]
pub enum Action {
    /// Send the reply, where there is one, to whoever asked, and wait for what happens next.
    Reply(Option<Reply>),
    /// Announce the event, where there is one, and wait for what happens next.
    Announce(Option<Event>),
    /// Stop.
    Stop,
}

/// Takes a running sink through what happens to it.
pub fn handle_event<
    V: Copy,
    F: Fn(V, Option<V>, u8, V) -> V,
    E: Fn(V, u8) -> bool,
    C: Fn(V, u8, u8) -> V,
    R: Fn(V) -> u8,
>(sink: &mut Sink<V>, event: LoopEvent, arithmetic: &Arithmetic<F, E, C, R>) -> (action: Action)
    requires
        forall|args: (V, Option<V>, u8, V)| #[trigger] call_requires(arithmetic.fill, args),
        forall|args: (V, u8)| #[trigger] call_requires(arithmetic.exceeds, args),
        forall|args: (V, u8, u8)| #[trigger] call_requires(arithmetic.clip, args),
        forall|args: (V,)| #[trigger] call_requires(arithmetic.read, args),
    ensures
        match event {
            LoopEvent::Message(message) => {
                &&& action matches Action::Reply(reply)
                &&& handled(*old(sink), message, arithmetic.read, *final(sink), reply)
            },
            LoopEvent::Tick => {
                &&& action matches Action::Announce(event)
                &&& ticked(*old(sink), *arithmetic, *final(sink), event is Some)
                &&& exists|now: Timestamp| #[trigger] announces(event, now)
            },
            LoopEvent::Stop => action == Action::Stop && *final(sink) == *old(sink),
        },
{
    match event {
        LoopEvent::Message(message) => Action::Reply(
            sink.handle_message(message, &arithmetic.read),
        ),
        LoopEvent::Tick => Action::Announce(sink.handle_tick(arithmetic)),
        LoopEvent::Stop => Action::Stop,
    }
}

/// An event as a subscriber gets it.
#[derive(Debug)]
pub struct Notice {
    pub event: &'static str,
    /// When it was announced, where that can be written.
    pub id: Option<String>,
}

/// What a subscriber gets of an event.
pub fn handle_leak_event(event: Event) -> (notice: Notice)
    ensures
        match event {
            Event::Leak { timestamp } => {
                &&& notice.event@ == "leak"@
                &&& is_rfc3339(notice.id, timestamp)
            },
        },
{
    match event {
        Event::Leak { timestamp } => Notice { event: "leak", id: rfc3339(timestamp) },
    }
}

/// The status code for a request to set the flow, and what is asked of the sink, where the flow is
/// one that it can have.
pub fn put_flow_property(value: u8) -> (response: (u16, Option<Message>))
    ensures
        response == if value <= MAX_FLOW {
            (NO_CONTENT, Some(Message::SetFlow(value)))
        } else {
            (BAD_REQUEST, None)
        },
{
    if value > MAX_FLOW {
        return (BAD_REQUEST, None);
    }
    (NO_CONTENT, Some(Message::SetFlow(value)))
}

/// The status code for a request to set the temperature of the water, and what is asked of the
/// sink, where the temperature is one that it can have.
pub fn put_temperature_property(value: u8) -> (response: (u16, Option<Message>))
    ensures
        response == if MIN_TEMPERATURE <= value <= MAX_TEMPERATURE {
            (NO_CONTENT, Some(Message::SetTemperature(value)))
        } else {
            (BAD_REQUEST, None)
        },
{
    if value < MIN_TEMPERATURE || value > MAX_TEMPERATURE {
        return (BAD_REQUEST, None);
    }
    (NO_CONTENT, Some(Message::SetTemperature(value)))
}

/// Whether the flow and the temperature of the water are such as can be asked for.
pub open spec fn in_bounds<V>(sink: Sink<V>) -> bool {
    &&& sink.flow <= MAX_FLOW
    &&& MIN_TEMPERATURE <= sink.temperature <= MAX_TEMPERATURE
}

/// Requests that were let through keep the flow and the temperature of the water in bounds.
pub proof fn law_accepted_requests_keep_bounds<V, R: Fn(V) -> u8>(
    before: Sink<V>,
    message: Message,
    read: R,
    after: Sink<V>,
    reply: Option<Reply>,
)
    requires
        in_bounds(before),
        message matches Message::SetFlow(value) ==> value <= MAX_FLOW,
        message matches Message::SetTemperature(value) ==> MIN_TEMPERATURE <= value
            <= MAX_TEMPERATURE,
        handled(before, message, read, after, reply),
    ensures
        in_bounds(after),
        after.level == before.level,
{
}

/// What was written to a property is read back.
pub proof fn law_properties_are_read_back<V, R: Fn(V) -> u8>(
    before: Sink<V>,
    drain: bool,
    flow: u8,
    temperature: u8,
    read: R,
    sinks: (Sink<V>, Sink<V>, Sink<V>),
    after: Sink<V>,
    written: (Option<Reply>, Option<Reply>, Option<Reply>),
    replies: (Option<Reply>, Option<Reply>, Option<Reply>),
)
    requires
        handled(before, Message::SetDrain(drain), read, sinks.0, written.0),
        handled(sinks.0, Message::SetFlow(flow), read, sinks.1, written.1),
        handled(sinks.1, Message::SetTemperature(temperature), read, sinks.2, written.2),
        handled(sinks.2, Message::GetDrain, read, after, replies.0),
        handled(sinks.2, Message::GetFlow, read, after, replies.1),
        handled(sinks.2, Message::GetTemperature, read, after, replies.2),
    ensures
        replies.0 == Some(Reply::Flag(drain)),
        replies.1 == Some(Reply::Number(flow)),
        replies.2 == Some(Reply::Number(temperature)),
        after.level == before.level,
{
}

/// A step changes nothing of a sink but its level.
pub proof fn law_step_changes_only_the_level<
    V,
    F: Fn(V, Option<V>, u8, V) -> V,
    E: Fn(V, u8) -> bool,
    C: Fn(V, u8, u8) -> V,
    R,
>(before: Sink<V>, arithmetic: Arithmetic<F, E, C, R>, after: Sink<V>, leaks: bool)
    requires
        ticked(before, arithmetic, after, leaks),
    ensures
        after == (Sink { level: after.level, ..before }),
{
}

/// A sink is never emptier than empty or fuller than full, where `bounded` holds of the levels in
/// between and `clip` gives no other: a step leads to such a level, and no request changes it.
pub proof fn law_level_stays_within_bounds<
    V,
    F: Fn(V, Option<V>, u8, V) -> V,
    E: Fn(V, u8) -> bool,
    C: Fn(V, u8, u8) -> V,
    R: Fn(V) -> u8,
>(
    before: Sink<V>,
    arithmetic: Arithmetic<F, E, C, R>,
    after: Sink<V>,
    leaks: bool,
    message: Message,
    reply: Option<Reply>,
    bounded: spec_fn(V) -> bool,
)
    requires
        bounded(before.level),
        forall|level: V, clipped: V| #[trigger]
            call_ensures(arithmetic.clip, (level, MIN_LEVEL, MAX_LEVEL), clipped) ==> bounded(
                clipped,
            ),
        ticked(before, arithmetic, after, leaks) || handled(
            before,
            message,
            arithmetic.read,
            after,
            reply,
        ),
    ensures
        bounded(after.level),
{
}

/// A sink that leaks is full, where `full` holds of the levels that `clip` gives for whatever
/// `exceeds` finds over the bound.
pub proof fn law_leaking_sink_is_full<
    V,
    F: Fn(V, Option<V>, u8, V) -> V,
    E: Fn(V, u8) -> bool,
    C: Fn(V, u8, u8) -> V,
    R,
>(
    before: Sink<V>,
    arithmetic: Arithmetic<F, E, C, R>,
    after: Sink<V>,
    full: spec_fn(V) -> bool,
)
    requires
        forall|level: V, clipped: V|
            call_ensures(arithmetic.exceeds, (level, MAX_LEVEL), true)
                && #[trigger] call_ensures(arithmetic.clip, (level, MIN_LEVEL, MAX_LEVEL), clipped)
                ==> full(clipped),
        ticked(before, arithmetic, after, true),
    ensures
        full(after.level),
{
}

/// In a step of ten milliseconds the tap fills the sink with its flow while the drain lets out,
/// exactly where it is open, at its rate. The level that this leads to is kept from 0 to 100, and a
/// leak is announced exactly where it is over 100 before that, whatever else is the case. Nothing
/// but the level changes.
pub proof fn law_step_fills_and_drains<
    V: Copy,
    F: Fn(V, Option<V>, u8, V) -> V,
    E: Fn(V, u8) -> bool,
    C: Fn(V, u8, u8) -> V,
    R: Fn(V) -> u8,
>(
    sink: &mut Sink<V>,
    arithmetic: &Arithmetic<F, E, C, R>,
    action: Action,
)
    requires
        call_ensures(handle_event::<V, F, E, C, R>, (sink, LoopEvent::Tick, arithmetic), action),
    ensures
        action is Announce,
        ({
            let before = *old(sink);
            let after = *final(sink);
            let drain = if before.is_draining {
                Some(before.drain_rate)
            } else {
                None
            };
            exists|level: V|
                {
                    &&& call_ensures(
                        arithmetic.fill,
                        (before.level, drain, before.flow, before.fill_rate),
                        level,
                    )
                    &&& #[trigger] call_ensures(arithmetic.clip, (level, 0, 100), after.level)
                    &&& call_ensures(
                        arithmetic.exceeds,
                        (level, 100),
                        action->Announce_0 is Some,
                    )
                }
        }),
        final(sink).is_draining == old(sink).is_draining,
        final(sink).flow == old(sink).flow,
        final(sink).temperature == old(sink).temperature,
        final(sink).fill_rate == old(sink).fill_rate,
        final(sink).drain_rate == old(sink).drain_rate,
{
}

/// What is announced at a point in time is a leak at that very time, and it is what a subscriber
/// gets under the name of a leak and with that time.
pub proof fn law_leak_is_announced_at_its_time<
    V: Copy,
    F: Fn(V, Option<V>, u8, V) -> V,
    E: Fn(V, u8) -> bool,
    C: Fn(V, u8, u8) -> V,
    R: Fn(V) -> u8,
>(
    sink: &mut Sink<V>,
    arithmetic: &Arithmetic<F, E, C, R>,
    now: Timestamp,
    event: Option<Event>,
    notice: Notice,
)
    requires
        call_ensures(
            Sink::<V>::handle_tick_at::<F, E, C, R>,
            (sink, arithmetic, now),
            event,
        ),
        event matches Some(event) ==> call_ensures(handle_leak_event, (event,), notice),
    ensures
        event is Some ==> {
            &&& event->0->timestamp == now
            &&& notice.event@ == "leak"@
            &&& is_rfc3339(notice.id, now)
        },
{
}

/// A request to read a property is answered with its value, the level as `read` gives it, and
/// changes nothing. The others are not answered, and set what they name to the value they bring.
pub proof fn law_requests_are_served<
    V: Copy,
    F: Fn(V, Option<V>, u8, V) -> V,
    E: Fn(V, u8) -> bool,
    C: Fn(V, u8, u8) -> V,
    R: Fn(V) -> u8,
>(
    sink: &mut Sink<V>,
    message: Message,
    arithmetic: &Arithmetic<F, E, C, R>,
    action: Action,
)
    requires
        call_ensures(
            handle_event::<V, F, E, C, R>,
            (sink, LoopEvent::Message(message), arithmetic),
            action,
        ),
    ensures
        message is GetProperties ==> {
            &&& action matches Action::Reply(Some(Reply::Properties(properties)))
            &&& properties.flow == old(sink).flow
            &&& properties.temperature == old(sink).temperature
            &&& properties.drain == old(sink).is_draining
            &&& call_ensures(arithmetic.read, (old(sink).level,), properties.level)
        },
        message is GetDrain ==> action == Action::Reply(Some(Reply::Flag(old(sink).is_draining))),
        message is GetFlow ==> action == Action::Reply(Some(Reply::Number(old(sink).flow))),
        message is GetTemperature ==> action == Action::Reply(
            Some(Reply::Number(old(sink).temperature)),
        ),
        message is GetLevel ==> {
            &&& action matches Action::Reply(Some(Reply::Number(level)))
            &&& call_ensures(arithmetic.read, (old(sink).level,), level)
        },
        message is SetDrain || message is SetFlow || message is SetTemperature ==> action
            == Action::Reply(None),
        message matches Message::SetDrain(value) ==> final(sink).is_draining == value,
        !(message is SetDrain) ==> final(sink).is_draining == old(sink).is_draining,
        message matches Message::SetFlow(value) ==> final(sink).flow == value,
        !(message is SetFlow) ==> final(sink).flow == old(sink).flow,
        message matches Message::SetTemperature(value) ==> final(sink).temperature == value,
        !(message is SetTemperature) ==> final(sink).temperature == old(sink).temperature,
        final(sink).level == old(sink).level,
        final(sink).fill_rate == old(sink).fill_rate,
        final(sink).drain_rate == old(sink).drain_rate,
{
}

/// A sink that stops stays as it is.
pub proof fn law_sink_stops<
    V: Copy,
    F: Fn(V, Option<V>, u8, V) -> V,
    E: Fn(V, u8) -> bool,
    C: Fn(V, u8, u8) -> V,
    R: Fn(V) -> u8,
>(
    sink: &mut Sink<V>,
    arithmetic: &Arithmetic<F, E, C, R>,
    action: Action,
)
    requires
        call_ensures(handle_event::<V, F, E, C, R>, (sink, LoopEvent::Stop, arithmetic), action),
    ensures
        action is Stop,
        *final(sink) == *old(sink),
{
}

/// A flow is let through where it is at most 100, and a temperature where it is from 10 to 80
/// degrees; the sink is then asked for that very value. All others are refused, and ask nothing of
/// the sink.
pub proof fn law_values_out_of_bounds_are_refused(
    value: u8,
    flow: (u16, Option<Message>),
    temperature: (u16, Option<Message>),
)
    requires
        call_ensures(put_flow_property, (value,), flow),
        call_ensures(put_temperature_property, (value,), temperature),
    ensures
        value <= 100 ==> flow == (204u16, Some(Message::SetFlow(value))),
        value > 100 ==> flow == (400u16, None::<Message>),
        10 <= value <= 80 ==> temperature == (204u16, Some(Message::SetTemperature(value))),
        value < 10 || value > 80 ==> temperature == (400u16, None::<Message>),
{
}

} // verus!
