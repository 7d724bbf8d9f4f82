//! An oven that heats up to a temperature and keeps it, and whose door is opened now and then.
//!
//! Temperatures are of any type; what there is to compute on them is handed in.
use crate::clock::Span;
use crate::simulation::Simulation;
use crate::target_range::{is_range, target_range, TargetRange};
use vstd::prelude::*;

verus! {

/// The lowest temperature of an oven.
pub const MIN_TEMPERATURE: u8 = 25;

/// The highest temperature of an oven.
pub const MAX_TEMPERATURE: u8 = 250;

/// The state of an oven.
#[derive(Debug)]
pub struct OvenStatus<V> {
    pub open: bool,
    pub on: bool,
    pub temperature: V,
    pub target_temperature: u8,
}

/// How fast the temperature changes, per step of ten milliseconds, and how far it may be off.
#[derive(Debug)]
pub struct Deltas<V> {
    /// What heating adds.
    pub increase: V,
    /// What is lost while the door is open.
    pub door_open: V,
    /// What is lost while the door is closed.
    pub door_close: V,
    /// How far the temperature may be off.
    pub target_range: V,
}

/// A step of the script of an oven's door.
#[derive(Clone, Copy, Debug)]
pub struct OvenSimulation {
    pub wait: Span,
    pub open: Option<bool>,
}

/// What a step of the script changes.
#[derive(Clone, Copy, Debug, PartialEq, Eq)]
pub struct OvenSimulationOutput {
    pub open: Option<bool>,
}

impl Simulation for OvenSimulation {
    type Output = OvenSimulationOutput;

    open spec fn output(self) -> OvenSimulationOutput {
        OvenSimulationOutput { open: self.open }
    }

    open spec fn wait(self) -> Span {
        self.wait
    }

    fn output_and_wait(self) -> (parts: (OvenSimulationOutput, Span)) {
        let OvenSimulation { wait, open } = self;
        (OvenSimulationOutput { open }, wait)
    }
}

/// What an oven starts from, its script, and how its temperature changes.
#[derive(Debug)]
pub struct OvenConfig<V> {
    pub initial: OvenStatus<V>,
    pub simulation: Vec<OvenSimulation>,
    pub deltas: Deltas<V>,
}

/// The step that opens or closes the door after the given number of seconds.
pub open spec fn after_secs(secs: int, open: bool) -> OvenSimulation {
    OvenSimulation { wait: Span { nanos: (secs * 1_000_000_000) as u128 }, open: Some(open) }
}

/// The script that is offered as an example: the door is opened twice.
pub fn example_simulation() -> (simulation: Vec<OvenSimulation>)
    ensures
        simulation@ == seq![
            after_secs(3, true),
            after_secs(8, false),
            after_secs(15, true),
            after_secs(3, false),
        ],
{
    vec![
        OvenSimulation { wait: Span::from_secs(3), open: Some(true) },
        OvenSimulation { wait: Span::from_secs(8), open: Some(false) },
        OvenSimulation { wait: Span::from_secs(15), open: Some(true) },
        OvenSimulation { wait: Span::from_secs(3), open: Some(false) },
    ]
}

/// A running oven.
#[derive(Debug)]
pub struct Oven<V> {
    pub status: OvenStatus<V>,
    pub deltas: Deltas<V>,
    pub heating: bool,
}

/// What there is to compute on temperatures.
#[derive(Debug)]
pub struct Arithmetic<B, W, H, R> {
    /// Whether a temperature is under the range around the one that is aimed at.
    pub below: B,
    /// Whether a temperature is not over the range around the one that is aimed at.
    pub within: W,
    /// A temperature after a loss and, where there is one, a gain, kept between two bounds.
    pub change: H,
    /// A temperature in whole degrees.
    pub read: R,
}

/// Whether the oven heats after it has looked at its temperature.
pub open spec fn heating_after(on: bool, heating: bool, range: TargetRange) -> bool {
    if !on {
        false
    } else if heating {
        range != TargetRange::Above
    } else {
        range == TargetRange::Below
    }
}

impl<V> Oven<V> {
    /// What the oven loses in a step.
    pub open spec fn loss(self) -> V {
        if self.status.open {
            self.deltas.door_open
        } else {
            self.deltas.door_close
        }
    }

    /// What the oven gains in a step, where it heats.
    pub open spec fn gain(self) -> Option<V> {
        if self.heating {
            Some(self.deltas.increase)
        } else {
            None
        }
    }
}

impl<V: Copy> Oven<V> {
    /// The oven at the start, and its script.
    pub fn new(config: OvenConfig<V>) -> (parts: (Oven<V>, Vec<OvenSimulation>))
        ensures
            parts.0.status == config.initial,
            parts.0.deltas == config.deltas,
            !parts.0.heating,
            parts.1 == config.simulation,
    {
        let OvenConfig { initial, simulation, deltas } = config;
        (Oven { status: initial, deltas, heating: false }, simulation)
    }

    /// Turns the heating on or off as the temperature asks for, and tells what the oven loses and
    /// gains then.
    pub fn regulate(&mut self, range: TargetRange) -> (change: (V, Option<V>))
        ensures
            *final(self) == (Oven {
                heating: heating_after(old(self).status.on, old(self).heating, range),
                ..*old(self)
            }),
            change == (final(self).loss(), final(self).gain()),
    {
        if self.status.on {
            if matches!(
                (self.heating, range),
                (true, TargetRange::Above) | (false, TargetRange::Below)
            ) {
                self.heating = !self.heating;
            }
        } else {
            self.heating = false;
        }
        let loss = if self.status.open {
            self.deltas.door_open
        } else {
            self.deltas.door_close
        };
        let gain = if self.heating {
            Some(self.deltas.increase)
        } else {
            None
        };
        (loss, gain)
    }

    /// Takes the oven through ten milliseconds.
    pub fn handle_tick<
        B: Fn(V, u8, V) -> bool,
        W: Fn(V, u8, V) -> bool,
        H: Fn(V, V, Option<V>, u8, u8) -> V,
        R,
    >(&mut self, arithmetic: &Arithmetic<B, W, H, R>)
        requires
            forall|args: (V, u8, V)| #[trigger] call_requires(arithmetic.below, args),
            forall|args: (V, u8, V)| #[trigger] call_requires(arithmetic.within, args),
            forall|args: (V, V, Option<V>, u8, u8)| #[trigger]
                call_requires(arithmetic.change, args),
        ensures
            ticked(*old(self), *arithmetic, *final(self)),
    {
        let (loss, gain) = if self.status.on {
            let range = target_range(
                &arithmetic.below,
                &arithmetic.within,
                self.status.temperature,
                self.status.target_temperature,
                self.deltas.target_range,
            );
            self.regulate(range)
        } else {
            self.regulate(TargetRange::InRange)
        };
        let change = &arithmetic.change;
        self.status.temperature = change(
            self.status.temperature,
            loss,
            gain,
            MIN_TEMPERATURE,
            MAX_TEMPERATURE,
        );
    }

    /// Serves a request, and gives the answer, where it has one. `read` gives a temperature in
    /// whole degrees.
    pub fn handle_message<R: Fn(V) -> u8>(&mut self, message: Message, read: &R) -> (reply: Option<
        Reply,
    >)
        requires
            forall|args: (V,)| #[trigger] call_requires(*read, args),
        ensures
            handled(*old(self), message, *read, *final(self), reply),
    {
        match message {
            Message::GetProperties => {
                let temperature: u8 = read(self.status.temperature);
                Some(
                    Reply::Properties(
                        Properties {
                            open: self.status.open,
                            temperature,
                            target_temperature: self.status.target_temperature,
                        },
                    ),
                )
            },
            Message::GetTargetTemperature => Some(
                Reply::Degrees(self.status.target_temperature),
            ),
            Message::GetTemperature => {
                let temperature: u8 = read(self.status.temperature);
                Some(Reply::Degrees(temperature))
            },
            Message::GetOpen => Some(Reply::Flag(self.status.open)),
            Message::GetIsOn => Some(Reply::Flag(self.status.on)),
            Message::SetTargetTemperature(value) => {
                self.status.target_temperature = value;
                None
            },
            Message::SetIsOn(value) => {
                self.status.on = value;
                None
            },
        }
    }
}

/// What a step of ten milliseconds makes of an oven.
pub open spec fn ticked<
    V,
    B: Fn(V, u8, V) -> bool,
    W: Fn(V, u8, V) -> bool,
    H: Fn(V, V, Option<V>, u8, u8) -> V,
    R,
>(before: Oven<V>, arithmetic: Arithmetic<B, W, H, R>, after: Oven<V>) -> bool {
    exists|range: TargetRange|
        {
            &&& before.status.on ==> is_range(
                arithmetic.below,
                arithmetic.within,
                (
                    before.status.temperature,
                    before.status.target_temperature,
                    before.deltas.target_range,
                ),
                range,
            )
            &&& after.heating == #[trigger] heating_after(
                before.status.on,
                before.heating,
                range,
            )
            &&& call_ensures(
                arithmetic.change,
                (
                    before.status.temperature,
                    after.loss(),
                    after.gain(),
                    MIN_TEMPERATURE,
                    MAX_TEMPERATURE,
                ),
                after.status.temperature,
            )
            &&& after.deltas == before.deltas
            &&& after.status == (OvenStatus {
                temperature: after.status.temperature,
                ..before.status
            })
        }
}

/// A request to an oven.
#[derive(Clone, Copy, Debug)]
pub enum Message {
    GetProperties,
    GetTargetTemperature,
    GetTemperature,
    GetOpen,
    GetIsOn,
    SetTargetTemperature(u8),
    SetIsOn(bool),
}

/// What can be read of an oven at once.
#[derive(Clone, Copy, Debug, PartialEq, Eq)]
pub struct Properties {
    pub open: bool,
    pub temperature: u8,
    pub target_temperature: u8,
}

/// The answer to a [`Message`].
#[derive(Clone, Copy, Debug, PartialEq, Eq)]
pub enum Reply {
    Properties(Properties),
    Degrees(u8),
    Flag(bool),
}

/// What serving a request makes of an oven, and what is answered.
pub open spec fn handled<V, R: Fn(V) -> u8>(
    before: Oven<V>,
    message: Message,
    read: R,
    after: Oven<V>,
    reply: Option<Reply>,
) -> bool {
    match message {
        Message::GetProperties => {
            &&& after == before
            &&& reply matches Some(Reply::Properties(properties))
            &&& call_ensures(read, (before.status.temperature,), properties.temperature)
            &&& properties == (Properties {
                open: before.status.open,
                temperature: properties.temperature,
                target_temperature: before.status.target_temperature,
            })
        },
        Message::GetTargetTemperature => {
            &&& after == before
            &&& reply == Some(Reply::Degrees(before.status.target_temperature))
        },
        Message::GetTemperature => {
            &&& after == before
            &&& reply matches Some(Reply::Degrees(degrees))
            &&& call_ensures(read, (before.status.temperature,), degrees)
        },
        Message::GetOpen => after == before && reply == Some(Reply::Flag(before.status.open)),
        Message::GetIsOn => after == before && reply == Some(Reply::Flag(before.status.on)),
        Message::SetTargetTemperature(value) => {
            &&& after == (Oven {
                status: OvenStatus { target_temperature: value, ..before.status },
                ..before
            })
            &&& reply is None
        },
        Message::SetIsOn(value) => {
            &&& after == (Oven { status: OvenStatus { on: value, ..before.status }, ..before })
            &&& reply is None
        },
    }
}

/// Something that happens to a running oven.
#[derive(Debug)]
pub enum Event<V> {
    Message(Message),
    Config(OvenConfig<V>),
    NextStatus(OvenSimulationOutput),
    Tick,
    Stop,
}

/// What is to be done after an [`Event`].
#[derive(Debug)]
pub enum Action {
    /// Wait for the next event.
    Continue,
    /// Send the reply, where there is one, to whoever asked, and wait for the next event.
    Reply(Option<Reply>),
    /// Follow a new script from its start, start the interval between the steps anew, and wait for
    /// the next event.
    Restart(Vec<OvenSimulation>),
    /// Stop.
    Stop,
}

/// Takes a running oven through one event. A new configuration does not turn the heating off.
pub fn handle_event<
    V: Copy,
    B: Fn(V, u8, V) -> bool,
    W: Fn(V, u8, V) -> bool,
    H: Fn(V, V, Option<V>, u8, u8) -> V,
    R: Fn(V) -> u8,
>(oven: &mut Oven<V>, event: Event<V>, arithmetic: &Arithmetic<B, W, H, R>) -> (action: Action)
    requires
        forall|args: (V, u8, V)| #[trigger] call_requires(arithmetic.below, args),
        forall|args: (V, u8, V)| #[trigger] call_requires(arithmetic.within, args),
        forall|args: (V, V, Option<V>, u8, u8)| #[trigger] call_requires(arithmetic.change, args),
        forall|args: (V,)| #[trigger] call_requires(arithmetic.read, args),
    ensures
        match event {
            Event::Message(message) => {
                &&& action matches Action::Reply(reply)
                &&& handled(*old(oven), message, arithmetic.read, *final(oven), reply)
            },
            Event::Config(config) => {
                &&& action == Action::Restart(config.simulation)
                &&& *final(oven) == (Oven {
                    status: config.initial,
                    deltas: config.deltas,
                    heating: old(oven).heating,
                })
            },
            Event::NextStatus(next_status) => {
                &&& action == Action::Continue
                &&& *final(oven) == (Oven {
                    status: OvenStatus {
                        open: match next_status.open {
                            Some(open) => open,
                            None => old(oven).status.open,
                        },
                        ..old(oven).status
                    },
                    ..*old(oven)
                })
            },
            Event::Tick => action == Action::Continue && ticked(
                *old(oven),
                *arithmetic,
                *final(oven),
            ),
            Event::Stop => action == Action::Stop && *final(oven) == *old(oven),
        },
{
    match event {
        Event::Message(message) => Action::Reply(oven.handle_message(message, &arithmetic.read)),
        Event::Config(config) => {
            let OvenConfig { initial, simulation, deltas } = config;
            oven.status = initial;
            oven.deltas = deltas;
            Action::Restart(simulation)
        },
        Event::NextStatus(next_status) => {
            if let Some(open) = next_status.open {
                oven.status.open = open;
            }
            Action::Continue
        },
        Event::Tick => {
            oven.handle_tick(arithmetic);
            Action::Continue
        },
        Event::Stop => Action::Stop,
    }
}

/// An oven that is off does not heat. One that is on heats whenever it is under its range and never
/// when it is over it; in the range it goes on as it did.
pub proof fn law_heating_follows_the_range(on: bool, heating: bool, range: TargetRange)
    ensures
        !on ==> !heating_after(on, heating, range),
        on && range == TargetRange::Below ==> heating_after(on, heating, range),
        range == TargetRange::Above ==> !heating_after(on, heating, range),
        on && range == TargetRange::InRange ==> heating_after(on, heating, range) == heating,
        heating_after(on, heating_after(on, heating, range), range) == heating_after(
            on,
            heating,
            range,
        ),
{
}

/// What was written to a property is read back, and nothing else changes.
pub proof fn law_properties_are_read_back<V, R: Fn(V) -> u8>(
    before: Oven<V>,
    on: bool,
    target: u8,
    read: R,
    switched: Oven<V>,
    written: Oven<V>,
    after: Oven<V>,
    replies: (Option<Reply>, Option<Reply>, Option<Reply>, Option<Reply>),
)
    requires
        handled(before, Message::SetIsOn(on), read, switched, replies.0),
        handled(switched, Message::SetTargetTemperature(target), read, written, replies.1),
        handled(written, Message::GetIsOn, read, after, replies.2),
        handled(written, Message::GetTargetTemperature, read, after, replies.3),
    ensures
        replies.2 == Some(Reply::Flag(on)),
        replies.3 == Some(Reply::Degrees(target)),
        after.status.open == before.status.open,
        after.status.temperature == before.status.temperature,
        after.heating == before.heating,
{
}

/// Neither a request nor a step opens or closes the door.
pub proof fn law_only_the_script_moves_the_door<
    V,
    B: Fn(V, u8, V) -> bool,
    W: Fn(V, u8, V) -> bool,
    H: Fn(V, V, Option<V>, u8, u8) -> V,
    R: Fn(V) -> u8,
>(
    before: Oven<V>,
    message: Message,
    arithmetic: Arithmetic<B, W, H, R>,
    after: Oven<V>,
    reply: Option<Reply>,
)
    requires
        handled(before, message, arithmetic.read, after, reply) || ticked(
            before,
            arithmetic,
            after,
        ),
    ensures
        after.status.open == before.status.open,
{
}

/// The temperature of an oven stays within bounds, where `bounded` holds of the temperatures within
/// them and `change` gives no other: a step leads to such a temperature, and no request changes it.
pub proof fn law_temperature_stays_within_bounds<
    V,
    B: Fn(V, u8, V) -> bool,
    W: Fn(V, u8, V) -> bool,
    H: Fn(V, V, Option<V>, u8, u8) -> V,
    R: Fn(V) -> u8,
>(
    before: Oven<V>,
    message: Message,
    arithmetic: Arithmetic<B, W, H, R>,
    after: Oven<V>,
    reply: Option<Reply>,
    bounded: spec_fn(V) -> bool,
)
    requires
        bounded(before.status.temperature),
        forall|temperature: V, loss: V, gain: Option<V>, changed: V| #[trigger]
            call_ensures(
                arithmetic.change,
                (temperature, loss, gain, MIN_TEMPERATURE, MAX_TEMPERATURE),
                changed,
            ) ==> bounded(changed),
        ticked(before, arithmetic, after) || handled(
            before,
            message,
            arithmetic.read,
            after,
            reply,
        ),
    ensures
        bounded(after.status.temperature),
{
}

/// An oven that heats after it has looked at its temperature gains what heating adds, and any other
/// gains nothing, whatever the state of its door; it loses what its door lets out, whether it heats
/// or not. Only an oven that is on heats: under its range always, over it never, and in it as it
/// did before.
pub proof fn law_heating_adds_and_the_door_takes<V: Copy>(
    oven: &mut Oven<V>,
    range: TargetRange,
    change: (V, Option<V>),
)
    requires
        call_ensures(Oven::<V>::regulate, (oven, range), change),
    ensures
        final(oven).heating ==> change.1 == Some(old(oven).deltas.increase),
        !final(oven).heating ==> change.1 is None,
        old(oven).status.open ==> change.0 == old(oven).deltas.door_open,
        !old(oven).status.open ==> change.0 == old(oven).deltas.door_close,
        !old(oven).status.on ==> !final(oven).heating,
        old(oven).status.on && range is Below ==> final(oven).heating,
        old(oven).status.on && range is Above ==> !final(oven).heating,
        old(oven).status.on && range is InRange ==> final(oven).heating == old(oven).heating,
        final(oven).status == old(oven).status,
        final(oven).deltas == old(oven).deltas,
{
}

/// A step of ten milliseconds takes the temperature of an oven on by the loss through its door, as
/// it is, and by what heating adds exactly where the oven heats then, and keeps it from 25 to 250
/// degrees. It changes nothing else but whether the oven heats.
pub proof fn law_step_changes_the_temperature<
    V: Copy,
    B: Fn(V, u8, V) -> bool,
    W: Fn(V, u8, V) -> bool,
    H: Fn(V, V, Option<V>, u8, u8) -> V,
    R: Fn(V) -> u8,
>(
    oven: &mut Oven<V>,
    arithmetic: &Arithmetic<B, W, H, R>,
    action: Action,
)
    requires
        call_ensures(handle_event::<V, B, W, H, R>, (oven, Event::Tick, arithmetic), action),
    ensures
        action == Action::Continue,
        ({
            let before = *old(oven);
            let after = *final(oven);
            let loss = if before.status.open {
                before.deltas.door_open
            } else {
                before.deltas.door_close
            };
            let gain = if after.heating {
                Some(before.deltas.increase)
            } else {
                None
            };
            call_ensures(
                arithmetic.change,
                (before.status.temperature, loss, gain, 25, 250),
                after.status.temperature,
            )
        }),
        final(oven).status.open == old(oven).status.open,
        final(oven).status.on == old(oven).status.on,
        final(oven).status.target_temperature == old(oven).status.target_temperature,
        final(oven).deltas == old(oven).deltas,
{
}

/// In a step, an oven that is off stops heating. One that is on heats where its temperature is
/// under the range around the one that is aimed at and does not where it is over it; in between it
/// goes on as it did. The door has no part in that.
pub proof fn law_step_regulates_the_heating<
    V: Copy,
    B: Fn(V, u8, V) -> bool,
    W: Fn(V, u8, V) -> bool,
    H: Fn(V, V, Option<V>, u8, u8) -> V,
    R: Fn(V) -> u8,
>(
    oven: &mut Oven<V>,
    arithmetic: &Arithmetic<B, W, H, R>,
    action: Action,
    is_below: bool,
    is_within: bool,
)
    requires
        call_ensures(handle_event::<V, B, W, H, R>, (oven, Event::Tick, arithmetic), action),
        ({
            let args = (
                old(oven).status.temperature,
                old(oven).status.target_temperature,
                old(oven).deltas.target_range,
            );
            &&& forall|answer: bool| #[trigger]
                call_ensures(arithmetic.below, args, answer) ==> answer == is_below
            &&& forall|answer: bool| #[trigger]
                call_ensures(arithmetic.within, args, answer) ==> answer == is_within
        }),
    ensures
        !old(oven).status.on ==> !final(oven).heating,
        old(oven).status.on && is_below ==> final(oven).heating,
        old(oven).status.on && !is_below && !is_within ==> !final(oven).heating,
        old(oven).status.on && !is_below && is_within ==> final(oven).heating == old(oven).heating,
{
}

/// A step of the script opens or closes the door as it says, and leaves all else as it was.
pub proof fn law_script_moves_the_door<
    V: Copy,
    B: Fn(V, u8, V) -> bool,
    W: Fn(V, u8, V) -> bool,
    H: Fn(V, V, Option<V>, u8, u8) -> V,
    R: Fn(V) -> u8,
>(
    oven: &mut Oven<V>,
    step: OvenSimulationOutput,
    arithmetic: &Arithmetic<B, W, H, R>,
    action: Action,
)
    requires
        call_ensures(
            handle_event::<V, B, W, H, R>,
            (oven, Event::NextStatus(step), arithmetic),
            action,
        ),
    ensures
        action == Action::Continue,
        step.open matches Some(open) ==> final(oven).status.open == open,
        step.open is None ==> final(oven).status.open == old(oven).status.open,
        final(oven).status.on == old(oven).status.on,
        final(oven).status.temperature == old(oven).status.temperature,
        final(oven).status.target_temperature == old(oven).status.target_temperature,
        final(oven).heating == old(oven).heating,
        final(oven).deltas == old(oven).deltas,
{
}

/// A new configuration puts an oven where it starts, with the changes that it names, and has its
/// script followed from the start; only whether the oven is heating stays. One that stops stays as
/// it is.
pub proof fn law_configuration_restarts<
    V: Copy,
    B: Fn(V, u8, V) -> bool,
    W: Fn(V, u8, V) -> bool,
    H: Fn(V, V, Option<V>, u8, u8) -> V,
    R: Fn(V) -> u8,
>(
    oven: &mut Oven<V>,
    event: Event<V>,
    arithmetic: &Arithmetic<B, W, H, R>,
    action: Action,
)
    requires
        call_ensures(handle_event::<V, B, W, H, R>, (oven, event, arithmetic), action),
    ensures
        event matches Event::Config(config) ==> {
            &&& action == Action::Restart(config.simulation)
            &&& final(oven).status == config.initial
            &&& final(oven).deltas == config.deltas
            &&& final(oven).heating == old(oven).heating
        },
        event is Stop ==> action == Action::Stop && *final(oven) == *old(oven),
{
}

/// An oven starts as it is configured, and is not heating at first.
pub proof fn law_start_is_configured<V: Copy>(
    config: OvenConfig<V>,
    parts: (Oven<V>, Vec<OvenSimulation>),
)
    requires
        call_ensures(Oven::<V>::new, (config,), parts),
    ensures
        parts.0.status == config.initial,
        parts.0.deltas == config.deltas,
        !parts.0.heating,
        parts.1@ == config.simulation@,
{
}

/// A request to read a property is answered with its value, the temperature as `read` gives it, and
/// changes nothing. The others are not answered, and set what they name to the value they bring.
pub proof fn law_requests_are_served<
    V: Copy,
    B: Fn(V, u8, V) -> bool,
    W: Fn(V, u8, V) -> bool,
    H: Fn(V, V, Option<V>, u8, u8) -> V,
    R: Fn(V) -> u8,
>(
    oven: &mut Oven<V>,
    message: Message,
    arithmetic: &Arithmetic<B, W, H, R>,
    action: Action,
)
    requires
        call_ensures(
            handle_event::<V, B, W, H, R>,
            (oven, Event::Message(message), arithmetic),
            action,
        ),
    ensures
        message is GetProperties ==> {
            &&& action matches Action::Reply(Some(Reply::Properties(properties)))
            &&& properties.open == old(oven).status.open
            &&& properties.target_temperature == old(oven).status.target_temperature
            &&& call_ensures(
                arithmetic.read,
                (old(oven).status.temperature,),
                properties.temperature,
            )
        },
        message is GetTemperature ==> {
            &&& action matches Action::Reply(Some(Reply::Degrees(degrees)))
            &&& call_ensures(arithmetic.read, (old(oven).status.temperature,), degrees)
        },
        message is GetTargetTemperature ==> action == Action::Reply(
            Some(Reply::Degrees(old(oven).status.target_temperature)),
        ),
        message is GetOpen ==> action == Action::Reply(Some(Reply::Flag(old(oven).status.open))),
        message is GetIsOn ==> action == Action::Reply(Some(Reply::Flag(old(oven).status.on))),
        message is SetTargetTemperature || message is SetIsOn ==> action == Action::Reply(None),
        message matches Message::SetTargetTemperature(value) ==> final(
            oven
        ).status.target_temperature == value,
        !(message is SetTargetTemperature) ==> final(oven).status.target_temperature == old(
            oven
        ).status.target_temperature,
        message matches Message::SetIsOn(value) ==> final(oven).status.on == value,
        !(message is SetIsOn) ==> final(oven).status.on == old(oven).status.on,
        final(oven).status.open == old(oven).status.open,
        final(oven).status.temperature == old(oven).status.temperature,
        final(oven).heating == old(oven).heating,
        final(oven).deltas == old(oven).deltas,
{
}

/// A step of the script does after its wait what it says.
pub proof fn law_step_is_handed_on(step: OvenSimulation, parts: (OvenSimulationOutput, Span))
    requires
        call_ensures(OvenSimulation::output_and_wait, (step,), parts),
    ensures
        parts.0.open == step.open,
        parts.1 == step.wait,
{
}

} // verus!
