//! A fridge that cools down to a temperature and keeps it, and whose door is opened now and then.
//!
//! Temperatures are of any type; what there is to compute on them is handed in.
use crate::clock::Span;
use crate::simulation::Simulation;
use crate::target_range::{is_range, target_range, TargetRange};
use vstd::prelude::*;

verus! {

/// The state of a fridge.
#[derive(Debug)]
pub struct FridgeStatus<V> {
    pub open: bool,
    pub temperature: V,
    pub target_temperature: i8,
}

/// How fast the temperature changes, per step of ten milliseconds, and how far it may be off.
#[derive(Debug)]
pub struct Deltas<V> {
    /// What cooling takes away.
    pub decrease: V,
    /// What comes in while the door is open.
    pub door_open: V,
    /// What comes in while the door is closed.
    pub door_close: V,
    /// How far the temperature may be off.
    pub target_range: V,
}

/// A step of the script of a fridge's door.
#[derive(Clone, Copy, Debug)]
pub struct FridgeSimulation {
    pub wait: Span,
    pub open: Option<bool>,
}

/// What a step of the script changes.
#[derive(Clone, Copy, Debug, PartialEq, Eq)]
pub struct FridgeSimulationOutput {
    pub open: Option<bool>,
}

impl Simulation for FridgeSimulation {
    type Output = FridgeSimulationOutput;

    open spec fn output(self) -> FridgeSimulationOutput {
        FridgeSimulationOutput { open: self.open }
    }

    open spec fn wait(self) -> Span {
        self.wait
    }

    fn output_and_wait(self) -> (parts: (FridgeSimulationOutput, Span)) {
        let FridgeSimulation { wait, open } = self;
        (FridgeSimulationOutput { open }, wait)
    }
}

/// What a fridge starts from, its script, and how its temperature changes.
#[derive(Debug)]
pub struct FridgeConfig<V> {
    pub initial: FridgeStatus<V>,
    pub simulation: Vec<FridgeSimulation>,
    pub deltas: Deltas<V>,
}

/// The step that opens or closes the door after the given number of seconds.
pub open spec fn after_secs(secs: int, open: bool) -> FridgeSimulation {
    FridgeSimulation { wait: Span { nanos: (secs * 1_000_000_000) as u128 }, open: Some(open) }
}

/// The script that is offered as an example: the door is opened twice.
pub fn example_simulation() -> (simulation: Vec<FridgeSimulation>)
    ensures
        simulation@ == seq![
            after_secs(3, true),
            after_secs(8, false),
            after_secs(15, true),
            after_secs(3, false),
        ],
{
    vec![
        FridgeSimulation { wait: Span::from_secs(3), open: Some(true) },
        FridgeSimulation { wait: Span::from_secs(8), open: Some(false) },
        FridgeSimulation { wait: Span::from_secs(15), open: Some(true) },
        FridgeSimulation { wait: Span::from_secs(3), open: Some(false) },
    ]
}

/// A running fridge.
#[derive(Debug)]
pub struct Fridge<V> {
    pub status: FridgeStatus<V>,
    pub deltas: Deltas<V>,
    pub cooling: bool,
}

/// What there is to compute on temperatures.
#[derive(Debug)]
pub struct Arithmetic<B, W, C, R> {
    /// Whether a temperature is under the range around the one that is aimed at.
    pub below: B,
    /// Whether a temperature is not over the range around the one that is aimed at.
    pub within: W,
    /// A temperature after a gain and, where there is one, a loss.
    pub change: C,
    /// A temperature in whole degrees.
    pub read: R,
}

/// Whether the fridge cools after it has looked at its temperature.
pub open spec fn cooling_after(cooling: bool, range: TargetRange) -> bool {
    if cooling {
        range != TargetRange::Below
    } else {
        range == TargetRange::Above
    }
}

impl<V> Fridge<V> {
    /// What the fridge gains in a step.
    pub open spec fn gain(self) -> V {
        if self.status.open {
            self.deltas.door_open
        } else {
            self.deltas.door_close
        }
    }

    /// What the fridge loses in a step, where it cools.
    pub open spec fn loss(self) -> Option<V> {
        if self.cooling {
            Some(self.deltas.decrease)
        } else {
            None
        }
    }
}

impl<V: Copy> Fridge<V> {
    /// The fridge at the start, and its script.
    pub fn new(config: FridgeConfig<V>) -> (parts: (Fridge<V>, Vec<FridgeSimulation>))
        ensures
            parts.0.status == config.initial,
            parts.0.deltas == config.deltas,
            !parts.0.cooling,
            parts.1 == config.simulation,
    {
        let FridgeConfig { initial, simulation, deltas } = config;
        (Fridge { status: initial, deltas, cooling: false }, simulation)
    }

    /// Turns the cooling on or off as the temperature asks for, and tells what the fridge gains and
    /// loses then.
    pub fn regulate(&mut self, range: TargetRange) -> (change: (V, Option<V>))
        ensures
            *final(self) == (Fridge {
                cooling: cooling_after(old(self).cooling, range),
                ..*old(self)
            }),
            change == (final(self).gain(), final(self).loss()),
    {
        if matches!(
            (self.cooling, range),
            (true, TargetRange::Below) | (false, TargetRange::Above)
        ) {
            self.cooling = !self.cooling;
        }
        let gain = if self.status.open {
            self.deltas.door_open
        } else {
            self.deltas.door_close
        };
        let loss = if self.cooling {
            Some(self.deltas.decrease)
        } else {
            None
        };
        (gain, loss)
    }

    /// Takes the fridge through ten milliseconds.
    pub fn handle_tick<
        B: Fn(V, i8, V) -> bool,
        W: Fn(V, i8, V) -> bool,
        C: Fn(V, V, Option<V>) -> V,
        R,
    >(&mut self, arithmetic: &Arithmetic<B, W, C, R>)
        requires
            forall|args: (V, i8, V)| #[trigger] call_requires(arithmetic.below, args),
            forall|args: (V, i8, V)| #[trigger] call_requires(arithmetic.within, args),
            forall|args: (V, V, Option<V>)| #[trigger] call_requires(arithmetic.change, args),
        ensures
            ticked(*old(self), *arithmetic, *final(self)),
    {
        let range = target_range(
            &arithmetic.below,
            &arithmetic.within,
            self.status.temperature,
            self.status.target_temperature,
            self.deltas.target_range,
        );
        let (gain, loss) = self.regulate(range);
        let change = &arithmetic.change;
        self.status.temperature = change(self.status.temperature, gain, loss);
    }

    /// Serves a request, and gives the answer, where it has one. `read` gives a temperature in
    /// whole degrees.
    pub fn handle_message<R: Fn(V) -> i8>(&mut self, message: Message, read: &R) -> (reply: Option<
        Reply,
    >)
        requires
            forall|args: (V,)| #[trigger] call_requires(*read, args),
        ensures
            handled(*old(self), message, *read, *final(self), reply),
    {
        match message {
            Message::GetProperties => {
                let temperature: i8 = read(self.status.temperature);
                Some(
                    Reply::Properties(
                        Properties {
                            open: self.status.open,
                            temperature,
                            target_temperature: self.status.target_temperature,
                        },
                    ),
                )
            },
            Message::GetTargetTemperature => Some(
                Reply::Degrees(self.status.target_temperature),
            ),
            Message::GetTemperature => {
                let temperature: i8 = read(self.status.temperature);
                Some(Reply::Degrees(temperature))
            },
            Message::GetOpen => Some(Reply::Flag(self.status.open)),
            Message::SetTargetTemperature(value) => {
                self.status.target_temperature = value;
                None
            },
        }
    }
}

/// What a step of ten milliseconds makes of a fridge.
pub open spec fn ticked<
    V,
    B: Fn(V, i8, V) -> bool,
    W: Fn(V, i8, V) -> bool,
    C: Fn(V, V, Option<V>) -> V,
    R,
>(before: Fridge<V>, arithmetic: Arithmetic<B, W, C, R>, after: Fridge<V>) -> bool {
    exists|range: TargetRange|
        {
            &&& is_range(
                arithmetic.below,
                arithmetic.within,
                (
                    before.status.temperature,
                    before.status.target_temperature,
                    before.deltas.target_range,
                ),
                range,
            )
            &&& after.cooling == #[trigger] cooling_after(before.cooling, range)
            &&& call_ensures(
                arithmetic.change,
                (before.status.temperature, after.gain(), after.loss()),
                after.status.temperature,
            )
            &&& after.deltas == before.deltas
            &&& after.status == (FridgeStatus {
                temperature: after.status.temperature,
                ..before.status
            })
        }
}

/// A request to a fridge.
#[derive(Clone, Copy, Debug)]
pub enum Message {
    GetProperties,
    GetTargetTemperature,
    GetTemperature,
    GetOpen,
    SetTargetTemperature(i8),
}

/// What can be read of a fridge at once.
#[derive(Clone, Copy, Debug, PartialEq, Eq)]
pub struct Properties {
    pub open: bool,
    pub temperature: i8,
    pub target_temperature: i8,
}

/// The answer to a [`Message`].
#[derive(Clone, Copy, Debug, PartialEq, Eq)]
pub enum Reply {
    Properties(Properties),
    Degrees(i8),
    Flag(bool),
}

/// What serving a request makes of a fridge, and what is answered.
pub open spec fn handled<V, R: Fn(V) -> i8>(
    before: Fridge<V>,
    message: Message,
    read: R,
    after: Fridge<V>,
    reply: Option<Reply>,
) -> bool {
    match message {
        Message::GetProperties => {
            &&& after == before
            &&& reply matches Some(Reply::Properties(properties))
            &&& call_ensures(read, (before.status.temperature,), properties.temperature)
            &&& properties == (Properties {
                open: before.status.open,
                temperature: properties.temperature,
                target_temperature: before.status.target_temperature,
            })
        },
        Message::GetTargetTemperature => {
            &&& after == before
            &&& reply == Some(Reply::Degrees(before.status.target_temperature))
        },
        Message::GetTemperature => {
            &&& after == before
            &&& reply matches Some(Reply::Degrees(degrees))
            &&& call_ensures(read, (before.status.temperature,), degrees)
        },
        Message::GetOpen => after == before && reply == Some(Reply::Flag(before.status.open)),
        Message::SetTargetTemperature(value) => {
            &&& after == (Fridge {
                status: FridgeStatus { target_temperature: value, ..before.status },
                ..before
            })
            &&& reply is None
        },
    }
}

/// Something that happens to a running fridge.
#[derive(Debug)]
pub enum Event<V> {
    Message(Message),
    Config(FridgeConfig<V>),
    NextStatus(FridgeSimulationOutput),
    Tick,
    Stop,
}

/// What is to be done after an [`Event`].
#[derive(Debug)]
pub enum Action {
    /// Wait for the next event.
    Continue,
    /// Send the reply, where there is one, to whoever asked, and wait for the next event.
    Reply(Option<Reply>),
    /// Follow a new script from its start, start the interval between the steps anew, and wait for
    /// the next event.
    Restart(Vec<FridgeSimulation>),
    /// Stop.
    Stop,
}

/// Takes a running fridge through one event. A new configuration does not turn the cooling off.
pub fn handle_event<
    V: Copy,
    B: Fn(V, i8, V) -> bool,
    W: Fn(V, i8, V) -> bool,
    C: Fn(V, V, Option<V>) -> V,
    R: Fn(V) -> i8,
>(fridge: &mut Fridge<V>, event: Event<V>, arithmetic: &Arithmetic<B, W, C, R>) -> (action: Action)
    requires
        forall|args: (V, i8, V)| #[trigger] call_requires(arithmetic.below, args),
        forall|args: (V, i8, V)| #[trigger] call_requires(arithmetic.within, args),
        forall|args: (V, V, Option<V>)| #[trigger] call_requires(arithmetic.change, args),
        forall|args: (V,)| #[trigger] call_requires(arithmetic.read, args),
    ensures
        match event {
            Event::Message(message) => {
                &&& action matches Action::Reply(reply)
                &&& handled(*old(fridge), message, arithmetic.read, *final(fridge), reply)
            },
            Event::Config(config) => {
                &&& action == Action::Restart(config.simulation)
                &&& *final(fridge) == (Fridge {
                    status: config.initial,
                    deltas: config.deltas,
                    cooling: old(fridge).cooling,
                })
            },
            Event::NextStatus(next_status) => {
                &&& action == Action::Continue
                &&& *final(fridge) == (Fridge {
                    status: FridgeStatus {
                        open: match next_status.open {
                            Some(open) => open,
                            None => old(fridge).status.open,
                        },
                        ..old(fridge).status
                    },
                    ..*old(fridge)
                })
            },
            Event::Tick => action == Action::Continue && ticked(
                *old(fridge),
                *arithmetic,
                *final(fridge),
            ),
            Event::Stop => action == Action::Stop && *final(fridge) == *old(fridge),
        },
{
    match event {
        Event::Message(message) => Action::Reply(
            fridge.handle_message(message, &arithmetic.read),
        ),
        Event::Config(config) => {
            let FridgeConfig { initial, simulation, deltas } = config;
            fridge.status = initial;
            fridge.deltas = deltas;
            Action::Restart(simulation)
        },
        Event::NextStatus(next_status) => {
            if let Some(open) = next_status.open {
                fridge.status.open = open;
            }
            Action::Continue
        },
        Event::Tick => {
            fridge.handle_tick(arithmetic);
            Action::Continue
        },
        Event::Stop => Action::Stop,
    }
}

/// A fridge cools whenever it is over its range and never when it is under it; in the range it
/// goes on as it did.
pub proof fn law_cooling_follows_the_range(cooling: bool, range: TargetRange)
    ensures
        range == TargetRange::Above ==> cooling_after(cooling, range),
        range == TargetRange::Below ==> !cooling_after(cooling, range),
        range == TargetRange::InRange ==> cooling_after(cooling, range) == cooling,
        cooling_after(cooling_after(cooling, range), range) == cooling_after(cooling, range),
{
}

/// The target temperature that was written is read back, and nothing else changes.
pub proof fn law_target_temperature_is_read_back<V, R: Fn(V) -> i8>(
    before: Fridge<V>,
    target: i8,
    read: R,
    written: Fridge<V>,
    after: Fridge<V>,
    replies: (Option<Reply>, Option<Reply>),
)
    requires
        handled(before, Message::SetTargetTemperature(target), read, written, replies.0),
        handled(written, Message::GetTargetTemperature, read, after, replies.1),
    ensures
        replies.1 == Some(Reply::Degrees(target)),
        after.status.open == before.status.open,
        after.status.temperature == before.status.temperature,
        after.cooling == before.cooling,
{
}

/// Neither a request nor a step opens or closes the door.
pub proof fn law_only_the_script_moves_the_door<
    V,
    B: Fn(V, i8, V) -> bool,
    W: Fn(V, i8, V) -> bool,
    C: Fn(V, V, Option<V>) -> V,
    R: Fn(V) -> i8,
>(
    before: Fridge<V>,
    message: Message,
    arithmetic: Arithmetic<B, W, C, R>,
    after: Fridge<V>,
    reply: Option<Reply>,
)
    requires
        handled(before, message, arithmetic.read, after, reply) || ticked(
            before,
            arithmetic,
            after,
        ),
    ensures
        after.status.open == before.status.open,
{
}

/// A fridge that cools after it has looked at its temperature loses what cooling takes away, and
/// any other loses nothing, whatever the state of its door; it gains what its door lets in, whether
/// it cools or not. It cools over its range always, under it never, and in it as it did before.
pub proof fn law_cooling_takes_and_the_door_adds<V: Copy>(
    fridge: &mut Fridge<V>,
    range: TargetRange,
    change: (V, Option<V>),
)
    requires
        call_ensures(Fridge::<V>::regulate, (fridge, range), change),
    ensures
        final(fridge).cooling ==> change.1 == Some(old(fridge).deltas.decrease),
        !final(fridge).cooling ==> change.1 is None,
        old(fridge).status.open ==> change.0 == old(fridge).deltas.door_open,
        !old(fridge).status.open ==> change.0 == old(fridge).deltas.door_close,
        range is Above ==> final(fridge).cooling,
        range is Below ==> !final(fridge).cooling,
        range is InRange ==> final(fridge).cooling == old(fridge).cooling,
        final(fridge).status == old(fridge).status,
        final(fridge).deltas == old(fridge).deltas,
{
}

/// A step of ten milliseconds takes the temperature of a fridge on by what its door, as it is, lets
/// in, and by what cooling takes away exactly where the fridge cools then. It changes nothing else
/// but whether the fridge cools.
pub proof fn law_step_changes_the_temperature<
    V: Copy,
    B: Fn(V, i8, V) -> bool,
    W: Fn(V, i8, V) -> bool,
    C: Fn(V, V, Option<V>) -> V,
    R: Fn(V) -> i8,
>(
    fridge: &mut Fridge<V>,
    arithmetic: &Arithmetic<B, W, C, R>,
    action: Action,
)
    requires
        call_ensures(handle_event::<V, B, W, C, R>, (fridge, Event::Tick, arithmetic), action),
    ensures
        action == Action::Continue,
        ({
            let before = *old(fridge);
            let after = *final(fridge);
            let gain = if before.status.open {
                before.deltas.door_open
            } else {
                before.deltas.door_close
            };
            let loss = if after.cooling {
                Some(before.deltas.decrease)
            } else {
                None
            };
            call_ensures(
                arithmetic.change,
                (before.status.temperature, gain, loss),
                after.status.temperature,
            )
        }),
        final(fridge).status.open == old(fridge).status.open,
        final(fridge).status.target_temperature == old(fridge).status.target_temperature,
        final(fridge).deltas == old(fridge).deltas,
{
}

/// In a step, a fridge cools where its temperature is over the range around the one that is aimed
/// at and does not where it is under it; in between it goes on as it did. The door has no part in
/// that.
pub proof fn law_step_regulates_the_cooling<
    V: Copy,
    B: Fn(V, i8, V) -> bool,
    W: Fn(V, i8, V) -> bool,
    C: Fn(V, V, Option<V>) -> V,
    R: Fn(V) -> i8,
>(
    fridge: &mut Fridge<V>,
    arithmetic: &Arithmetic<B, W, C, R>,
    action: Action,
    is_below: bool,
    is_within: bool,
)
    requires
        call_ensures(handle_event::<V, B, W, C, R>, (fridge, Event::Tick, arithmetic), action),
        ({
            let args = (
                old(fridge).status.temperature,
                old(fridge).status.target_temperature,
                old(fridge).deltas.target_range,
            );
            &&& forall|answer: bool| #[trigger]
                call_ensures(arithmetic.below, args, answer) ==> answer == is_below
            &&& forall|answer: bool| #[trigger]
                call_ensures(arithmetic.within, args, answer) ==> answer == is_within
        }),
    ensures
        is_below ==> !final(fridge).cooling,
        !is_below && !is_within ==> final(fridge).cooling,
        !is_below && is_within ==> final(fridge).cooling == old(fridge).cooling,
{
}

/// A step of the script opens or closes the door as it says, and leaves all else as it was.
pub proof fn law_script_moves_the_door<
    V: Copy,
    B: Fn(V, i8, V) -> bool,
    W: Fn(V, i8, V) -> bool,
    C: Fn(V, V, Option<V>) -> V,
    R: Fn(V) -> i8,
>(
    fridge: &mut Fridge<V>,
    step: FridgeSimulationOutput,
    arithmetic: &Arithmetic<B, W, C, R>,
    action: Action,
)
    requires
        call_ensures(
            handle_event::<V, B, W, C, R>,
            (fridge, Event::NextStatus(step), arithmetic),
            action,
        ),
    ensures
        action == Action::Continue,
        step.open matches Some(open) ==> final(fridge).status.open == open,
        step.open is None ==> final(fridge).status.open == old(fridge).status.open,
        final(fridge).status.temperature == old(fridge).status.temperature,
        final(fridge).status.target_temperature == old(fridge).status.target_temperature,
        final(fridge).cooling == old(fridge).cooling,
        final(fridge).deltas == old(fridge).deltas,
{
}

/// A new configuration puts a fridge where it starts, with the changes that it names, and has its
/// script followed from the start; only whether the fridge is cooling stays. One that stops stays
/// as it is.
pub proof fn law_configuration_restarts<
    V: Copy,
    B: Fn(V, i8, V) -> bool,
    W: Fn(V, i8, V) -> bool,
    C: Fn(V, V, Option<V>) -> V,
    R: Fn(V) -> i8,
>(
    fridge: &mut Fridge<V>,
    event: Event<V>,
    arithmetic: &Arithmetic<B, W, C, R>,
    action: Action,
)
    requires
        call_ensures(handle_event::<V, B, W, C, R>, (fridge, event, arithmetic), action),
    ensures
        event matches Event::Config(config) ==> {
            &&& action == Action::Restart(config.simulation)
            &&& final(fridge).status == config.initial
            &&& final(fridge).deltas == config.deltas
            &&& final(fridge).cooling == old(fridge).cooling
        },
        event is Stop ==> action == Action::Stop && *final(fridge) == *old(fridge),
{
}

/// A fridge starts as it is configured, and is not cooling at first.
pub proof fn law_start_is_configured<V: Copy>(
    config: FridgeConfig<V>,
    parts: (Fridge<V>, Vec<FridgeSimulation>),
)
    requires
        call_ensures(Fridge::<V>::new, (config,), parts),
    ensures
        parts.0.status == config.initial,
        parts.0.deltas == config.deltas,
        !parts.0.cooling,
        parts.1@ == config.simulation@,
{
}

/// A request to read a property is answered with its value, the temperature as `read` gives it, and
/// changes nothing. The others are not answered, and set what they name to the value they bring.
pub proof fn law_requests_are_served<
    V: Copy,
    B: Fn(V, i8, V) -> bool,
    W: Fn(V, i8, V) -> bool,
    C: Fn(V, V, Option<V>) -> V,
    R: Fn(V) -> i8,
>(
    fridge: &mut Fridge<V>,
    message: Message,
    arithmetic: &Arithmetic<B, W, C, R>,
    action: Action,
)
    requires
        call_ensures(
            handle_event::<V, B, W, C, R>,
            (fridge, Event::Message(message), arithmetic),
            action,
        ),
    ensures
        message is GetProperties ==> {
            &&& action matches Action::Reply(Some(Reply::Properties(properties)))
            &&& properties.open == old(fridge).status.open
            &&& properties.target_temperature == old(fridge).status.target_temperature
            &&& call_ensures(
                arithmetic.read,
                (old(fridge).status.temperature,),
                properties.temperature,
            )
        },
        message is GetTemperature ==> {
            &&& action matches Action::Reply(Some(Reply::Degrees(degrees)))
            &&& call_ensures(arithmetic.read, (old(fridge).status.temperature,), degrees)
        },
        message is GetTargetTemperature ==> action == Action::Reply(
            Some(Reply::Degrees(old(fridge).status.target_temperature)),
        ),
        message is GetOpen ==> action == Action::Reply(Some(Reply::Flag(old(fridge).status.open))),
        message is SetTargetTemperature ==> action == Action::Reply(None),
        message matches Message::SetTargetTemperature(value) ==> final(
            fridge
        ).status.target_temperature == value,
        !(message is SetTargetTemperature) ==> final(fridge).status.target_temperature == old(
            fridge
        ).status.target_temperature,
        final(fridge).status.open == old(fridge).status.open,
        final(fridge).status.temperature == old(fridge).status.temperature,
        final(fridge).cooling == old(fridge).cooling,
        final(fridge).deltas == old(fridge).deltas,
{
}

/// A step of the script does after its wait what it says.
pub proof fn law_step_is_handed_on(step: FridgeSimulation, parts: (FridgeSimulationOutput, Span))
    requires
        call_ensures(FridgeSimulation::output_and_wait, (step,), parts),
    ensures
        parts.0.open == step.open,
        parts.1 == step.wait,
{
}

} // verus!
