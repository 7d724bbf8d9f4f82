//! A sensor of temperature and humidity, each of which follows a script of variations.
//!
//! Measured values are of any type; what there is to compute on them is handed in.
use std::collections::VecDeque;

use crate::clock::{Span, NANOS_PER_MILLI};
use crate::simulation::into_queue;
use vstd::prelude::*;

verus! {

/// The milliseconds between two ticks.
pub const TICK_MILLIS: u128 = 10;

/// A change of a measured value.
#[derive(Debug)]
pub struct SensorVariation<V> {
    /// How long the change takes.
    pub duration: Span,
    /// By how much the value changes.
    pub variation: V,
}

/// What a measured value starts from, and how it changes, one variation after the other.
#[derive(Debug)]
pub struct SensorConfig<V> {
    pub initial: V,
    pub variations: Vec<SensorVariation<V>>,
}

/// How both measured values change.
#[derive(Debug)]
pub struct Config<V> {
    pub humidity: SensorConfig<V>,
    pub temperature: SensorConfig<V>,
}

/// A change in progress: `index` of `len` ticks on the way from `start` to `end`.
#[derive(Debug, PartialEq)]
pub struct Interpolation<V> {
    pub start: V,
    pub end: V,
    pub index: usize,
    pub len: usize,
}

/// What taking one tick more makes of a change, and the value at it.
pub open spec fn steps_to<V, L: Fn(V, V, usize, usize) -> V>(
    before: Interpolation<V>,
    lerp: L,
    after: Interpolation<V>,
    value: Option<V>,
) -> bool {
    if before.index < before.len {
        &&& after == (Interpolation { index: (before.index + 1) as usize, ..before })
        &&& value matches Some(value)
        &&& call_ensures(lerp, (before.start, before.end, after.index, before.len), value)
    } else {
        value is None && after == before
    }
}

impl<V: Copy> Interpolation<V> {
    /// Takes one tick more of the change, where one is left, and gives the value at it.
    ///
    /// `lerp` works out the value from the start, the end, the number of the tick, counted from
    /// one, and the number of ticks.
    pub fn step<L: Fn(V, V, usize, usize) -> V>(&mut self, lerp: &L) -> (value: Option<V>)
        requires
            forall|args: (V, V, usize, usize)| #[trigger] call_requires(*lerp, args),
        ensures
            steps_to(*old(self), *lerp, *final(self), value),
    {
        if self.index < self.len {
            self.index += 1;
            Some(lerp(self.start, self.end, self.index, self.len))
        } else {
            None
        }
    }
}

/// The whole milliseconds in a length of time.
pub open spec fn whole_millis(duration: Span) -> int {
    duration.nanos as int / NANOS_PER_MILLI as int
}

/// The number of ticks that a length of time takes: one that has begun counts, and there are no
/// more than can be counted.
pub open spec fn ticks_in(duration: Span) -> int {
    let millis = whole_millis(duration);
    if millis / 10 > usize::MAX {
        usize::MAX as int
    } else if millis % 10 == 0 {
        millis / 10
    } else {
        millis / 10 + 1
    }
}

/// Whether the ticks of a variation can be counted up. They cannot where a tick that has begun
/// comes on top of as many as can be counted.
pub open spec fn is_countable(duration: Span) -> bool {
    ticks_in(duration) <= usize::MAX
}

/// Whether the ticks of a length of time can be counted up.
pub fn countable(duration: Span) -> (answer: bool)
    ensures
        answer == is_countable(duration),
{
    let millis: u128 = duration.as_millis();
    millis / TICK_MILLIS != usize::MAX as u128 || millis % TICK_MILLIS == 0
}

/// Starts a change from the current value. `sum` adds a variation to a value.
pub fn interpolation_from_variation<V: Copy, S: Fn(V, V) -> V>(
    current: V,
    variation: SensorVariation<V>,
    sum: &S,
) -> (interpolation: Interpolation<V>)
    requires
        is_countable(variation.duration),
        forall|args: (V, V)| #[trigger] call_requires(*sum, args),
    ensures
        is_start(interpolation, current, variation, *sum),
{
    let millis: u128 = variation.duration.as_millis();
    let whole: u128 = millis / TICK_MILLIS;
    let len: usize = if whole > usize::MAX as u128 {
        usize::MAX
    } else if millis % TICK_MILLIS != 0 {
        whole as usize + 1
    } else {
        whole as usize
    };
    let end = sum(current, variation.variation);
    Interpolation { start: current, end, index: 0, len }
}

/// Whether a change is the given variation at its start.
pub open spec fn is_start<V, S: Fn(V, V) -> V>(
    interpolation: Interpolation<V>,
    current: V,
    variation: SensorVariation<V>,
    sum: S,
) -> bool {
    &&& interpolation.start == current
    &&& call_ensures(sum, (current, variation.variation), interpolation.end)
    &&& interpolation.index == 0
    &&& interpolation.len == ticks_in(variation.duration)
}

/// What there is to compute on measured values.
#[derive(Debug)]
pub struct Arithmetic<S, L> {
    /// A value after a variation.
    pub sum: S,
    /// A value on the way from a start to an end, as for [`Interpolation::step`].
    pub lerp: L,
}

/// A measured value, the change in progress, and the variations to come.
#[derive(Debug)]
pub struct SensorStatus<V> {
    pub current: V,
    pub interpolation: Option<Interpolation<V>>,
    pub variations: VecDeque<SensorVariation<V>>,
}

/// The number of ticks that variations take together.
pub open spec fn total_ticks<V>(variations: Seq<SensorVariation<V>>) -> int
    decreases variations.len(),
{
    if variations.len() == 0 {
        0
    } else {
        ticks_in(variations[0].duration) + total_ticks(variations.drop_first())
    }
}

/// Whether the ticks of each variation can be counted up.
pub open spec fn all_countable<V>(variations: Seq<SensorVariation<V>>) -> bool {
    forall|i: int| 0 <= i < variations.len() ==> is_countable((#[trigger] variations[i]).duration)
}

impl<V> SensorConfig<V> {
    /// Whether the ticks of the first variation, where there is one, can be counted up.
    pub open spec fn can_start(self) -> bool {
        self.variations@.len() == 0 || is_countable(self.variations@[0].duration)
    }

    /// Whether the ticks of the first variation, where there is one, can be counted up.
    pub fn is_startable(&self) -> (answer: bool)
        ensures
            answer == self.can_start(),
    {
        self.variations.len() == 0 || countable(self.variations[0].duration)
    }
}

impl<V> SensorStatus<V> {
    /// Whether the ticks of the variation that the next tick starts, where it starts one that takes
    /// any time, can be counted up.
    pub open spec fn can_tick(self) -> bool {
        match self.interpolation {
            Some(interpolation) => interpolation.index < interpolation.len || forall|next: int|
                #[trigger] is_next(self.variations@, next) ==> is_countable(
                    self.variations@[next].duration,
                ),
            None => true,
        }
    }

    /// Whether the ticks of the variation that the next tick starts can be counted up.
    pub fn is_tickable(&self) -> (answer: bool)
        ensures
            answer == self.can_tick(),
    {
        match &self.interpolation {
            Some(interpolation) => {
                if interpolation.index < interpolation.len {
                    return true;
                }
            },
            None => return true,
        }
        let mut index: usize = 0;
        while index < self.variations.len()
            invariant
                index <= self.variations.len(),
                self.interpolation is Some,
                self.interpolation->0.index >= self.interpolation->0.len,
                forall|i: int|
                    0 <= i < index ==> ticks_in((#[trigger] self.variations@[i]).duration) == 0,
            decreases self.variations.len() - index,
        {
            let duration = self.variations[index].duration;
            if duration.as_millis() > 0 {
                assert(is_next(self.variations@, index as int));
                assert forall|next: int| #[trigger] is_next(self.variations@, next) implies next
                    == index by {
                    if index < next {
                        assert(ticks_in(self.variations@[index as int].duration) == 0);
                    }
                }
                return countable(duration);
            }
            index += 1;
        }
        true
    }

    /// How many more ticks change the value.
    pub open spec fn remaining(self) -> int {
        match self.interpolation {
            Some(interpolation) => {
                (if interpolation.index < interpolation.len {
                    interpolation.len - interpolation.index
                } else {
                    0
                }) + total_ticks(self.variations@)
            },
            None => 0,
        }
    }
}

/// What a tick makes of a measured value, and whether it changes the value.
pub open spec fn ticked<V, S: Fn(V, V) -> V, L: Fn(V, V, usize, usize) -> V>(
    before: SensorStatus<V>,
    arithmetic: Arithmetic<S, L>,
    after: SensorStatus<V>,
    changed: bool,
) -> bool {
    match before.interpolation {
        None => !changed && after == before,
        Some(interpolation) => if interpolation.index < interpolation.len {
            &&& changed
            &&& after.variations@ == before.variations@
            &&& after.interpolation == Some(
                Interpolation { index: (interpolation.index + 1) as usize, ..interpolation },
            )
            &&& call_ensures(
                arithmetic.lerp,
                (
                    interpolation.start,
                    interpolation.end,
                    (interpolation.index + 1) as usize,
                    interpolation.len,
                ),
                after.current,
            )
        } else if total_ticks(before.variations@) == 0 {
            &&& !changed
            &&& after.current == before.current
            &&& after.interpolation is None
            &&& after.variations@.len() == 0
        } else {
            exists|next: int, started: Interpolation<V>|
                {
                    &&& is_next(before.variations@, next)
                    &&& #[trigger] is_start(
                        started,
                        before.current,
                        #[trigger] before.variations@[next],
                        arithmetic.sum,
                    )
                    &&& changed
                    &&& after.variations@ == before.variations@.skip(next + 1)
                    &&& after.interpolation == Some(Interpolation { index: 1, ..started })
                    &&& call_ensures(
                        arithmetic.lerp,
                        (started.start, started.end, 1, started.len),
                        after.current,
                    )
                }
        },
    }
}

/// Whether the first variation that takes any time is at `next`.
pub open spec fn is_next<V>(variations: Seq<SensorVariation<V>>, next: int) -> bool {
    &&& 0 <= next < variations.len()
    &&& ticks_in(variations[next].duration) > 0
    &&& forall|i: int| 0 <= i < next ==> ticks_in((#[trigger] variations[i]).duration) == 0
}

/// Variations take no less time together than each of them.
proof fn lemma_total_ticks<V>(variations: Seq<SensorVariation<V>>, next: int)
    requires
        0 <= next <= variations.len(),
        forall|i: int| 0 <= i < next ==> ticks_in((#[trigger] variations[i]).duration) == 0,
    ensures
        total_ticks(variations) >= 0,
        total_ticks(variations) == total_ticks(variations.skip(next)),
        next < variations.len() ==> total_ticks(variations) == ticks_in(variations[next].duration)
            + total_ticks(variations.skip(next + 1)),
    decreases variations.len(),
{
    if variations.len() > 0 {
        let rest = variations.drop_first();
        if next > 0 {
            assert forall|i: int| 0 <= i < next - 1 implies ticks_in(
                (#[trigger] rest[i]).duration,
            ) == 0 by {
                assert(rest[i] == variations[i + 1]);
            }
            lemma_total_ticks(rest, next - 1);
            assert(rest.skip(next - 1) == variations.skip(next));
            if next < variations.len() {
                assert(rest.skip(next) == variations.skip(next + 1));
                assert(rest[next - 1] == variations[next]);
            }
            assert(ticks_in(variations[0].duration) == 0);
        } else {
            lemma_total_ticks(rest, 0);
            assert(variations.skip(0) == variations);
            assert(variations.skip(1) == rest);
        }
    } else {
        assert(variations.skip(0) == variations);
    }
}

impl<V: Copy> SensorStatus<V> {
    /// The measured value at the start of its script.
    pub fn from<S: Fn(V, V) -> V>(value: SensorConfig<V>, sum: &S) -> (status: Self)
        requires
            value.can_start(),
            forall|args: (V, V)| #[trigger] call_requires(*sum, args),
        ensures
            started(status, value, *sum),
            status.remaining() == total_ticks(value.variations@),
    {
        let SensorConfig { initial, variations } = value;
        let mut variations = into_queue(variations);
        let interpolation = match variations.pop_front() {
            Some(variation) => Some(interpolation_from_variation(initial, variation, sum)),
            None => None,
        };
        SensorStatus { current: initial, interpolation, variations }
    }

    /// Takes the measured value through a tick, and tells whether that changes it.
    pub fn tick<S: Fn(V, V) -> V, L: Fn(V, V, usize, usize) -> V>(
        &mut self,
        arithmetic: &Arithmetic<S, L>,
    ) -> (changed: bool)
        requires
            old(self).can_tick(),
            forall|args: (V, V)| #[trigger] call_requires(arithmetic.sum, args),
            forall|args: (V, V, usize, usize)| #[trigger] call_requires(arithmetic.lerp, args),
        ensures
            ticked(*old(self), *arithmetic, *final(self), changed),
            changed <==> old(self).remaining() > 0,
            changed ==> final(self).remaining() == old(self).remaining() - 1,
            !changed ==> final(self).remaining() == 0,
    {
        let ghost before = *self;
        let ghost mut popped: int = 0;
        proof {
            lemma_total_ticks(before.variations@, 0);
        }
        loop
            invariant
                before == *old(self),
                forall|args: (V, V)| #[trigger] call_requires(arithmetic.sum, args),
                forall|args: (V, V, usize, usize)| #[trigger] call_requires(arithmetic.lerp, args),
                before.can_tick(),
                self.current == before.current,
                0 <= popped <= before.variations@.len(),
                self.variations@ == before.variations@.skip(popped),
                popped == 0 ==> *self == before,
                popped > 0 ==> {
                    &&& before.interpolation is Some
                    &&& before.interpolation->0.index >= before.interpolation->0.len
                    &&& self.interpolation is Some
                    &&& is_start(
                        self.interpolation->0,
                        before.current,
                        before.variations@[popped - 1],
                        arithmetic.sum,
                    )
                    &&& forall|i: int|
                        0 <= i < popped - 1 ==> ticks_in(
                            (#[trigger] before.variations@[i]).duration,
                        ) == 0
                },
                total_ticks(before.variations@) >= 0,
            decreases self.variations@.len(),
        {
            let ghost looping = *self;
            match &mut self.interpolation {
                Some(interpolation) => match interpolation.step(&arithmetic.lerp) {
                    Some(new_value) => {
                        self.current = new_value;
                        proof {
                            if popped > 0 {
                                let next = popped - 1;
                                lemma_total_ticks(before.variations@, next);
                                lemma_total_ticks(before.variations@.skip(popped), 0);
                                assert(is_next(before.variations@, next));
                                assert(is_start(
                                    looping.interpolation->0,
                                    before.current,
                                    before.variations@[next],
                                    arithmetic.sum,
                                ));
                            }
                        }
                        return true;
                    },
                    None => match self.variations.pop_front() {
                        Some(variation) => {
                            proof {
                                assert(variation == before.variations@[popped]);
                                if ticks_in(variation.duration) > 0 {
                                    assert(is_next(before.variations@, popped));
                                }
                            }
                            self.interpolation = Some(
                                interpolation_from_variation(
                                    self.current,
                                    variation,
                                    &arithmetic.sum,
                                ),
                            );
                            proof {
                                popped = popped + 1;
                            }
                        },
                        None => {
                            self.interpolation = None;
                            proof {
                                lemma_total_ticks(
                                    before.variations@,
                                    before.variations@.len() as int,
                                );
                            }
                            return false;
                        },
                    },
                },
                None => return false,
            }
        }
    }
}

/// Whether a measured value is at the start of its script.
pub open spec fn started<V, S: Fn(V, V) -> V>(
    status: SensorStatus<V>,
    config: SensorConfig<V>,
    sum: S,
) -> bool {
    &&& status.current == config.initial
    &&& if config.variations@.len() == 0 {
        status.interpolation is None && status.variations@.len() == 0
    } else {
        &&& status.interpolation is Some
        &&& is_start(status.interpolation->0, config.initial, config.variations@[0], sum)
        &&& status.variations@ == config.variations@.drop_first()
    }
}

/// A sensor.
#[derive(Debug)]
pub struct Thing<V> {
    pub temperature: SensorStatus<V>,
    pub humidity: SensorStatus<V>,
}

/// A request to a sensor.
#[derive(Clone, Copy, Debug)]
pub enum Message {
    GetTemperature,
    GetHumidity,
}

/// Something that happens to a running sensor.
#[derive(Debug)]
pub enum Event<V> {
    Message(Message),
    Config(Config<V>),
    Tick,
    Stop,
}

/// What is to be done after an [`Event`].
#[derive(Debug)]
pub enum Action<V> {
    /// Wait for the next event.
    Continue,
    /// Send the value to whoever asked, and wait for the next event.
    Reply(V),
    /// Tick no more, and wait for the next event.
    StopTicking,
    /// Tick at an interval that starts anew, and wait for the next event.
    RestartTicking,
    /// Stop.
    Stop,
}

/// Whether a measured value follows a new script from its start, but from where it is.
pub open spec fn restarted<V, S: Fn(V, V) -> V>(
    before: SensorStatus<V>,
    config: SensorConfig<V>,
    sum: S,
    after: SensorStatus<V>,
) -> bool {
    &&& after.current == before.current
    &&& started(SensorStatus { current: config.initial, ..after }, config, sum)
}

/// What an event makes of a sensor, and what is to be done then.
pub open spec fn handled<V, S: Fn(V, V) -> V, L: Fn(V, V, usize, usize) -> V>(
    before: Thing<V>,
    event: Event<V>,
    arithmetic: Arithmetic<S, L>,
    after: Thing<V>,
    action: Action<V>,
) -> bool {
    match event {
        Event::Message(Message::GetTemperature) => {
            &&& after == before
            &&& action == Action::Reply(before.temperature.current)
        },
        Event::Message(Message::GetHumidity) => {
            &&& after == before
            &&& action == Action::Reply(before.humidity.current)
        },
        Event::Config(config) => {
            &&& restarted(
                before.temperature,
                config.temperature,
                arithmetic.sum,
                after.temperature,
            )
            &&& restarted(before.humidity, config.humidity, arithmetic.sum, after.humidity)
            &&& action == Action::<V>::RestartTicking
        },
        Event::Tick => {
            let warmer = before.temperature.remaining() > 0;
            let damper = before.humidity.remaining() > 0;
            &&& ticked(before.temperature, arithmetic, after.temperature, warmer)
            &&& ticked(before.humidity, arithmetic, after.humidity, damper)
            &&& action == if warmer || damper {
                Action::<V>::Continue
            } else {
                Action::StopTicking
            }
        },
        Event::Stop => after == before && action == Action::<V>::Stop,
    }
}

impl<V: Copy> Thing<V> {
    /// Whether the sensor can take an event. What stands against it is a variation that the event
    /// starts and whose ticks cannot be counted up.
    pub open spec fn can_handle(self, event: Event<V>) -> bool {
        match event {
            Event::Config(config) => {
                &&& config.temperature.can_start()
                &&& config.humidity.can_start()
            },
            Event::Tick => self.temperature.can_tick() && self.humidity.can_tick(),
            _ => true,
        }
    }

    /// Whether the sensor can take an event.
    pub fn is_servable(&self, event: &Event<V>) -> (servable: bool)
        ensures
            servable == self.can_handle(*event),
    {
        match event {
            Event::Config(config) => {
                config.temperature.is_startable() && config.humidity.is_startable()
            },
            Event::Tick => self.temperature.is_tickable() && self.humidity.is_tickable(),
            _ => true,
        }
    }

    /// The sensor at the start of its script.
    pub fn new<S: Fn(V, V) -> V>(config: Config<V>, sum: &S) -> (thing: Self)
        requires
            config.temperature.can_start(),
            config.humidity.can_start(),
            forall|args: (V, V)| #[trigger] call_requires(*sum, args),
        ensures
            started(thing.temperature, config.temperature, *sum),
            started(thing.humidity, config.humidity, *sum),
            thing.temperature.remaining() == total_ticks(config.temperature.variations@),
            thing.humidity.remaining() == total_ticks(config.humidity.variations@),
    {
        let Config { humidity, temperature } = config;
        Thing {
            temperature: SensorStatus::from(temperature, sum),
            humidity: SensorStatus::from(humidity, sum),
        }
    }

    /// Takes a running sensor through one event.
    pub fn handle_event<S: Fn(V, V) -> V, L: Fn(V, V, usize, usize) -> V>(
        &mut self,
        event: Event<V>,
        arithmetic: &Arithmetic<S, L>,
    ) -> (action: Action<V>)
        requires
            old(self).can_handle(event),
            forall|args: (V, V)| #[trigger] call_requires(arithmetic.sum, args),
            forall|args: (V, V, usize, usize)| #[trigger] call_requires(arithmetic.lerp, args),
        ensures
            handled(*old(self), event, *arithmetic, *final(self), action),
            event matches Event::Config(config) ==> {
                &&& final(self).temperature.remaining() == total_ticks(
                    config.temperature.variations@,
                )
                &&& final(self).humidity.remaining() == total_ticks(config.humidity.variations@)
                &&& final(self).temperature.interpolation matches Some(change) ==> change.start
                    == config.temperature.initial
                &&& final(self).humidity.interpolation matches Some(change) ==> change.start
                    == config.humidity.initial
            },
    {
        match event {
            Event::Message(message) => Action::Reply(self.handle_message(message)),
            Event::Config(config) => {
                let Config { humidity, temperature } = config;
                let mut status = SensorStatus::from(humidity, &arithmetic.sum);
                status.current = self.humidity.current;
                self.humidity = status;
                let mut status = SensorStatus::from(temperature, &arithmetic.sum);
                status.current = self.temperature.current;
                self.temperature = status;
                Action::RestartTicking
            },
            Event::Tick => {
                let temperature_ticked = self.temperature.tick(arithmetic);
                let humidity_ticked = self.humidity.tick(arithmetic);
                if !temperature_ticked && !humidity_ticked {
                    Action::StopTicking
                } else {
                    Action::Continue
                }
            },
            Event::Stop => Action::Stop,
        }
    }

    /// Serves a request.
    pub fn handle_message(&self, message: Message) -> (value: V)
        ensures
            value == match message {
                Message::GetTemperature => self.temperature.current,
                Message::GetHumidity => self.humidity.current,
            },
    {
        match message {
            Message::GetTemperature => self.temperature.current,
            Message::GetHumidity => self.humidity.current,
        }
    }
}

/// Whether `lerp` gives the end of a change for its last tick.
pub open spec fn lands_on_end<V, L: Fn(V, V, usize, usize) -> V>(
    lerp: L,
    start: V,
    end: V,
    len: usize,
) -> bool {
    forall|value: V| #[trigger] call_ensures(lerp, (start, end, len, len), value) ==> value == end
}

/// The last tick of a change lands on its end, where `lerp` gives the end for it, and no tick
/// follows.
pub proof fn law_last_tick_lands_on_the_end<V, L: Fn(V, V, usize, usize) -> V>(
    before: Interpolation<V>,
    lerp: L,
    after: Interpolation<V>,
    value: Option<V>,
    later: Interpolation<V>,
    later_value: Option<V>,
)
    requires
        before.index + 1 == before.len,
        lands_on_end(lerp, before.start, before.end, before.len),
        steps_to(before, lerp, after, value),
        steps_to(after, lerp, later, later_value),
    ensures
        value == Some(before.end),
        later_value is None,
        later == after,
{
}

/// The last tick of a variation takes the measured value to the end of the variation, where `lerp`
/// gives the end for it.
pub proof fn law_variation_ends_at_its_end<V, S: Fn(V, V) -> V, L: Fn(V, V, usize, usize) -> V>(
    before: SensorStatus<V>,
    arithmetic: Arithmetic<S, L>,
    after: SensorStatus<V>,
    changed: bool,
)
    requires
        ticked(before, arithmetic, after, changed),
        before.interpolation matches Some(interpolation) && {
            &&& interpolation.index + 1 == interpolation.len
            &&& lands_on_end(
                arithmetic.lerp,
                interpolation.start,
                interpolation.end,
                interpolation.len,
            )
        },
    ensures
        changed,
        after.current == before.interpolation->0.end,
{
}

/// A script takes the ticks of its variations: each tick takes one, as long as there is one.
pub proof fn law_each_tick_takes_one<V, S: Fn(V, V) -> V, L: Fn(V, V, usize, usize) -> V>(
    before: SensorStatus<V>,
    arithmetic: Arithmetic<S, L>,
    after: SensorStatus<V>,
    changed: bool,
)
    requires
        ticked(before, arithmetic, after, changed),
    ensures
        changed <==> before.remaining() > 0,
        after.remaining() == if changed {
            before.remaining() - 1
        } else {
            0
        },
{
    let variations = before.variations@;
    lemma_total_ticks(variations, 0);
    if let Some(interpolation) = before.interpolation {
        if interpolation.index >= interpolation.len && total_ticks(variations) != 0 {
            let (next, started) = choose|next: int, started: Interpolation<V>|
                {
                    &&& is_next(variations, next)
                    &&& #[trigger] is_start(
                        started,
                        before.current,
                        #[trigger] variations[next],
                        arithmetic.sum,
                    )
                    &&& after.variations@ == variations.skip(next + 1)
                    &&& after.interpolation == Some(Interpolation { index: 1, ..started })
                };
            lemma_total_ticks(variations, next);
            lemma_total_ticks(variations.skip(next + 1), 0);
        }
    }
}

/// A script takes the ticks of its variations from its start.
pub proof fn law_script_takes_its_ticks<V, S: Fn(V, V) -> V>(
    status: SensorStatus<V>,
    config: SensorConfig<V>,
    sum: S,
)
    requires
        started(status, config, sum),
    ensures
        status.remaining() == total_ticks(config.variations@),
{
    lemma_total_ticks(config.variations@, 0);
    if config.variations@.len() > 0 {
        assert(config.variations@.skip(1) == config.variations@.drop_first());
    }
}

/// A script all of whose ticks can be counted up takes a tick, and is such a script after it.
pub proof fn law_countable_script_takes_ticks<V, S: Fn(V, V) -> V, L: Fn(V, V, usize, usize) -> V>(
    before: SensorStatus<V>,
    arithmetic: Arithmetic<S, L>,
    after: SensorStatus<V>,
    changed: bool,
)
    requires
        all_countable(before.variations@),
    ensures
        before.can_tick(),
        ticked(before, arithmetic, after, changed) ==> all_countable(after.variations@),
{
}

/// Once a tick has left a value as it was, so do all that follow.
pub proof fn law_script_stays_over<V, S: Fn(V, V) -> V, L: Fn(V, V, usize, usize) -> V>(
    before: SensorStatus<V>,
    arithmetic: Arithmetic<S, L>,
    after: SensorStatus<V>,
    later: SensorStatus<V>,
    changed: bool,
)
    requires
        ticked(before, arithmetic, after, false),
        ticked(after, arithmetic, later, changed),
    ensures
        !changed,
        later == after,
        later.current == before.current,
{
    law_each_tick_takes_one(before, arithmetic, after, false);
}

/// Reading a sensor changes nothing, and a new configuration keeps what it has measured.
pub proof fn law_measured_values_are_kept<
    V,
    S: Fn(V, V) -> V,
    L: Fn(V, V, usize, usize) -> V,
>(
    before: Thing<V>,
    event: Event<V>,
    arithmetic: Arithmetic<S, L>,
    after: Thing<V>,
    action: Action<V>,
)
    requires
        handled(before, event, arithmetic, after, action),
        !(event is Tick),
    ensures
        after.temperature.current == before.temperature.current,
        after.humidity.current == before.humidity.current,
{
}

/// A variation takes the least number of ticks that cover the whole milliseconds of its duration at
/// ten milliseconds each, as far as they can be counted.
pub proof fn law_ticks_cover_the_duration(duration: Span)
    ensures
        ({
            let millis = duration.nanos as int / 1_000_000;
            let ticks = ticks_in(duration);
            &&& 0 <= ticks
            &&& millis <= 10 * usize::MAX ==> 10 * (ticks - 1) < millis <= 10 * ticks
            &&& millis > 10 * usize::MAX ==> ticks >= usize::MAX
        }),
{
}

/// Ticks can be counted up unless the last of them is one that has begun and comes on top of as
/// many as can be counted.
pub proof fn law_ticks_can_be_counted(duration: Span, answer: bool)
    requires
        call_ensures(countable, (duration,), answer),
    ensures
        ({
            let millis = duration.nanos as int / 1_000_000;
            &&& answer <==> !(10 * usize::MAX < millis < 10 * (usize::MAX + 1))
            &&& answer <==> is_countable(duration)
        }),
{
}

/// A variation starts where the value is, leads to the value with the variation added, and has all
/// its ticks ahead.
pub proof fn law_variation_starts_from_the_value<V: Copy, S: Fn(V, V) -> V>(
    current: V,
    variation: SensorVariation<V>,
    sum: &S,
    change: Interpolation<V>,
)
    requires
        call_ensures(
            interpolation_from_variation::<V, S>,
            (current, variation, sum),
            change,
        ),
    ensures
        change.start == current,
        call_ensures(*sum, (current, variation.variation), change.end),
        change.index == 0,
        change.len == ticks_in(variation.duration),
{
}

/// A tick of a change counts, and gives the value that `lerp` works out for this very tick; once
/// all have been taken there is no more value, and nothing changes.
pub proof fn law_change_takes_its_ticks<V: Copy, L: Fn(V, V, usize, usize) -> V>(
    change: &mut Interpolation<V>,
    lerp: &L,
    value: Option<V>,
)
    requires
        call_ensures(Interpolation::<V>::step::<L>, (change, lerp), value),
    ensures
        value is Some <==> old(change).index < old(change).len,
        value is Some ==> final(change).index == old(change).index + 1,
        value is None ==> final(change).index == old(change).index,
        value matches Some(value) ==> call_ensures(
            *lerp,
            (old(change).start, old(change).end, final(change).index, old(change).len),
            value,
        ),
        final(change).start == old(change).start,
        final(change).end == old(change).end,
        final(change).len == old(change).len,
{
}

/// A tick takes the change in progress on by one of its ticks. Where it has none left, the first
/// variation ahead that takes a millisecond or more starts from the value as it is, with its first
/// tick, and those before it are dropped; where there is none, the script is over and the value
/// stays.
pub proof fn law_tick_follows_the_script<
    V: Copy,
    S: Fn(V, V) -> V,
    L: Fn(V, V, usize, usize) -> V,
>(
    status: &mut SensorStatus<V>,
    arithmetic: &Arithmetic<S, L>,
    changed: bool,
    next: int,
)
    requires
        call_ensures(SensorStatus::<V>::tick::<S, L>, (status, arithmetic), changed),
        0 <= next <= old(status).variations@.len(),
        forall|i: int|
            0 <= i < next ==> (#[trigger] old(status).variations@[i]).duration.nanos < 1_000_000,
        next < old(status).variations@.len() ==> old(status).variations@[next].duration.nanos
            >= 1_000_000,
    ensures
        old(status).interpolation matches Some(change) && change.index < change.len ==> {
            let change = old(status).interpolation->0;
            &&& changed
            &&& final(status).interpolation matches Some(now)
            &&& now.start == change.start && now.end == change.end && now.len == change.len
            &&& now.index == change.index + 1
            &&& final(status).variations@ == old(status).variations@
            &&& call_ensures(
                arithmetic.lerp,
                (change.start, change.end, now.index, change.len),
                final(status).current,
            )
        },
        old(status).interpolation matches Some(change) && change.index >= change.len ==> if next
            < old(status).variations@.len() {
            let variation = old(status).variations@[next];
            &&& changed
            &&& final(status).interpolation matches Some(now)
            &&& now.start == old(status).current
            &&& call_ensures(arithmetic.sum, (old(status).current, variation.variation), now.end)
            &&& now.len == ticks_in(variation.duration)
            &&& now.index == 1
            &&& final(status).variations@ == old(status).variations@.skip(next + 1)
            &&& call_ensures(
                arithmetic.lerp,
                (now.start, now.end, 1, now.len),
                final(status).current,
            )
        } else {
            &&& !changed
            &&& final(status).interpolation is None
            &&& final(status).variations@.len() == 0
            &&& final(status).current == old(status).current
        },
        old(status).interpolation is None ==> !changed && *final(status) == *old(status),
{
    let variations = old(status).variations@;
    lemma_total_ticks(variations, next);
    if next < variations.len() {
        lemma_total_ticks(variations.skip(next + 1), 0);
        assert(is_next(variations, next));
    } else {
        assert(variations.skip(next).len() == 0);
    }
    assert forall|other: int| #[trigger] is_next(variations, other) implies other == next by {
        if other < next {
            assert(variations[other].duration.nanos < 1_000_000);
        } else if next < other {
            assert(ticks_in(variations[next].duration) == 0);
        }
    }
}

/// A new configuration has both measured values follow their own new scripts from the start, and
/// keeps what has been measured: the change in progress is the first variation of the part of the
/// configuration that is for the value, from the configured initial value on, and the others are
/// ahead of it in order. The ticks start anew.
pub proof fn law_both_values_follow_their_new_scripts<
    V: Copy,
    S: Fn(V, V) -> V,
    L: Fn(V, V, usize, usize) -> V,
>(
    thing: &mut Thing<V>,
    config: Config<V>,
    arithmetic: &Arithmetic<S, L>,
    action: Action<V>,
)
    requires
        call_ensures(
            Thing::<V>::handle_event::<S, L>,
            (thing, Event::Config(config), arithmetic),
            action,
        ),
    ensures
        action is RestartTicking,
        ({
            let (status, script) = (final(thing).temperature, config.temperature);
            &&& status.current == old(thing).temperature.current
            &&& script.variations@.len() == 0 ==> {
                &&& status.interpolation is None
                &&& status.variations@.len() == 0
            }
            &&& script.variations@.len() > 0 ==> {
                let variation = script.variations@[0];
                &&& status.interpolation matches Some(change)
                &&& change.start == script.initial
                &&& call_ensures(arithmetic.sum, (script.initial, variation.variation), change.end)
                &&& change.index == 0
                &&& change.len == ticks_in(variation.duration)
                &&& status.variations@ == script.variations@.skip(1)
            }
            &&& status.remaining() == total_ticks(script.variations@)
        }),
        ({
            let (status, script) = (final(thing).humidity, config.humidity);
            &&& status.current == old(thing).humidity.current
            &&& script.variations@.len() == 0 ==> {
                &&& status.interpolation is None
                &&& status.variations@.len() == 0
            }
            &&& script.variations@.len() > 0 ==> {
                let variation = script.variations@[0];
                &&& status.interpolation matches Some(change)
                &&& change.start == script.initial
                &&& call_ensures(arithmetic.sum, (script.initial, variation.variation), change.end)
                &&& change.index == 0
                &&& change.len == ticks_in(variation.duration)
                &&& status.variations@ == script.variations@.skip(1)
            }
            &&& status.remaining() == total_ticks(script.variations@)
        }),
{
    assert(config.temperature.variations@.len() > 0 ==> config.temperature.variations@.skip(1)
        == config.temperature.variations@.drop_first());
    assert(config.humidity.variations@.len() > 0 ==> config.humidity.variations@.skip(1)
        == config.humidity.variations@.drop_first());
}

/// A sensor starts with both measured values at the start of their own scripts.
pub proof fn law_both_values_start_with_their_scripts<V: Copy, S: Fn(V, V) -> V>(
    config: Config<V>,
    sum: &S,
    thing: Thing<V>,
)
    requires
        call_ensures(Thing::<V>::new::<S>, (config, sum), thing),
    ensures
        ({
            let (status, script) = (thing.temperature, config.temperature);
            &&& status.current == script.initial
            &&& script.variations@.len() == 0 ==> {
                &&& status.interpolation is None
                &&& status.variations@.len() == 0
            }
            &&& script.variations@.len() > 0 ==> {
                let variation = script.variations@[0];
                &&& status.interpolation matches Some(change)
                &&& change.start == script.initial
                &&& call_ensures(*sum, (script.initial, variation.variation), change.end)
                &&& change.index == 0
                &&& change.len == ticks_in(variation.duration)
                &&& status.variations@ == script.variations@.skip(1)
            }
        }),
        ({
            let (status, script) = (thing.humidity, config.humidity);
            &&& status.current == script.initial
            &&& script.variations@.len() == 0 ==> {
                &&& status.interpolation is None
                &&& status.variations@.len() == 0
            }
            &&& script.variations@.len() > 0 ==> {
                let variation = script.variations@[0];
                &&& status.interpolation matches Some(change)
                &&& change.start == script.initial
                &&& call_ensures(*sum, (script.initial, variation.variation), change.end)
                &&& change.index == 0
                &&& change.len == ticks_in(variation.duration)
                &&& status.variations@ == script.variations@.skip(1)
            }
        }),
{
    assert(config.temperature.variations@.len() > 0 ==> config.temperature.variations@.skip(1)
        == config.temperature.variations@.drop_first());
    assert(config.humidity.variations@.len() > 0 ==> config.humidity.variations@.skip(1)
        == config.humidity.variations@.drop_first());
}

/// A tick takes both measured values through their scripts, each regardless of the other, and there
/// are no more ticks exactly once neither script has any left.
pub proof fn law_tick_is_for_both_values<
    V: Copy,
    S: Fn(V, V) -> V,
    L: Fn(V, V, usize, usize) -> V,
>(thing: &mut Thing<V>, arithmetic: &Arithmetic<S, L>, action: Action<V>)
    requires
        call_ensures(
            Thing::<V>::handle_event::<S, L>,
            (thing, Event::Tick, arithmetic),
            action,
        ),
    ensures
        ticked(
            old(thing).temperature,
            *arithmetic,
            final(thing).temperature,
            old(thing).temperature.remaining() > 0,
        ),
        ticked(
            old(thing).humidity,
            *arithmetic,
            final(thing).humidity,
            old(thing).humidity.remaining() > 0,
        ),
        old(thing).temperature.remaining() > 0 || old(thing).humidity.remaining() > 0 ==> action
            is Continue,
        old(thing).temperature.remaining() == 0 && old(thing).humidity.remaining() == 0 ==> action
            is StopTicking,
{
}

/// A sensor is read as it is, and neither that nor stopping changes it.
pub proof fn law_sensor_is_read<V: Copy, S: Fn(V, V) -> V, L: Fn(V, V, usize, usize) -> V>(
    thing: &mut Thing<V>,
    event: Event<V>,
    arithmetic: &Arithmetic<S, L>,
    action: Action<V>,
)
    requires
        event is Message || event is Stop,
        call_ensures(Thing::<V>::handle_event::<S, L>, (thing, event, arithmetic), action),
    ensures
        event == Event::<V>::Message(Message::GetTemperature) ==> action == Action::Reply(
            old(thing).temperature.current,
        ),
        event == Event::<V>::Message(Message::GetHumidity) ==> action == Action::Reply(
            old(thing).humidity.current,
        ),
        event is Stop ==> action is Stop,
        *final(thing) == *old(thing),
{
}

/// A request by itself is answered with the value that it names.
pub proof fn law_request_is_answered<V: Copy>(thing: &Thing<V>, message: Message, value: V)
    requires
        call_ensures(Thing::<V>::handle_message, (thing, message), value),
    ensures
        message is GetTemperature ==> value == thing.temperature.current,
        message is GetHumidity ==> value == thing.humidity.current,
{
}

/// A sensor can take every event but one that starts a variation whose ticks cannot be counted up.
pub proof fn law_sensor_can_take_events<V: Copy>(
    thing: &Thing<V>,
    event: &Event<V>,
    servable: bool,
)
    requires
        call_ensures(Thing::<V>::is_servable, (thing, event), servable),
        event matches Event::Config(config) ==> all_countable(config.temperature.variations@)
            && all_countable(config.humidity.variations@),
        event is Tick ==> all_countable(thing.temperature.variations@) && all_countable(
            thing.humidity.variations@,
        ),
    ensures
        servable,
{
}

/// Where a value gets to by the variations that take a millisecond or more, one after the other;
/// `added` adds a variation to a value.
pub open spec fn led_to<V>(
    value: V,
    variations: Seq<SensorVariation<V>>,
    added: spec_fn(V, V) -> V,
) -> V
    decreases variations.len(),
{
    if variations.len() == 0 {
        value
    } else {
        let first = variations[0];
        led_to(
            if first.duration.nanos >= 1_000_000 {
                added(value, first.variation)
            } else {
                value
            },
            variations.drop_first(),
            added,
        )
    }
}

/// Where a measured value gets to by the end of its script.
pub open spec fn destination<V>(status: SensorStatus<V>, added: spec_fn(V, V) -> V) -> V {
    match status.interpolation {
        Some(change) => led_to(
            if change.index < change.len {
                change.end
            } else {
                status.current
            },
            status.variations@,
            added,
        ),
        None => status.current,
    }
}

/// Variations that take no time lead nowhere.
proof fn lemma_led_to_skips<V>(
    value: V,
    variations: Seq<SensorVariation<V>>,
    added: spec_fn(V, V) -> V,
    next: int,
)
    requires
        0 <= next <= variations.len(),
        forall|i: int| 0 <= i < next ==> ticks_in((#[trigger] variations[i]).duration) == 0,
    ensures
        led_to(value, variations, added) == led_to(value, variations.skip(next), added),
    decreases next,
{
    if next > 0 {
        let rest = variations.drop_first();
        assert(ticks_in(variations[0].duration) == 0);
        assert forall|i: int| 0 <= i < next - 1 implies ticks_in((#[trigger] rest[i]).duration)
            == 0 by {
            assert(rest[i] == variations[i + 1]);
        }
        lemma_led_to_skips(value, rest, added, next - 1);
        assert(rest.skip(next - 1) == variations.skip(next));
    } else {
        assert(variations.skip(0) == variations);
    }
}

/// Each tick leads on to where the script leads, and a value whose script is over is there, where
/// `sum` adds as `added` does and `lerp` gives the end of a change for its last tick.
pub proof fn law_tick_leads_on<V, S: Fn(V, V) -> V, L: Fn(V, V, usize, usize) -> V>(
    before: SensorStatus<V>,
    arithmetic: Arithmetic<S, L>,
    after: SensorStatus<V>,
    changed: bool,
    added: spec_fn(V, V) -> V,
)
    requires
        forall|value: V, variation: V, result: V| #[trigger]
            call_ensures(arithmetic.sum, (value, variation), result) ==> result == added(
                value,
                variation,
            ),
        forall|start: V, end: V, len: usize| #[trigger]
            lands_on_end(arithmetic.lerp, start, end, len),
        ticked(before, arithmetic, after, changed),
    ensures
        destination(after, added) == destination(before, added),
        before.remaining() == 0 ==> before.current == destination(before, added),
{
    let variations = before.variations@;
    lemma_total_ticks(variations, 0);
    if let Some(change) = before.interpolation {
        assert(lands_on_end(arithmetic.lerp, change.start, change.end, change.len));
        if change.index >= change.len {
            if total_ticks(variations) == 0 {
                lemma_no_ticks(variations);
                lemma_led_to_skips(before.current, variations, added, variations.len() as int);
            } else {
                let (next, started) = choose|next: int, started: Interpolation<V>|
                    {
                        &&& is_next(variations, next)
                        &&& #[trigger] is_start(
                            started,
                            before.current,
                            #[trigger] variations[next],
                            arithmetic.sum,
                        )
                        &&& changed
                        &&& after.variations@ == variations.skip(next + 1)
                        &&& after.interpolation == Some(Interpolation { index: 1, ..started })
                        &&& call_ensures(
                            arithmetic.lerp,
                            (started.start, started.end, 1, started.len),
                            after.current,
                        )
                    };
                lemma_led_to_skips(before.current, variations, added, next);
                let rest = variations.skip(next);
                assert(rest[0] == variations[next]);
                assert(rest.drop_first() == variations.skip(next + 1));
                assert(lands_on_end(arithmetic.lerp, started.start, started.end, started.len));
            }
        } else {
            lemma_total_ticks(variations, 0);
        }
    }
}

/// Variations that take no ticks together take none each.
proof fn lemma_no_ticks<V>(variations: Seq<SensorVariation<V>>)
    requires
        total_ticks(variations) == 0,
    ensures
        forall|i: int|
            0 <= i < variations.len() ==> ticks_in((#[trigger] variations[i]).duration) == 0,
    decreases variations.len(),
{
    if variations.len() > 0 {
        let rest = variations.drop_first();
        lemma_total_ticks(rest, 0);
        lemma_no_ticks(rest);
        assert forall|i: int| 0 <= i < variations.len() implies ticks_in(
            (#[trigger] variations[i]).duration,
        ) == 0 by {
            if i > 0 {
                assert(rest[i - 1] == variations[i]);
            }
        }
    }
}

/// After as many ticks as its script takes, and from then on, a measured value is where its script
/// leads, whether it is followed from the start or from the middle, where `sum` adds as `added`
/// does and `lerp` gives the end of a change for its last tick.
pub proof fn law_script_leads_to_its_destination<
    V,
    S: Fn(V, V) -> V,
    L: Fn(V, V, usize, usize) -> V,
>(
    statuses: Seq<SensorStatus<V>>,
    arithmetic: Arithmetic<S, L>,
    changed: Seq<bool>,
    added: spec_fn(V, V) -> V,
    ticks: nat,
)
    requires
        forall|value: V, variation: V, result: V| #[trigger]
            call_ensures(arithmetic.sum, (value, variation), result) ==> result == added(
                value,
                variation,
            ),
        forall|start: V, end: V, len: usize| #[trigger]
            lands_on_end(arithmetic.lerp, start, end, len),
        ticks < statuses.len(),
        forall|i: int|
            0 <= i < statuses.len() - 1 ==> ticked(
                #[trigger] statuses[i],
                arithmetic,
                statuses[i + 1],
                changed[i],
            ),
        statuses[0].remaining() <= ticks,
    ensures
        statuses[ticks as int].current == destination(statuses[0], added),
        statuses[ticks as int].remaining() == 0,
    decreases ticks,
{
    let first = statuses[0];
    lemma_total_ticks(first.variations@, 0);
    if ticks == 0 {
        if let Some(change) = first.interpolation {
            lemma_no_ticks(first.variations@);
            lemma_led_to_skips(
                first.current,
                first.variations@,
                added,
                first.variations@.len() as int,
            );
        }
    } else {
        assert(ticked(statuses[0], arithmetic, statuses[1], changed[0]));
        law_tick_leads_on(first, arithmetic, statuses[1], changed[0], added);
        law_each_tick_takes_one(first, arithmetic, statuses[1], changed[0]);
        let rest = statuses.drop_first();
        let rest_changed = Seq::new(rest.len(), |i: int| changed[i + 1]);
        assert forall|i: int| 0 <= i < rest.len() - 1 implies ticked(
            #[trigger] rest[i],
            arithmetic,
            rest[i + 1],
            rest_changed[i],
        ) by {
            assert(rest[i] == statuses[i + 1]);
            assert(ticked(statuses[i + 1], arithmetic, statuses[i + 1 + 1], changed[i + 1]));
        }
        law_script_leads_to_its_destination(
            rest,
            arithmetic,
            rest_changed,
            added,
            (ticks - 1) as nat,
        );
    }
}

/// At each tick of a change, the value is the one that `lerp` gives for this very tick.
pub proof fn law_value_is_on_the_way<V, S: Fn(V, V) -> V, L: Fn(V, V, usize, usize) -> V>(
    statuses: Seq<SensorStatus<V>>,
    arithmetic: Arithmetic<S, L>,
    changed: Seq<bool>,
    ticks: nat,
)
    requires
        ticks < statuses.len(),
        forall|i: int|
            0 <= i < statuses.len() - 1 ==> ticked(
                #[trigger] statuses[i],
                arithmetic,
                statuses[i + 1],
                changed[i],
            ),
        statuses[0].interpolation matches Some(change) && change.index == 0 && ticks <= change.len,
    ensures
        ({
            let change = statuses[0].interpolation->0;
            &&& statuses[ticks as int].interpolation matches Some(now)
            &&& now.start == change.start && now.end == change.end && now.len == change.len
            &&& now.index == ticks
            &&& statuses[ticks as int].variations@ == statuses[0].variations@
            &&& ticks > 0 ==> call_ensures(
                arithmetic.lerp,
                (change.start, change.end, ticks as usize, change.len),
                statuses[ticks as int].current,
            )
        }),
    decreases ticks,
{
    if ticks > 0 {
        law_value_is_on_the_way(statuses, arithmetic, changed, (ticks - 1) as nat);
        assert(ticked(
            statuses[ticks - 1],
            arithmetic,
            statuses[ticks - 1 + 1],
            changed[ticks - 1],
        ));
    }
}

/// A new configuration has each measured value go where its own new script leads from the
/// configured initial value, where the first variation takes a millisecond or more.
pub proof fn law_new_scripts_lead_both_values<
    V: Copy,
    S: Fn(V, V) -> V,
    L: Fn(V, V, usize, usize) -> V,
>(
    thing: &mut Thing<V>,
    config: Config<V>,
    arithmetic: &Arithmetic<S, L>,
    action: Action<V>,
    added: spec_fn(V, V) -> V,
)
    requires
        call_ensures(
            Thing::<V>::handle_event::<S, L>,
            (thing, Event::Config(config), arithmetic),
            action,
        ),
        forall|value: V, variation: V, result: V| #[trigger]
            call_ensures(arithmetic.sum, (value, variation), result) ==> result == added(
                value,
                variation,
            ),
    ensures
        config.temperature.variations@.len() > 0
            && config.temperature.variations@[0].duration.nanos >= 1_000_000 ==> destination(
            final(thing).temperature,
            added,
        ) == led_to(config.temperature.initial, config.temperature.variations@, added),
        config.humidity.variations@.len() > 0 && config.humidity.variations@[0].duration.nanos
            >= 1_000_000 ==> destination(final(thing).humidity, added) == led_to(
            config.humidity.initial,
            config.humidity.variations@,
            added,
        ),
{
}

/// A script can start unless the ticks of its first variation cannot be counted up, whatever those
/// of the others.
pub proof fn law_script_can_start<V>(config: &SensorConfig<V>, answer: bool)
    requires
        call_ensures(SensorConfig::<V>::is_startable, (config,), answer),
    ensures
        config.variations@.len() == 0 ==> answer,
        config.variations@.len() > 0 ==> (answer <==> ({
            let millis = config.variations@[0].duration.nanos as int / 1_000_000;
            !(10 * usize::MAX < millis < 10 * (usize::MAX + 1))
        })),
{
}

/// A value can take a tick unless the tick starts a variation whose ticks cannot be counted up:
/// while a change is in progress, or once the script is over, it always can, whatever is ahead.
pub proof fn law_value_can_take_a_tick<V>(status: &SensorStatus<V>, answer: bool, next: int)
    requires
        call_ensures(SensorStatus::<V>::is_tickable, (status,), answer),
        0 <= next <= status.variations@.len(),
        forall|i: int|
            0 <= i < next ==> (#[trigger] status.variations@[i]).duration.nanos < 1_000_000,
        next < status.variations@.len() ==> status.variations@[next].duration.nanos >= 1_000_000,
    ensures
        status.interpolation is None ==> answer,
        status.interpolation matches Some(change) && change.index < change.len ==> answer,
        status.interpolation matches Some(change) && change.index >= change.len ==> (answer <==> (
        next < status.variations@.len() ==> ({
            let millis = status.variations@[next].duration.nanos as int / 1_000_000;
            !(10 * usize::MAX < millis < 10 * (usize::MAX + 1))
        }))),
{
    let variations = status.variations@;
    if next < variations.len() {
        assert(is_next(variations, next));
    }
    assert forall|other: int| #[trigger] is_next(variations, other) implies other == next by {
        if other < next {
            assert(variations[other].duration.nanos < 1_000_000);
        } else if next < other {
            assert(ticks_in(variations[next].duration) == 0);
        }
    }
}

/// A sensor can take an event exactly where both its values can: both scripts of a new
/// configuration can start, or both values can take a tick. It can always be read and stopped.
pub proof fn law_sensor_can_take_what_its_values_can<V: Copy>(
    thing: &Thing<V>,
    event: &Event<V>,
    servable: bool,
)
    requires
        call_ensures(Thing::<V>::is_servable, (thing, event), servable),
    ensures
        event matches Event::Config(config) ==> (servable <==> config.temperature.can_start()
            && config.humidity.can_start()),
        event is Tick ==> (servable <==> thing.temperature.can_tick()
            && thing.humidity.can_tick()),
        event is Message || event is Stop ==> servable,
{
}

} // verus!
