//! A switch with a fractional brightness that fades on request.
//!
//! Brightnesses are of any type; what there is to compute on them is handed in.
use crate::action::{
    complete_action, is_new_fade, new_fade, with_first_completed, ActionStatusStatus, Completion,
    StoredAction, StoredActionType,
};
use crate::clock::{now_utc, Span, Timestamp, NANOS_PER_SEC};
use crate::fade_switch::{count_secs, counted_secs, FadeActionInput};
use crate::fader::{
    fade_goal, float_run_steps, float_steps, goal, law_fractional_fade_reaches_its_goal,
    law_fractional_level_is_due_at_each_step, lemma_stepped_faders, Change, Fader, MAX_LEVEL, MIN_LEVEL,
};
use crate::ident::{hyphenated_text, is_random, new_v4};
use crate::status_code::{BAD_REQUEST, NO_CONTENT};
use vstd::prelude::*;

verus! {

/// The brightness of a switch at first.
pub const INITIAL_BRIGHTNESS: u8 = 50;

/// A switch.
#[derive(Debug)]
pub struct Thing<V> {
    pub is_on: bool,
    pub brightness: V,
    pub actions: Vec<StoredAction<FadeActionInput>>,
    pub fader: Fader<V, Change<V>>,
}

/// A request to a switch.
#[derive(Debug)]
pub enum Message<V> {
    GetIsOn,
    SetIsOn(bool),
    GetBrightness,
    SetBrightness(V),
    Fade { level: u8, time_requested: Timestamp, duration: Span },
    CompleteAction(u128),
}

/// The answer to a [`Message`].
#[derive(Debug)]
pub enum Reply<V> {
    IsOn(bool),
    Brightness(V),
    Fade(StoredAction<FadeActionInput>),
}

/// What is to be done once a request has been served.
#[derive(Debug)]
pub struct Outcome<V> {
    /// The answer, where the request has one.
    pub reply: Option<Reply<V>>,
    /// The action to complete later, where the request has started one.
    pub completion: Option<Completion>,
}

/// The request for a fade with the given input, made at the given time.
pub open spec fn fade_request<V>(data: FadeActionInput, time_requested: Timestamp) -> Message<V> {
    Message::Fade {
        level: data.level,
        time_requested,
        duration: Span { nanos: (data.duration * NANOS_PER_SEC) as u128 },
    }
}

/// The request for a fade with the given input, made at the given time.
pub fn fade_requested_at<V>(data: FadeActionInput, time_requested: Timestamp) -> (message: Message<
    V,
>)
    ensures
        message == fade_request::<V>(data, time_requested),
{
    let FadeActionInput { level, duration } = data;
    Message::Fade { level, time_requested, duration: Span::from_secs(duration as u64) }
}

/// The request for a fade with the given input, made now.
pub fn fade<V>(data: FadeActionInput) -> (message: Message<V>)
    ensures
        exists|now: Timestamp| message == #[trigger] fade_request::<V>(data, now),
{
    fade_requested_at(data, now_utc())
}

/// What there is to compute on brightnesses.
#[derive(Debug)]
pub struct Arithmetic<L, M, P, D, R> {
    /// The brightness at a level.
    pub level: L,
    /// What is left of the second of two brightnesses once the first is taken away.
    pub difference: M,
    /// The brightness on the way of a fade, as for [`Fader::tick_float`].
    pub place: P,
    /// Whether two brightnesses differ.
    pub differs: D,
    /// Whether a brightness lies between two levels.
    pub in_range: R,
}

impl<V> Thing<V> {
    pub open spec fn wf(self) -> bool {
        self.fader.wf()
    }

    /// Whether a fade starts from the given brightness: that of a switch that is on, or else that
    /// at the lowest level.
    pub open spec fn starts_from<L: Fn(u8) -> V>(self, level: L, brightness: V) -> bool {
        if self.is_on {
            brightness == self.brightness
        } else {
            call_ensures(level, (MIN_LEVEL,), brightness)
        }
    }
}

/// What holds of a switch that has started a fade, where the fade was served at `now` and given
/// the identifier `id`.
pub open spec fn fade_started<V, L: Fn(u8) -> V, M: Fn(V, V) -> V>(
    before: Thing<V>,
    fade_level: u8,
    time_requested: Timestamp,
    duration: Span,
    now: Timestamp,
    id: u128,
    level: L,
    difference: M,
    after: Thing<V>,
    outcome: Outcome<V>,
) -> bool {
    let change = after.fader.delta_level;
    &&& outcome.reply matches Some(Reply::Fade(action))
    &&& is_new_fade(
        action,
        id,
        FadeActionInput { level: fade_level, duration: counted_secs(duration) },
        time_requested,
    )
    &&& after.is_on
    &&& before.starts_from(level, after.brightness)
    &&& call_ensures(level, (goal(fade_level),), change.to)
    &&& call_ensures(difference, (after.brightness, change.to), change.by)
    &&& after.fader == Fader::<V, Change<V>>::started(after.brightness, change, duration)
    &&& after.actions@ == before.actions@.push(action)
    &&& outcome.completion == Some(
        Completion { id, wait: duration.minus(now.since(time_requested)) },
    )
}

/// What serving a request makes of a switch, and what is to be done then, where the clock shows
/// `now` and the next identifier is `id`.
pub open spec fn handled<V, L: Fn(u8) -> V, M: Fn(V, V) -> V, P, D, R: Fn(V, u8, u8) -> bool>(
    before: Thing<V>,
    message: Message<V>,
    now: Timestamp,
    id: u128,
    arithmetic: Arithmetic<L, M, P, D, R>,
    after: Thing<V>,
    outcome: Outcome<V>,
) -> bool {
    let quiet = Outcome { reply: None::<Reply<V>>, completion: None };
    match message {
        Message::GetIsOn => {
            &&& after == before
            &&& outcome == (Outcome { reply: Some(Reply::IsOn(before.is_on)), ..quiet })
        },
        Message::SetIsOn(value) => {
            &&& after == (Thing { is_on: value, ..before })
            &&& outcome == quiet
        },
        Message::GetBrightness => {
            &&& after == before
            &&& outcome == (Outcome { reply: Some(Reply::Brightness(before.brightness)), ..quiet })
        },
        Message::SetBrightness(value) => {
            &&& exists|in_range: bool| #[trigger]
                call_ensures(arithmetic.in_range, (value, MIN_LEVEL, MAX_LEVEL), in_range)
                    && after == if in_range {
                    Thing { brightness: value, ..before }
                } else {
                    before
                }
            &&& outcome == quiet
        },
        Message::Fade { level, time_requested, duration } => fade_started(
            before,
            level,
            time_requested,
            duration,
            now,
            id,
            arithmetic.level,
            arithmetic.difference,
            after,
            outcome,
        ),
        Message::CompleteAction(done) => {
            &&& after == (Thing { actions: after.actions, ..before })
            &&& with_first_completed(before.actions@, done, now, after.actions@)
            &&& outcome == quiet
        },
    }
}

/// What a step of ten milliseconds makes of a switch.
pub open spec fn ticked<V, P: Fn(V, V, u32, u32, u8, u8) -> V, D: Fn(V, V) -> bool>(
    before: Thing<V>,
    place: P,
    differs: D,
    after: Thing<V>,
) -> bool {
    &&& after == (Thing {
        brightness: after.brightness,
        fader: before.fader.stepped(),
        ..before
    })
    &&& float_steps(before.fader, place, differs, before.brightness, after.brightness)
}

impl<V: Copy> Thing<V> {
    /// The switch that is on at first, at half its brightness. `level` gives the brightness at a
    /// level.
    pub fn new<L: Fn(u8) -> V>(level: &L) -> (thing: Self)
        requires
            forall|args: (u8,)| #[trigger] call_requires(*level, args),
        ensures
            thing.is_on,
            call_ensures(*level, (INITIAL_BRIGHTNESS,), thing.brightness),
            thing.actions@.len() == 0,
            !thing.fader.active,
            thing.wf(),
    {
        let zero = level(MIN_LEVEL);
        Thing {
            is_on: true,
            brightness: level(INITIAL_BRIGHTNESS),
            actions: Vec::new(),
            fader: Fader::idle(zero, Change { by: zero, to: zero }),
        }
    }

    /// Serves a request for a fade at `now`, with `id` as the identifier of the fade.
    pub fn fade_at<L: Fn(u8) -> V, M: Fn(V, V) -> V>(
        &mut self,
        fade_level: u8,
        time_requested: Timestamp,
        duration: Span,
        now: Timestamp,
        id: u128,
        level: &L,
        difference: &M,
    ) -> (outcome: Outcome<V>)
        requires
            old(self).wf(),
            forall|args: (u8,)| #[trigger] call_requires(*level, args),
            forall|args: (V, V)| #[trigger] call_requires(*difference, args),
        ensures
            final(self).wf(),
            fade_started(
                *old(self),
                fade_level,
                time_requested,
                duration,
                now,
                id,
                *level,
                *difference,
                *final(self),
                outcome,
            ),
    {
        let wait = duration.saturating_sub(now.elapsed_since(time_requested));
        let output = FadeActionInput { level: fade_level, duration: count_secs(duration) };
        let action = new_fade(id, output, time_requested);
        self.actions.push(action.clone());

        if !self.is_on {
            self.brightness = level(MIN_LEVEL);
            self.is_on = true;
        }
        let final_level = level(fade_goal(fade_level));
        self.fader.fade_float(self.brightness, final_level, duration, difference);

        Outcome { reply: Some(Reply::Fade(action)), completion: Some(Completion { id, wait }) }
    }

    /// Serves a request, where the clock shows `now` and the next identifier is `id`.
    pub fn handle_message_at<L: Fn(u8) -> V, M: Fn(V, V) -> V, P, D, R: Fn(V, u8, u8) -> bool>(
        &mut self,
        message: Message<V>,
        now: Timestamp,
        id: u128,
        arithmetic: &Arithmetic<L, M, P, D, R>,
    ) -> (outcome: Outcome<V>)
        requires
            old(self).wf(),
            forall|args: (u8,)| #[trigger] call_requires(arithmetic.level, args),
            forall|args: (V, V)| #[trigger] call_requires(arithmetic.difference, args),
            forall|args: (V, u8, u8)| #[trigger] call_requires(arithmetic.in_range, args),
        ensures
            final(self).wf(),
            handled(*old(self), message, now, id, *arithmetic, *final(self), outcome),
    {
        match message {
            Message::GetIsOn => Outcome {
                reply: Some(Reply::IsOn(self.is_on)),
                completion: None,
            },
            Message::SetIsOn(value) => {
                self.is_on = value;
                Outcome { reply: None, completion: None }
            },
            Message::GetBrightness => Outcome {
                reply: Some(Reply::Brightness(self.brightness)),
                completion: None,
            },
            Message::SetBrightness(value) => {
                let in_range = &arithmetic.in_range;
                if in_range(value, MIN_LEVEL, MAX_LEVEL) {
                    self.brightness = value;
                }
                Outcome { reply: None, completion: None }
            },
            Message::Fade { level, time_requested, duration } => self.fade_at(
                level,
                time_requested,
                duration,
                now,
                id,
                &arithmetic.level,
                &arithmetic.difference,
            ),
            Message::CompleteAction(id) => {
                let _ = complete_action(&mut self.actions, id, now);
                Outcome { reply: None, completion: None }
            },
        }
    }

    /// Serves a request now, with a random identifier for a new action.
    pub fn handle_message<L: Fn(u8) -> V, M: Fn(V, V) -> V, P, D, R: Fn(V, u8, u8) -> bool>(
        &mut self,
        message: Message<V>,
        arithmetic: &Arithmetic<L, M, P, D, R>,
    ) -> (outcome: Outcome<V>)
        requires
            old(self).wf(),
            forall|args: (u8,)| #[trigger] call_requires(arithmetic.level, args),
            forall|args: (V, V)| #[trigger] call_requires(arithmetic.difference, args),
            forall|args: (V, u8, u8)| #[trigger] call_requires(arithmetic.in_range, args),
        ensures
            final(self).wf(),
            exists|now: Timestamp, id: u128|
                is_random(id) && #[trigger] handled(
                    *old(self),
                    message,
                    now,
                    id,
                    *arithmetic,
                    *final(self),
                    outcome,
                ),
    {
        let now = now_utc();
        let id: u128 = new_v4();
        self.handle_message_at(message, now, id, arithmetic)
    }

    /// Takes the switch through ten milliseconds, with `place` and `differs` as for
    /// [`Fader::tick_float`].
    pub fn handle_tick<P: Fn(V, V, u32, u32, u8, u8) -> V, D: Fn(V, V) -> bool>(
        &mut self,
        place: &P,
        differs: &D,
    )
        requires
            old(self).wf(),
            forall|args: (V, V, u32, u32, u8, u8)| #[trigger] call_requires(*place, args),
            forall|args: (V, V)| #[trigger] call_requires(*differs, args),
        ensures
            final(self).wf(),
            ticked(*old(self), *place, *differs, *final(self)),
    {
        self.fader.tick_float(&mut self.brightness, place, differs);
    }
}

/// Something that happens to a running switch.
#[derive(Debug)]
pub enum LoopEvent<V> {
    Message(Message<V>),
    Tick,
    Stop,
}

/// Takes a running switch through what happens to it. There is no outcome where it stops.
pub fn handle_event<
    V: Copy,
    L: Fn(u8) -> V,
    M: Fn(V, V) -> V,
    P: Fn(V, V, u32, u32, u8, u8) -> V,
    D: Fn(V, V) -> bool,
    R: Fn(V, u8, u8) -> bool,
>(thing: &mut Thing<V>, event: LoopEvent<V>, arithmetic: &Arithmetic<L, M, P, D, R>) -> (outcome:
    Option<Outcome<V>>)
    requires
        old(thing).wf(),
        forall|args: (u8,)| #[trigger] call_requires(arithmetic.level, args),
        forall|args: (V, V)| #[trigger] call_requires(arithmetic.difference, args),
        forall|args: (V, V, u32, u32, u8, u8)| #[trigger] call_requires(arithmetic.place, args),
        forall|args: (V, V)| #[trigger] call_requires(arithmetic.differs, args),
        forall|args: (V, u8, u8)| #[trigger] call_requires(arithmetic.in_range, args),
    ensures
        final(thing).wf(),
        match event {
            LoopEvent::Message(message) => {
                &&& outcome matches Some(outcome)
                &&& exists|now: Timestamp, id: u128|
                    is_random(id) && #[trigger] handled(
                        *old(thing),
                        message,
                        now,
                        id,
                        *arithmetic,
                        *final(thing),
                        outcome,
                    )
            },
            LoopEvent::Tick => {
                &&& outcome == Some(Outcome::<V> { reply: None, completion: None })
                &&& ticked(*old(thing), arithmetic.place, arithmetic.differs, *final(thing))
            },
            LoopEvent::Stop => outcome is None && *final(thing) == *old(thing),
        },
{
    match event {
        LoopEvent::Message(message) => Some(thing.handle_message(message, arithmetic)),
        LoopEvent::Tick => {
            thing.handle_tick(&arithmetic.place, &arithmetic.differs);
            Some(Outcome { reply: None, completion: None })
        },
        LoopEvent::Stop => None,
    }
}

/// The status code for a request to set the brightness, and what is asked of the switch, where
/// `in_range` finds the brightness to be one that it can have.
pub fn put_brightness_property<V: Copy, R: Fn(V, u8, u8) -> bool>(value: V, in_range: &R) -> (
    response: (u16, Option<Message<V>>))
    requires
        forall|args: (V, u8, u8)| #[trigger] call_requires(*in_range, args),
    ensures
        exists|accepted: bool| #[trigger]
            call_ensures(*in_range, (value, MIN_LEVEL, MAX_LEVEL), accepted) && response
                == if accepted {
                (NO_CONTENT, Some(Message::SetBrightness(value)))
            } else {
                (BAD_REQUEST, None)
            },
{
    if in_range(value, MIN_LEVEL, MAX_LEVEL) {
        (NO_CONTENT, Some(Message::SetBrightness(value)))
    } else {
        (BAD_REQUEST, None)
    }
}

/// What was written to a property is read back, where it is within bounds.
pub proof fn law_properties_are_read_back<
    V,
    L: Fn(u8) -> V,
    M: Fn(V, V) -> V,
    P,
    D,
    R: Fn(V, u8, u8) -> bool,
>(
    before: Thing<V>,
    is_on: bool,
    brightness: V,
    now: Timestamp,
    id: u128,
    arithmetic: Arithmetic<L, M, P, D, R>,
    switched: Thing<V>,
    written: Thing<V>,
    after: Thing<V>,
    outcomes: (Outcome<V>, Outcome<V>, Outcome<V>, Outcome<V>),
)
    requires
        forall|accepted: bool| #[trigger]
            call_ensures(arithmetic.in_range, (brightness, MIN_LEVEL, MAX_LEVEL), accepted)
                ==> accepted,
        handled(before, Message::SetIsOn(is_on), now, id, arithmetic, switched, outcomes.0),
        handled(
            switched,
            Message::SetBrightness(brightness),
            now,
            id,
            arithmetic,
            written,
            outcomes.1,
        ),
        handled(written, Message::GetIsOn, now, id, arithmetic, after, outcomes.2),
        handled(written, Message::GetBrightness, now, id, arithmetic, after, outcomes.3),
    ensures
        outcomes.2.reply == Some(Reply::<V>::IsOn(is_on)),
        outcomes.3.reply == Some(Reply::Brightness(brightness)),
{
}

/// Whether a switch has a brightness within bounds and fades to such a one only, where `bounded`
/// holds of the brightnesses within bounds.
pub open spec fn keeps_bounds<V>(thing: Thing<V>, bounded: spec_fn(V) -> bool) -> bool {
    &&& bounded(thing.brightness)
    &&& thing.fader.active ==> bounded(thing.fader.delta_level.to)
}

/// Whether what is computed is within bounds: the brightness at every level, that on the way of a
/// fade, and whatever is found to be in range.
pub open spec fn computes_bounded<
    V,
    L: Fn(u8) -> V,
    M,
    P: Fn(V, V, u32, u32, u8, u8) -> V,
    D,
    R: Fn(V, u8, u8) -> bool,
>(arithmetic: Arithmetic<L, M, P, D, R>, bounded: spec_fn(V) -> bool) -> bool {
    &&& forall|level: u8, brightness: V|
        level <= MAX_LEVEL && #[trigger] call_ensures(arithmetic.level, (level,), brightness)
            ==> bounded(brightness)
    &&& forall|initial: V, by: V, ticks: u32, tick: u32, brightness: V| #[trigger]
        call_ensures(
            arithmetic.place,
            (initial, by, ticks, tick, MIN_LEVEL, MAX_LEVEL),
            brightness,
        ) ==> bounded(brightness)
    &&& forall|brightness: V| #[trigger]
        call_ensures(arithmetic.in_range, (brightness, MIN_LEVEL, MAX_LEVEL), true) ==> bounded(
            brightness,
        )
}

/// Neither a request nor a step leads the brightness out of bounds.
pub proof fn law_brightness_stays_within_bounds<
    V,
    L: Fn(u8) -> V,
    M: Fn(V, V) -> V,
    P: Fn(V, V, u32, u32, u8, u8) -> V,
    D: Fn(V, V) -> bool,
    R: Fn(V, u8, u8) -> bool,
>(
    before: Thing<V>,
    message: Message<V>,
    now: Timestamp,
    id: u128,
    arithmetic: Arithmetic<L, M, P, D, R>,
    after: Thing<V>,
    outcome: Outcome<V>,
    bounded: spec_fn(V) -> bool,
)
    requires
        keeps_bounds(before, bounded),
        computes_bounded(arithmetic, bounded),
        handled(before, message, now, id, arithmetic, after, outcome) || ticked(
            before,
            arithmetic.place,
            arithmetic.differs,
            after,
        ),
    ensures
        keeps_bounds(after, bounded),
{
}

/// A fade leads the switch to the brightness at the level that was asked for, within bounds: there
/// it is after all the steps of the fade, and there it stays, whatever `place` and `differs` gave.
pub proof fn law_fade_reaches_its_goal<
    V,
    L: Fn(u8) -> V,
    M: Fn(V, V) -> V,
    P: Fn(V, V, u32, u32, u8, u8) -> V,
    D: Fn(V, V) -> bool,
    R: Fn(V, u8, u8) -> bool,
>(
    before: Thing<V>,
    fade_level: u8,
    time_requested: Timestamp,
    duration: Span,
    now: Timestamp,
    id: u128,
    arithmetic: Arithmetic<L, M, P, D, R>,
    outcome: Outcome<V>,
    things: Seq<Thing<V>>,
    steps: nat,
)
    requires
        steps < things.len(),
        handled(
            before,
            Message::Fade { level: fade_level, time_requested, duration },
            now,
            id,
            arithmetic,
            things[0],
            outcome,
        ),
        forall|i: int|
            0 <= i < things.len() - 1 ==> ticked(
                #[trigger] things[i],
                arithmetic.place,
                arithmetic.differs,
                things[i + 1],
            ),
        things[0].fader.remaining() <= steps,
    ensures
        call_ensures(arithmetic.level, (goal(fade_level),), things[steps as int].brightness),
        fade_level <= 100 ==> call_ensures(
            arithmetic.level,
            (fade_level,),
            things[steps as int].brightness,
        ),
        fade_level > 100 ==> call_ensures(
            arithmetic.level,
            (100u8,),
            things[steps as int].brightness,
        ),
        !things[steps as int].fader.active,
{
    let (place, differs) = (arithmetic.place, arithmetic.differs);
    let fader = things[0].fader;
    let levels = things.map_values(|thing: Thing<V>| thing.brightness);
    let faders = things.map_values(|thing: Thing<V>| thing.fader);
    assert forall|i: int| 0 <= i < faders.len() - 1 implies faders[i + 1] == (
    #[trigger] faders[i]).stepped() by {
        assert(ticked(things[i], place, differs, things[i + 1]));
    }
    assert forall|i: int| 0 <= i < levels.len() - 1 implies #[trigger] float_run_steps(
        fader,
        place,
        differs,
        levels,
        i,
    ) by {
        lemma_stepped_faders(faders, i as nat);
        assert(ticked(things[i], place, differs, things[i + 1]));
    }
    lemma_stepped_faders(faders, steps);
    law_fractional_fade_reaches_its_goal(fader, place, differs, levels, steps);
}

/// Once as many tens of milliseconds have passed as fit into its duration, and at least one, a fade
/// has led the switch to the brightness at the level that was asked for, or at 100 where more was
/// asked for.
pub proof fn law_fade_is_over_after_its_duration<
    V,
    L: Fn(u8) -> V,
    M: Fn(V, V) -> V,
    P: Fn(V, V, u32, u32, u8, u8) -> V,
    D: Fn(V, V) -> bool,
    R: Fn(V, u8, u8) -> bool,
>(
    before: Thing<V>,
    level: u8,
    time_requested: Timestamp,
    duration: Span,
    now: Timestamp,
    id: u128,
    arithmetic: Arithmetic<L, M, P, D, R>,
    outcome: Outcome<V>,
    things: Seq<Thing<V>>,
    steps: nat,
)
    requires
        0 < steps < things.len(),
        (steps + 1) * 10_000_000 > duration.nanos || (steps + 1) * 10 > u32::MAX,
        handled(
            before,
            Message::Fade { level, time_requested, duration },
            now,
            id,
            arithmetic,
            things[0],
            outcome,
        ),
        forall|i: int|
            0 <= i < things.len() - 1 ==> ticked(
                #[trigger] things[i],
                arithmetic.place,
                arithmetic.differs,
                things[i + 1],
            ),
    ensures
        level <= 100 ==> call_ensures(
            arithmetic.level,
            (level,),
            things[steps as int].brightness,
        ),
        level > 100 ==> call_ensures(arithmetic.level, (100u8,), things[steps as int].brightness),
{
    law_fade_reaches_its_goal(
        before,
        level,
        time_requested,
        duration,
        now,
        id,
        arithmetic,
        outcome,
        things,
        steps,
    );
}

/// On the way of a fade, after each step but the last, the brightness is the one that `place` gives
/// for this very step, or stays where `differs` does not tell it from that one.
pub proof fn law_brightness_on_the_way_is_due<
    V,
    L: Fn(u8) -> V,
    M: Fn(V, V) -> V,
    P: Fn(V, V, u32, u32, u8, u8) -> V,
    D: Fn(V, V) -> bool,
    R: Fn(V, u8, u8) -> bool,
>(
    before: Thing<V>,
    level: u8,
    time_requested: Timestamp,
    duration: Span,
    now: Timestamp,
    id: u128,
    arithmetic: Arithmetic<L, M, P, D, R>,
    outcome: Outcome<V>,
    things: Seq<Thing<V>>,
    step: nat,
) -> (due: V)
    requires
        0 < step < things.len(),
        (step + 1) * 10_000_000 <= duration.nanos,
        (step + 1) * 10 <= u32::MAX,
        handled(
            before,
            Message::Fade { level, time_requested, duration },
            now,
            id,
            arithmetic,
            things[0],
            outcome,
        ),
        forall|i: int|
            0 <= i < things.len() - 1 ==> ticked(
                #[trigger] things[i],
                arithmetic.place,
                arithmetic.differs,
                things[i + 1],
            ),
    ensures
        call_ensures(
            arithmetic.place,
            (
                things[0].brightness,
                things[0].fader.delta_level.by,
                things[0].fader.ticks,
                step as u32,
                0,
                100,
            ),
            due,
        ),
        things[step as int].brightness == due || (things[step as int].brightness == things[step
            - 1].brightness && call_ensures(
            arithmetic.differs,
            (things[step - 1].brightness, due),
            false,
        )),
{
    let (place, differs) = (arithmetic.place, arithmetic.differs);
    let fader = things[0].fader;
    let levels = things.map_values(|thing: Thing<V>| thing.brightness);
    let faders = things.map_values(|thing: Thing<V>| thing.fader);
    assert forall|i: int| 0 <= i < faders.len() - 1 implies faders[i + 1] == (
    #[trigger] faders[i]).stepped() by {
        assert(ticked(things[i], place, differs, things[i + 1]));
    }
    assert forall|i: int| 0 <= i < levels.len() - 1 implies #[trigger] float_run_steps(
        fader,
        place,
        differs,
        levels,
        i,
    ) by {
        lemma_stepped_faders(faders, i as nat);
        assert(ticked(things[i], place, differs, things[i + 1]));
    }
    law_fractional_level_is_due_at_each_step(fader, place, differs, levels, step)
}

/// A step of ten milliseconds leaves all of a switch as it is but its brightness and its fade.
/// Whether the switch is on or off, a fade in progress comes one step closer to its end, at which
/// the brightness is the one that the fade is for; before its end what `place` gives for this very
/// step is due. Without a fade in progress the brightness stays.
pub proof fn law_step_fades<V, P: Fn(V, V, u32, u32, u8, u8) -> V, D: Fn(V, V) -> bool>(
    before: Thing<V>,
    place: P,
    differs: D,
    after: Thing<V>,
)
    requires
        before.fader.tick < u32::MAX,
        ticked(before, place, differs, after),
    ensures
        after.is_on == before.is_on,
        after.actions == before.actions,
        after.fader.initial_level == before.fader.initial_level,
        after.fader.delta_level == before.fader.delta_level,
        after.fader.ticks == before.fader.ticks,
        !before.fader.active ==> after.brightness == before.brightness && after.fader
            == before.fader,
        before.fader.active ==> {
            &&& after.fader.tick == before.fader.tick + 1
            &&& after.fader.active <==> before.fader.tick + 1 < before.fader.ticks
        },
        before.fader.active && !after.fader.active ==> after.brightness
            == before.fader.delta_level.to,
        after.fader.active ==> exists|due: V|
            {
                &&& #[trigger] call_ensures(
                    place,
                    (
                        before.fader.initial_level,
                        before.fader.delta_level.by,
                        before.fader.ticks,
                        after.fader.tick,
                        0,
                        100,
                    ),
                    due,
                )
                &&& after.brightness == due || (after.brightness == before.brightness
                    && call_ensures(differs, (before.brightness, due), false))
            },
{
}

/// A fade turns the switch on, and starts from its brightness where it was on and from that at
/// level 0 otherwise. It is for the brightness at the level that was asked for, or at 100 where
/// more was asked for, by what `difference` gives between the two, and takes as many steps as whole
/// tens of milliseconds fit into its duration.
pub proof fn law_fade_turns_the_switch_on<
    V,
    L: Fn(u8) -> V,
    M: Fn(V, V) -> V,
    P: Fn(V, V, u32, u32, u8, u8) -> V,
    D: Fn(V, V) -> bool,
    R: Fn(V, u8, u8) -> bool,
>(
    before: Thing<V>,
    level: u8,
    time_requested: Timestamp,
    duration: Span,
    now: Timestamp,
    id: u128,
    arithmetic: Arithmetic<L, M, P, D, R>,
    after: Thing<V>,
    outcome: Outcome<V>,
)
    requires
        handled(
            before,
            Message::Fade { level, time_requested, duration },
            now,
            id,
            arithmetic,
            after,
            outcome,
        ),
    ensures
        after.is_on,
        before.is_on ==> after.brightness == before.brightness,
        !before.is_on ==> call_ensures(arithmetic.level, (0u8,), after.brightness),
        after.fader.active,
        after.fader.tick == 0,
        after.fader.initial_level == after.brightness,
        level <= 100 ==> call_ensures(arithmetic.level, (level,), after.fader.delta_level.to),
        level > 100 ==> call_ensures(arithmetic.level, (100u8,), after.fader.delta_level.to),
        call_ensures(
            arithmetic.difference,
            (after.brightness, after.fader.delta_level.to),
            after.fader.delta_level.by,
        ),
        after.fader.ticks * 10_000_000 <= duration.nanos,
        after.fader.ticks * 10 <= u32::MAX,
        (after.fader.ticks + 1) * 10_000_000 > duration.nanos || (after.fader.ticks + 1) * 10
            > u32::MAX,
{
}

/// A fade is recorded after the actions before it, under its identifier and as pending, with what
/// was asked for: the level, and the whole seconds that it takes as far as they can be counted.
/// What is recorded is what is answered, and it is completed when its duration is over, counted
/// from when it was requested.
pub proof fn law_fade_is_recorded<
    V,
    L: Fn(u8) -> V,
    M: Fn(V, V) -> V,
    P: Fn(V, V, u32, u32, u8, u8) -> V,
    D: Fn(V, V) -> bool,
    R: Fn(V, u8, u8) -> bool,
>(
    before: Thing<V>,
    level: u8,
    time_requested: Timestamp,
    duration: Span,
    now: Timestamp,
    id: u128,
    arithmetic: Arithmetic<L, M, P, D, R>,
    after: Thing<V>,
    outcome: Outcome<V>,
)
    requires
        handled(
            before,
            Message::Fade { level, time_requested, duration },
            now,
            id,
            arithmetic,
            after,
            outcome,
        ),
    ensures
        outcome.reply matches Some(Reply::Fade(action)) && {
            let StoredActionType::Fade(fade) = action.ty;
            &&& after.actions@ == before.actions@.push(action)
            &&& action.id == id
            &&& fade.status == ActionStatusStatus::Pending
            &&& fade.time_requested == Some(time_requested)
            &&& fade.time_ended is None
            &&& fade.error is None
            &&& fade.href is Some
            &&& fade.href->0@ == "/actions/fade/"@ + hyphenated_text(id)
            &&& fade.output is Some
            &&& fade.output->0.level == level
            &&& fade.output->0.duration * 1_000_000_000 <= duration.nanos
            &&& (fade.output->0.duration + 1) * 1_000_000_000 > duration.nanos
                || fade.output->0.duration == u32::MAX
        },
        outcome.completion matches Some(completion) && {
            let end = time_requested.unix_nanos + duration.nanos;
            &&& completion.id == id
            &&& time_requested.unix_nanos <= now.unix_nanos <= end ==> now.unix_nanos
                + completion.wait.nanos == end
            &&& now.unix_nanos > end ==> completion.wait.nanos == 0
            &&& now.unix_nanos < time_requested.unix_nanos ==> completion.wait == duration
        },
{
}

/// All other requests leave the fade of a switch as it is. It is read as it is and set as was
/// asked, the brightness exactly where `in_range` finds it between 0 and 100, and completing an
/// action concerns the records only.
pub proof fn law_other_requests_are_served<
    V,
    L: Fn(u8) -> V,
    M: Fn(V, V) -> V,
    P: Fn(V, V, u32, u32, u8, u8) -> V,
    D: Fn(V, V) -> bool,
    R: Fn(V, u8, u8) -> bool,
>(
    before: Thing<V>,
    message: Message<V>,
    now: Timestamp,
    id: u128,
    arithmetic: Arithmetic<L, M, P, D, R>,
    after: Thing<V>,
    outcome: Outcome<V>,
)
    requires
        !(message is Fade),
        handled(before, message, now, id, arithmetic, after, outcome),
    ensures
        outcome.completion is None,
        message is GetIsOn ==> outcome.reply == Some(Reply::<V>::IsOn(before.is_on)),
        message is GetBrightness ==> outcome.reply == Some(Reply::Brightness(before.brightness)),
        !(message is GetIsOn || message is GetBrightness) ==> outcome.reply is None,
        message matches Message::SetIsOn(value) ==> after.is_on == value,
        !(message is SetIsOn) ==> after.is_on == before.is_on,
        message matches Message::SetBrightness(value) ==> {
            ||| call_ensures(arithmetic.in_range, (value, 0, 100), true) && after.brightness
                == value
            ||| call_ensures(arithmetic.in_range, (value, 0, 100), false) && after.brightness
                == before.brightness
        },
        !(message is SetBrightness) ==> after.brightness == before.brightness,
        after.fader == before.fader,
        message matches Message::CompleteAction(done) ==> with_first_completed(
            before.actions@,
            done,
            now,
            after.actions@,
        ),
        !(message is CompleteAction) ==> after.actions == before.actions,
{
}

/// However a request reaches the switch, it is served as it is at the time that the clock shows.
pub proof fn law_requests_are_served_alike<
    V: Copy,
    L: Fn(u8) -> V,
    M: Fn(V, V) -> V,
    P: Fn(V, V, u32, u32, u8, u8) -> V,
    D: Fn(V, V) -> bool,
    R: Fn(V, u8, u8) -> bool,
>(
    message: Message<V>,
    now: Timestamp,
    id: u128,
    arithmetic: &Arithmetic<L, M, P, D, R>,
    at: &mut Thing<V>,
    outcome_at: Outcome<V>,
    asked: &mut Thing<V>,
    outcome_asked: Outcome<V>,
    running: &mut Thing<V>,
    outcome_running: Option<Outcome<V>>,
)
    requires
        call_ensures(
            Thing::<V>::handle_message_at::<L, M, P, D, R>,
            (at, message, now, id, arithmetic),
            outcome_at,
        ),
        call_ensures(
            Thing::<V>::handle_message::<L, M, P, D, R>,
            (asked, message, arithmetic),
            outcome_asked,
        ),
        call_ensures(
            handle_event::<V, L, M, P, D, R>,
            (running, LoopEvent::Message(message), arithmetic),
            outcome_running,
        ),
    ensures
        handled(*old(at), message, now, id, *arithmetic, *final(at), outcome_at),
        exists|now: Timestamp, id: u128| #[trigger]
            handled(*old(asked), message, now, id, *arithmetic, *final(asked), outcome_asked),
        outcome_running is Some,
        exists|now: Timestamp, id: u128| #[trigger]
            handled(
                *old(running),
                message,
                now,
                id,
                *arithmetic,
                *final(running),
                outcome_running->0,
            ),
{
}

/// A step is taken alike by itself and by a running switch, which has nothing to answer then; one
/// that stops stays as it is.
pub proof fn law_steps_are_taken_alike<
    V: Copy,
    L: Fn(u8) -> V,
    M: Fn(V, V) -> V,
    P: Fn(V, V, u32, u32, u8, u8) -> V,
    D: Fn(V, V) -> bool,
    R: Fn(V, u8, u8) -> bool,
>(
    arithmetic: &Arithmetic<L, M, P, D, R>,
    ticking: &mut Thing<V>,
    running: &mut Thing<V>,
    outcome_running: Option<Outcome<V>>,
    stopped: &mut Thing<V>,
    outcome_stopped: Option<Outcome<V>>,
)
    requires
        call_ensures(
            Thing::<V>::handle_tick::<P, D>,
            (ticking, &arithmetic.place, &arithmetic.differs),
            (),
        ),
        call_ensures(
            handle_event::<V, L, M, P, D, R>,
            (running, LoopEvent::Tick, arithmetic),
            outcome_running,
        ),
        call_ensures(
            handle_event::<V, L, M, P, D, R>,
            (stopped, LoopEvent::Stop, arithmetic),
            outcome_stopped,
        ),
    ensures
        ticked(*old(ticking), arithmetic.place, arithmetic.differs, *final(ticking)),
        ticked(*old(running), arithmetic.place, arithmetic.differs, *final(running)),
        outcome_running matches Some(outcome) && outcome.reply is None && outcome.completion is None,
        outcome_stopped is None,
        *final(stopped) == *old(stopped),
{
}

/// A request for a fade asks for the level and the seconds of its input.
pub proof fn law_fade_request_is_its_input<V>(
    data: FadeActionInput,
    time_requested: Timestamp,
    message: Message<V>,
    other: Message<V>,
)
    requires
        call_ensures(fade_requested_at::<V>, (data, time_requested), message),
        call_ensures(fade::<V>, (data,), other),
    ensures
        message matches Message::Fade { level, time_requested: time, duration } && {
            &&& level == data.level
            &&& time == time_requested
            &&& duration.nanos == data.duration * 1_000_000_000
        },
        other matches Message::Fade { level, duration, .. } && {
            &&& level == data.level
            &&& duration.nanos == data.duration * 1_000_000_000
        },
{
}

/// A brightness is asked of the switch as it is where `in_range` finds it between 0 and 100, and
/// refused otherwise; then nothing is asked of the switch.
pub proof fn law_brightness_out_of_bounds_is_refused<V: Copy, R: Fn(V, u8, u8) -> bool>(
    value: V,
    in_range: &R,
    response: (u16, Option<Message<V>>),
)
    requires
        call_ensures(put_brightness_property::<V, R>, (value, in_range), response),
    ensures
        ({
            ||| call_ensures(*in_range, (value, 0, 100), true) && response == (
                204u16,
                Some(Message::SetBrightness(value)),
            )
            ||| call_ensures(*in_range, (value, 0, 100), false) && response == (
                400u16,
                None::<Message<V>>,
            )
        }),
{
}

} // verus!
