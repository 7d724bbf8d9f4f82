//! A switch whose level fades on request.
use crate::action::{
    complete_action, is_new_fade, new_fade, with_first_completed, ActionStatusStatus, Completion,
    StoredAction, StoredActionType,
};
use crate::clock::{now_utc, Span, Timestamp, NANOS_PER_SEC};
use crate::fader::{
    fade_goal, fade_of, goal, law_fade_takes_the_whole_change, law_level_is_due_at_each_step,
    lemma_stepped_faders, level_at, level_steps, run_steps, Fader, MAX_LEVEL,
};
use crate::ident::{hyphenated_text, is_random, new_v4};
use vstd::prelude::*;

verus! {

/// The input of a fade: the level to reach and the seconds to take.
#[derive(Clone, Copy, Debug, PartialEq, Eq)]
pub struct FadeActionInput {
    pub level: u8,
    pub duration: u32,
}

/// A switch.
#[derive(Debug)]
pub struct Thing {
    pub is_on: bool,
    pub level: u8,
    pub actions: Vec<StoredAction<FadeActionInput>>,
    pub fader: Fader<u8, i8>,
}

/// A request to a switch.
#[derive(Clone, Copy, Debug)]
pub enum Message {
    GetIsOn,
    SetIsOn(bool),
    Fade { level: u8, time_requested: Timestamp, duration: Span },
    CompleteAction(u128),
}

/// The answer to a [`Message`].
#[derive(Debug)]
pub enum Reply {
    IsOn(bool),
    Fade(StoredAction<FadeActionInput>),
}

/// What is to be done once a request has been served.
#[derive(Debug)]
pub struct Outcome {
    /// The answer, where the request has one.
    pub reply: Option<Reply>,
    /// The action to complete later, where the request has started one.
    pub completion: Option<Completion>,
}

/// The length of time, in whole seconds as far as they can be counted.
pub open spec fn counted_secs(duration: Span) -> u32 {
    let secs = duration.nanos as int / NANOS_PER_SEC as int;
    if secs <= u32::MAX {
        secs as u32
    } else {
        u32::MAX
    }
}

/// The length of time, in whole seconds as far as they can be counted.
pub(crate) fn count_secs(duration: Span) -> (counted: u32)
    ensures
        counted == counted_secs(duration),
{
    let secs: u128 = duration.as_secs();
    if secs <= u32::MAX as u128 {
        secs as u32
    } else {
        u32::MAX
    }
}

impl Thing {
    pub open spec fn wf(self) -> bool {
        self.fader.wf() && self.level <= MAX_LEVEL
    }

    /// The level from which a fade starts.
    pub open spec fn start(self) -> u8 {
        if self.is_on {
            self.level
        } else {
            0
        }
    }

    /// The switch that is on at first, at half its level.
    pub fn new() -> (thing: Thing)
        ensures
            thing.is_on,
            thing.level == 50,
            thing.actions@.len() == 0,
            !thing.fader.active,
            thing.wf(),
    {
        Thing { is_on: true, level: 50, actions: Vec::new(), fader: Fader::default() }
    }
}

/// The request for a fade with the given input, made at the given time.
pub open spec fn fade_request(data: FadeActionInput, time_requested: Timestamp) -> Message {
    Message::Fade {
        level: data.level,
        time_requested,
        duration: Span { nanos: (data.duration * NANOS_PER_SEC) as u128 },
    }
}

/// The request for a fade with the given input, made at the given time.
pub fn fade_requested_at(data: FadeActionInput, time_requested: Timestamp) -> (message: Message)
    ensures
        message == fade_request(data, time_requested),
{
    let FadeActionInput { level, duration } = data;
    Message::Fade { level, time_requested, duration: Span::from_secs(duration as u64) }
}

/// The request for a fade with the given input, made now.
pub fn fade(data: FadeActionInput) -> (message: Message)
    ensures
        exists|now: Timestamp| message == #[trigger] fade_request(data, now),
{
    fade_requested_at(data, now_utc())
}

/// What holds of a switch that has started a fade, where the fade was served at `now` and given
/// the identifier `id`.
pub open spec fn fade_started(
    before: Thing,
    level: u8,
    time_requested: Timestamp,
    duration: Span,
    now: Timestamp,
    id: u128,
    after: Thing,
    outcome: Outcome,
) -> bool {
    &&& outcome.reply matches Some(Reply::Fade(action))
    &&& is_new_fade(
        action,
        id,
        FadeActionInput { level, duration: counted_secs(duration) },
        time_requested,
    )
    &&& after.is_on
    &&& after.level == before.start()
    &&& after.actions@ == before.actions@.push(action)
    &&& after.fader == fade_of(before.start(), goal(level), duration)
    &&& outcome.completion == Some(
        Completion { id, wait: duration.minus(now.since(time_requested)) },
    )
}

/// What serving a request makes of a switch, and what is to be done then, where the clock shows
/// `now` and the next identifier is `id`.
pub open spec fn handled(
    before: Thing,
    message: Message,
    now: Timestamp,
    id: u128,
    after: Thing,
    outcome: Outcome,
) -> bool {
    match message {
        Message::GetIsOn => {
            &&& after == before
            &&& outcome == (Outcome { reply: Some(Reply::IsOn(before.is_on)), completion: None })
        },
        Message::SetIsOn(value) => {
            &&& after == (Thing { is_on: value, ..before })
            &&& outcome == (Outcome { reply: None, completion: None })
        },
        Message::Fade { level, time_requested, duration } => fade_started(
            before,
            level,
            time_requested,
            duration,
            now,
            id,
            after,
            outcome,
        ),
        Message::CompleteAction(done) => {
            &&& after == (Thing { actions: after.actions, ..before })
            &&& with_first_completed(before.actions@, done, now, after.actions@)
            &&& outcome == (Outcome { reply: None, completion: None })
        },
    }
}

impl Thing {
    /// Serves a request for a fade at `now`, with `id` as the identifier of the fade.
    pub fn fade_at(
        &mut self,
        level: u8,
        time_requested: Timestamp,
        duration: Span,
        now: Timestamp,
        id: u128,
    ) -> (outcome: Outcome)
        requires
            old(self).wf(),
        ensures
            final(self).wf(),
            fade_started(
                *old(self),
                level,
                time_requested,
                duration,
                now,
                id,
                *final(self),
                outcome,
            ),
    {
        let wait = duration.saturating_sub(now.elapsed_since(time_requested));
        let output = FadeActionInput { level, duration: count_secs(duration) };
        let action = new_fade(id, output, time_requested);
        self.actions.push(action.clone());

        if !self.is_on {
            self.level = 0;
            self.is_on = true;
        }
        self.fader.fade(self.level, fade_goal(level), duration);

        Outcome { reply: Some(Reply::Fade(action)), completion: Some(Completion { id, wait }) }
    }

    /// Serves a request, where the clock shows `now` and the next identifier is `id`.
    pub fn handle_message_at(&mut self, message: Message, now: Timestamp, id: u128) -> (outcome:
        Outcome)
        requires
            old(self).wf(),
        ensures
            final(self).wf(),
            handled(*old(self), message, now, id, *final(self), outcome),
    {
        match message {
            Message::GetIsOn => Outcome {
                reply: Some(Reply::IsOn(self.is_on)),
                completion: None,
            },
            Message::SetIsOn(value) => {
                self.is_on = value;
                Outcome { reply: None, completion: None }
            },
            Message::Fade { level, time_requested, duration } => self.fade_at(
                level,
                time_requested,
                duration,
                now,
                id,
            ),
            Message::CompleteAction(id) => {
                let _ = complete_action(&mut self.actions, id, now);
                Outcome { reply: None, completion: None }
            },
        }
    }

    /// Serves a request now, with a random identifier for a new action.
    pub fn handle_message(&mut self, message: Message) -> (outcome: Outcome)
        requires
            old(self).wf(),
        ensures
            final(self).wf(),
            exists|now: Timestamp, id: u128|
                is_random(id) && #[trigger] handled(
                    *old(self),
                    message,
                    now,
                    id,
                    *final(self),
                    outcome,
                ),
    {
        let now = now_utc();
        let id: u128 = new_v4();
        self.handle_message_at(message, now, id)
    }
}

/// What ten milliseconds make of a switch.
pub open spec fn ticked<F: Fn(i8, u32, u32) -> i8>(before: Thing, share: F, after: Thing) -> bool {
    &&& after == (Thing { level: after.level, fader: before.fader.stepped(), ..before })
    &&& level_steps(before.fader, share, before.level, after.level)
}

/// Something that happens to a running switch.
#[derive(Clone, Copy, Debug)]
pub enum LoopEvent {
    Message(Message),
    Tick,
    Stop,
}

/// Takes a running switch through what happens to it. There is no outcome where it stops.
///
/// `share` works out how much of a fade is due, as for [`Fader::tick`].
pub fn handle_event<F: Fn(i8, u32, u32) -> i8>(thing: &mut Thing, event: LoopEvent, share: F) -> (
    outcome: Option<Outcome>)
    requires
        old(thing).wf(),
        forall|delta: i8, ticks: u32, tick: u32| #[trigger]
            call_requires(share, (delta, ticks, tick)),
    ensures
        final(thing).wf(),
        match event {
            LoopEvent::Message(message) => {
                &&& outcome matches Some(outcome)
                &&& exists|now: Timestamp, id: u128|
                    is_random(id) && #[trigger] handled(
                        *old(thing),
                        message,
                        now,
                        id,
                        *final(thing),
                        outcome,
                    )
            },
            LoopEvent::Tick => {
                &&& outcome == Some(Outcome { reply: None, completion: None })
                &&& ticked(*old(thing), share, *final(thing))
            },
            LoopEvent::Stop => outcome is None && *final(thing) == *old(thing),
        },
{
    match event {
        LoopEvent::Message(message) => Some(thing.handle_message(message)),
        LoopEvent::Tick => {
            let _ = thing.fader.tick(&mut thing.level, share);
            Some(Outcome { reply: None, completion: None })
        },
        LoopEvent::Stop => None,
    }
}

/// What was written to the switch is read back.
pub proof fn law_switch_is_read_back(
    before: Thing,
    value: bool,
    now: Timestamp,
    id: u128,
    written: Thing,
    first: Outcome,
    after: Thing,
    second: Outcome,
)
    requires
        handled(before, Message::SetIsOn(value), now, id, written, first),
        handled(written, Message::GetIsOn, now, id, after, second),
    ensures
        second.reply == Some(Reply::IsOn(value)),
        after.level == before.level,
{
}

/// No request leads the level of a switch out of bounds, or its fade astray.
pub proof fn law_requests_keep_order(
    before: Thing,
    message: Message,
    now: Timestamp,
    id: u128,
    after: Thing,
    outcome: Outcome,
)
    requires
        before.wf(),
        handled(before, message, now, id, after, outcome),
    ensures
        after.wf(),
{
}

/// A fade leads the switch to the level that was asked for, within bounds: there it is after all
/// the steps of the fade, and there it stays, whatever `share` gave.
pub proof fn law_fade_reaches_its_goal<F: Fn(i8, u32, u32) -> i8>(
    before: Thing,
    level: u8,
    time_requested: Timestamp,
    duration: Span,
    now: Timestamp,
    id: u128,
    outcome: Outcome,
    share: F,
    things: Seq<Thing>,
    steps: nat,
)
    requires
        before.wf(),
        steps < things.len(),
        fade_started(before, level, time_requested, duration, now, id, things[0], outcome),
        forall|i: int|
            0 <= i < things.len() - 1 ==> ticked(#[trigger] things[i], share, things[i + 1]),
        things[0].fader.remaining() <= steps,
    ensures
        things[steps as int].level == goal(level),
        level <= 100 ==> things[steps as int].level == level,
        level > 100 ==> things[steps as int].level == 100,
        !things[steps as int].fader.active,
{
    let fader = things[0].fader;
    let levels = things.map_values(|thing: Thing| thing.level);
    let faders = things.map_values(|thing: Thing| thing.fader);
    assert forall|i: int| 0 <= i < faders.len() - 1 implies faders[i + 1] == (
    #[trigger] faders[i]).stepped() by {
        assert(ticked(things[i], share, things[i + 1]));
    }
    assert forall|i: int| 0 <= i < levels.len() - 1 implies #[trigger] run_steps(
        fader,
        share,
        levels,
        i,
    ) by {
        lemma_stepped_faders(faders, i as nat);
        assert(ticked(things[i], share, things[i + 1]));
    }
    lemma_stepped_faders(faders, steps);
    law_fade_takes_the_whole_change(fader, share, levels, steps);
    assert(level_at(fader.initial_level, fader.delta_level) == goal(level));
}

/// Once as many tens of milliseconds have passed as fit into its duration, and at least one, a fade
/// has led the switch to the level that was asked for, or to 100 where more was asked for.
pub proof fn law_fade_is_over_after_its_duration<F: Fn(i8, u32, u32) -> i8>(
    before: Thing,
    level: u8,
    time_requested: Timestamp,
    duration: Span,
    now: Timestamp,
    id: u128,
    outcome: Outcome,
    share: F,
    things: Seq<Thing>,
    steps: nat,
)
    requires
        before.wf(),
        0 < steps < things.len(),
        (steps + 1) * 10_000_000 > duration.nanos || (steps + 1) * 10 > u32::MAX,
        handled(
            before,
            Message::Fade { level, time_requested, duration },
            now,
            id,
            things[0],
            outcome,
        ),
        forall|i: int|
            0 <= i < things.len() - 1 ==> ticked(#[trigger] things[i], share, things[i + 1]),
    ensures
        level <= 100 ==> things[steps as int].level == level,
        level > 100 ==> things[steps as int].level == 100,
{
    law_fade_reaches_its_goal(
        before,
        level,
        time_requested,
        duration,
        now,
        id,
        outcome,
        share,
        things,
        steps,
    );
}

/// On the way of a fade, after each step but the last, the level is where the fade started from and
/// what `share` gives of the missing level for this very step, kept from 0 to 100.
pub proof fn law_level_on_the_way_is_due<F: Fn(i8, u32, u32) -> i8>(
    before: Thing,
    level: u8,
    time_requested: Timestamp,
    duration: Span,
    now: Timestamp,
    id: u128,
    outcome: Outcome,
    share: F,
    things: Seq<Thing>,
    step: nat,
) -> (due: i8)
    requires
        before.wf(),
        level <= 100,
        0 < step < things.len(),
        (step + 1) * 10_000_000 <= duration.nanos,
        (step + 1) * 10 <= u32::MAX,
        handled(
            before,
            Message::Fade { level, time_requested, duration },
            now,
            id,
            things[0],
            outcome,
        ),
        forall|i: int|
            0 <= i < things.len() - 1 ==> ticked(#[trigger] things[i], share, things[i + 1]),
    ensures
        ({
            let start = if before.is_on {
                before.level
            } else {
                0
            };
            &&& call_ensures(
                share,
                ((level - start) as i8, things[0].fader.ticks, step as u32),
                due,
            )
            &&& 0 <= start + due <= 100 ==> things[step as int].level == start + due
            &&& start + due < 0 ==> things[step as int].level == 0
            &&& start + due > 100 ==> things[step as int].level == 100
        }),
{
    let fader = things[0].fader;
    let levels = things.map_values(|thing: Thing| thing.level);
    let faders = things.map_values(|thing: Thing| thing.fader);
    assert forall|i: int| 0 <= i < faders.len() - 1 implies faders[i + 1] == (
    #[trigger] faders[i]).stepped() by {
        assert(ticked(things[i], share, things[i + 1]));
    }
    assert forall|i: int| 0 <= i < levels.len() - 1 implies #[trigger] run_steps(
        fader,
        share,
        levels,
        i,
    ) by {
        lemma_stepped_faders(faders, i as nat);
        assert(ticked(things[i], share, things[i + 1]));
    }
    law_level_is_due_at_each_step(before.start(), level, duration, share, levels, step)
}

/// A step of ten milliseconds leaves all of a switch as it is but its level and its fade. Whether
/// the switch is on or off, a fade in progress comes one step closer to its end, at which the level
/// is what it started from and the whole change, kept from 0 to 100; before its end what `share`
/// gives for this very step is due. Without a fade in progress the level stays.
pub proof fn law_step_fades<F: Fn(i8, u32, u32) -> i8>(before: Thing, share: F, after: Thing)
    requires
        before.fader.tick < u32::MAX,
        before.fader.initial_level <= 100,
        ticked(before, share, after),
    ensures
        after.is_on == before.is_on,
        after.actions == before.actions,
        after.fader.initial_level == before.fader.initial_level,
        after.fader.delta_level == before.fader.delta_level,
        after.fader.ticks == before.fader.ticks,
        !before.fader.active ==> after.level == before.level && after.fader == before.fader,
        before.fader.active ==> {
            &&& after.fader.tick == before.fader.tick + 1
            &&& after.fader.active <==> before.fader.tick + 1 < before.fader.ticks
        },
        before.fader.active && !after.fader.active ==> {
            let sum = before.fader.initial_level + before.fader.delta_level;
            &&& 0 <= sum <= 100 ==> after.level == sum
            &&& sum < 0 ==> after.level == 0
            &&& sum > 100 ==> after.level == 100
        },
        after.fader.active ==> exists|due: i8|
            {
                let sum = before.fader.initial_level + due;
                &&& #[trigger] call_ensures(
                    share,
                    (before.fader.delta_level, before.fader.ticks, after.fader.tick),
                    due,
                )
                &&& 0 <= sum <= 100 ==> after.level == sum
                &&& sum < 0 ==> after.level == 0
                &&& sum > 100 ==> after.level == 100
            },
{
}

/// A fade turns the switch on, and starts from its level where it was on and from 0 otherwise. It
/// is for the level that was asked for, or 100 where more was asked for, and takes as many steps as
/// whole tens of milliseconds fit into its duration.
pub proof fn law_fade_turns_the_switch_on(
    before: Thing,
    level: u8,
    time_requested: Timestamp,
    duration: Span,
    now: Timestamp,
    id: u128,
    after: Thing,
    outcome: Outcome,
)
    requires
        before.level <= 100,
        handled(before, Message::Fade { level, time_requested, duration }, now, id, after, outcome),
    ensures
        after.is_on,
        before.is_on ==> after.level == before.level,
        !before.is_on ==> after.level == 0,
        after.fader.active,
        after.fader.tick == 0,
        after.fader.initial_level == after.level,
        level <= 100 ==> after.fader.initial_level + after.fader.delta_level == level,
        level > 100 ==> after.fader.initial_level + after.fader.delta_level == 100,
        after.fader.ticks * 10_000_000 <= duration.nanos,
        after.fader.ticks * 10 <= u32::MAX,
        (after.fader.ticks + 1) * 10_000_000 > duration.nanos || (after.fader.ticks + 1) * 10
            > u32::MAX,
{
}

/// A fade is recorded after the actions before it, under its identifier and as pending, with what
/// was asked for: the level, and the whole seconds that it takes as far as they can be counted.
/// What is recorded is what is answered, and it is completed when its duration is over, counted
/// from when it was requested.
pub proof fn law_fade_is_recorded(
    before: Thing,
    level: u8,
    time_requested: Timestamp,
    duration: Span,
    now: Timestamp,
    id: u128,
    after: Thing,
    outcome: Outcome,
)
    requires
        handled(before, Message::Fade { level, time_requested, duration }, now, id, after, outcome),
    ensures
        outcome.reply matches Some(Reply::Fade(action)) && {
            let StoredActionType::Fade(fade) = action.ty;
            &&& after.actions@ == before.actions@.push(action)
            &&& action.id == id
            &&& fade.status == ActionStatusStatus::Pending
            &&& fade.time_requested == Some(time_requested)
            &&& fade.time_ended is None
            &&& fade.error is None
            &&& fade.href is Some
            &&& fade.href->0@ == "/actions/fade/"@ + hyphenated_text(id)
            &&& fade.output is Some
            &&& fade.output->0.level == level
            &&& fade.output->0.duration * 1_000_000_000 <= duration.nanos
            &&& (fade.output->0.duration + 1) * 1_000_000_000 > duration.nanos
                || fade.output->0.duration == u32::MAX
        },
        outcome.completion matches Some(completion) && {
            let end = time_requested.unix_nanos + duration.nanos;
            &&& completion.id == id
            &&& time_requested.unix_nanos <= now.unix_nanos <= end ==> now.unix_nanos
                + completion.wait.nanos == end
            &&& now.unix_nanos > end ==> completion.wait.nanos == 0
            &&& now.unix_nanos < time_requested.unix_nanos ==> completion.wait == duration
        },
{
}

/// All other requests leave the level and the fade of a switch as they are: it is read as it is and
/// set as was asked, and completing an action concerns the records only.
pub proof fn law_other_requests_are_served(
    before: Thing,
    message: Message,
    now: Timestamp,
    id: u128,
    after: Thing,
    outcome: Outcome,
)
    requires
        !(message is Fade),
        handled(before, message, now, id, after, outcome),
    ensures
        outcome.completion is None,
        message is GetIsOn ==> outcome.reply == Some(Reply::IsOn(before.is_on)),
        !(message is GetIsOn) ==> outcome.reply is None,
        message matches Message::SetIsOn(value) ==> after.is_on == value,
        !(message is SetIsOn) ==> after.is_on == before.is_on,
        after.level == before.level,
        after.fader == before.fader,
        message matches Message::CompleteAction(done) ==> with_first_completed(
            before.actions@,
            done,
            now,
            after.actions@,
        ),
        !(message is CompleteAction) ==> after.actions == before.actions,
{
}

/// However a request reaches the switch, it is served as it is at the time that the clock shows.
pub proof fn law_requests_are_served_alike<F: Fn(i8, u32, u32) -> i8>(
    message: Message,
    now: Timestamp,
    id: u128,
    share: F,
    at: &mut Thing,
    outcome_at: Outcome,
    asked: &mut Thing,
    outcome_asked: Outcome,
    running: &mut Thing,
    outcome_running: Option<Outcome>,
)
    requires
        call_ensures(Thing::handle_message_at, (at, message, now, id), outcome_at),
        call_ensures(Thing::handle_message, (asked, message), outcome_asked),
        call_ensures(
            handle_event::<F>,
            (running, LoopEvent::Message(message), share),
            outcome_running,
        ),
    ensures
        handled(*old(at), message, now, id, *final(at), outcome_at),
        exists|now: Timestamp, id: u128| #[trigger]
            handled(*old(asked), message, now, id, *final(asked), outcome_asked),
        outcome_running is Some,
        exists|now: Timestamp, id: u128| #[trigger]
            handled(*old(running), message, now, id, *final(running), outcome_running->0),
{
}

/// A running switch takes each step without an answer, and one that stops stays as it is.
pub proof fn law_steps_are_taken<F: Fn(i8, u32, u32) -> i8>(
    share: F,
    running: &mut Thing,
    outcome_running: Option<Outcome>,
    stopped: &mut Thing,
    outcome_stopped: Option<Outcome>,
)
    requires
        call_ensures(handle_event::<F>, (running, LoopEvent::Tick, share), outcome_running),
        call_ensures(handle_event::<F>, (stopped, LoopEvent::Stop, share), outcome_stopped),
    ensures
        ticked(*old(running), share, *final(running)),
        outcome_running matches Some(outcome) && outcome.reply is None && outcome.completion is None,
        outcome_stopped is None,
        *final(stopped) == *old(stopped),
{
}

/// A request for a fade asks for the level and the seconds of its input.
pub proof fn law_fade_request_is_its_input(
    data: FadeActionInput,
    time_requested: Timestamp,
    message: Message,
    other: Message,
)
    requires
        call_ensures(fade_requested_at, (data, time_requested), message),
        call_ensures(fade, (data,), other),
    ensures
        message matches Message::Fade { level, time_requested: time, duration } && {
            &&& level == data.level
            &&& time == time_requested
            &&& duration.nanos == data.duration * 1_000_000_000
        },
        other matches Message::Fade { level, duration, .. } && {
            &&& level == data.level
            &&& duration.nanos == data.duration * 1_000_000_000
        },
{
}

} // verus!
